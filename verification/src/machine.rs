//! The machine-level vocabulary: VM lifecycle states, lifetime events, and
//! the interfaces a machine offers to the hypervisor.
//!
//! The control-plane monitor that serialises responses to JSON lives
//! outside; `Response` here carries the outcome as plain values.

use vstd::prelude::*;

verus! {

/// State of a KVM virtual machine.
#[derive(PartialEq, Eq, Structural, Copy, Clone, Debug)]
pub enum KvmVmState {
    Created,
    Running,
    InMigrating,
    Migrated,
    Paused,
    Shutdown,
}

/// Event over a VM's lifetime.
#[derive(PartialEq, Eq, Structural, Copy, Clone, Debug)]
pub enum VmEvent {
    ShutdownCauseGuestReset,
    ShutdownCauseGuestCrash,
    ShutdownCauseFailEntry,
    ShutdownCauseInternalError,
}

/// A control-plane response: an optional error description; an empty
/// response reports success.
#[derive(Clone, Debug, PartialEq, Eq)]
pub struct Response {
    /// The error description, or `None` on success.
    pub error: Option<String>,
}

impl Response {
    /// The response that reports plain success.
    pub fn create_empty_response() -> (r: Response)
        ensures
            r.error is None,
    {
        Response { error: None }
    }

    /// A response that reports the given failure.
    pub fn create_error_response(desc: String) -> (r: Response)
        ensures
            r.error matches Some(e) && e@ == desc@,
    {
        Response { error: Some(desc) }
    }

    /// Whether the response reports success.
    pub fn is_ok(&self) -> (r: bool)
        ensures
            r == (self.error is None),
    {
        match &self.error {
            Option::None => true,
            Option::Some(_) => false,
        }
    }
}

/// Lifecycle operations of a VM or of a device.
///
/// The provided methods ask for the standard transitions; an implementor
/// supplies `notify_lifecycle`, which moves the machine from the first state
/// to the second and says whether the transition was taken.
pub trait MachineLifecycle {
    /// Start: the machine leaves `Created` for the running regime.
    fn start(&self) -> bool {
        self.notify_lifecycle(KvmVmState::Created, KvmVmState::Paused)
    }

    /// Pause: keep the machine in memory, stop running it.
    fn pause(&self) -> bool {
        self.notify_lifecycle(KvmVmState::Running, KvmVmState::Paused)
    }

    /// Resume a paused machine.
    fn resume(&self) -> bool {
        self.notify_lifecycle(KvmVmState::Paused, KvmVmState::Running)
    }

    /// Stop the machine for good.
    fn destroy(&self) -> bool {
        self.notify_lifecycle(KvmVmState::Running, KvmVmState::Shutdown)
    }

    /// Move from `from` to `to`, notifying every concerned party; returns
    /// whether the transition was taken.
    fn notify_lifecycle(&self, from: KvmVmState, to: KvmVmState) -> bool;
}

/// Address-space access a machine offers: port I/O and memory-mapped I/O.
pub trait MachineAddressInterface {
    /// Read from a port into `data`; true on success.
    fn pio_in(&self, port: u64, data: &mut Vec<u8>) -> bool;

    /// Write `data` to a port; true on success.
    fn pio_out(&self, port: u64, data: &Vec<u8>) -> bool;

    /// Read guest-physical memory at `addr` into `data`; true on success.
    fn mmio_read(&self, addr: u64, data: &mut Vec<u8>) -> bool;

    /// Write `data` to guest-physical memory at `addr`; true on success.
    fn mmio_write(&self, addr: u64, data: &Vec<u8>) -> bool;
}

/// Migration operations a machine offers to the control plane.
pub trait MigrateInterface {
    /// Migrate the running guest to the given destination.
    fn migrate(&self, uri: String) -> Response {
        Response::create_empty_response()
    }

    /// Report the state of the current migration.
    fn query_migrate(&self) -> Response {
        Response::create_empty_response()
    }
}

/// The machine interface exposed to the inner hypervisor.
pub trait MachineInterface: MachineLifecycle + MachineAddressInterface {

}

} // verus!
