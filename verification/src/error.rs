//! Error values of the library.
//!
//! Guest-protocol faults (malformed descriptor chains, bad control requests)
//! are `VirtioError`; configuration rejected at load time is `ConfigError`.
//! Host-I/O failures never arise here: the functions of this crate compute
//! over plain values and never touch a file descriptor.

use vstd::prelude::*;

verus! {

/// A guest-protocol or device-model fault.
#[derive(Clone, Copy, Debug, PartialEq, Eq, Structural)]
pub enum VirtioError {
    /// A ring entry named a descriptor index outside the table: (index, size).
    QueueIndex(u16, u16),
    /// A descriptor chain was structurally bad: a cycle, a `next` link out of
    /// range, or a buffer outside guest memory.
    QueueDesc,
    /// The lengths of one chain overran the 32-bit total a driver may use.
    ChainOverflow,
    /// A config-space access beyond the device's config length:
    /// (offset, config length).
    DevConfigOverflow(u64, u64),
    /// A control-queue header named a class the device does not serve.
    CtrlClass(u16),
    /// A control-queue header named a command the class does not serve.
    CtrlCmd(u16),
    /// A multiqueue request asked for a queue-pair count outside the
    /// permitted interval.
    CtrlQueuePairs(u16),
    /// An operation was asked for in a lifecycle state that forbids it.
    Lifecycle,
}

/// A net-device configuration fault.
#[derive(Clone, Copy, Debug, PartialEq, Eq, Structural)]
pub enum NetError {
    /// The tap-fd list holds no descriptor for this queue pair index.
    TapFdMissing(u16),
    /// The tap's multiqueue capability and the configured queue-pair count
    /// disagree: (tap is multiqueue, queue pairs configured).
    TapMqConflict(bool, u16),
}

/// A fault of the passthrough-device model.
#[derive(Clone, Copy, Debug, PartialEq, Eq, Structural)]
pub enum VfioPciError {
    /// The device's config space carries no MSI-X capability.
    NoMsixCap,
    /// The MSI-X capability does not fit inside the config space.
    MsixCapTruncated,
    /// The MSI-X table names a BAR outside the device's BAR list.
    BarIndex(u8),
    /// An operation needing the MSI-X parse ran before it was made.
    MsixNotSetup,
    /// The device-function number is already occupied on the bus.
    DevfnUsed(u8),
}

/// A device configuration rejected at load time.
#[derive(Clone, Debug, PartialEq, Eq)]
pub enum ConfigError {
    /// A second balloon device was configured for the same VM.
    OnlyOneBalloon,
    /// The command line named a parameter the device does not know.
    InvalidParam(String),
    /// The same parameter appeared twice.
    DuplicateParam(String),
    /// A parameter's value could not be read in its expected form:
    /// (parameter, value).
    InvalidValue(String, String),
    /// A numeric parameter lay outside its permitted interval:
    /// (parameter, min, min exclusive, max, max exclusive).
    IllegalValue(String, u64, bool, u64, bool),
    /// A string argument was longer than the limit: (argument name).
    StringTooLong(String),
    /// A PCI-only argument was given to a non-PCI device: (argument).
    PciArgForbidden(String),
    /// The command line carried an item with an empty key or malformed
    /// `key=value` shape.
    MalformedItem,
}

impl ConfigError {
    /// A human-readable account of the error.
    pub fn message(&self) -> (r: String)
        ensures
            r@ == match self {
                ConfigError::OnlyOneBalloon => "Only one balloon device is supported for each vm."@,
                ConfigError::InvalidParam(_) => "Invalid parameter"@,
                ConfigError::DuplicateParam(_) => "Parameter is repeated"@,
                ConfigError::InvalidValue(_, _) => "Invalid value for parameter"@,
                ConfigError::IllegalValue(
                    _,
                    _,
                    _,
                    _,
                    _,
                ) => "Parameter value lies outside its permitted interval"@,
                ConfigError::StringTooLong(_) => "String argument is too long"@,
                ConfigError::PciArgForbidden(_) => "Device does not support this PCI argument"@,
                ConfigError::MalformedItem => "Malformed command-line item"@,
            },
    {
        match self {
            ConfigError::OnlyOneBalloon => String::from_str(
                "Only one balloon device is supported for each vm.",
            ),
            ConfigError::InvalidParam(_) => String::from_str("Invalid parameter"),
            ConfigError::DuplicateParam(_) => String::from_str("Parameter is repeated"),
            ConfigError::InvalidValue(_, _) => String::from_str("Invalid value for parameter"),
            ConfigError::IllegalValue(_, _, _, _, _) => String::from_str(
                "Parameter value lies outside its permitted interval",
            ),
            ConfigError::StringTooLong(_) => String::from_str("String argument is too long"),
            ConfigError::PciArgForbidden(_) => String::from_str(
                "Device does not support this PCI argument",
            ),
            ConfigError::MalformedItem => String::from_str("Malformed command-line item"),
        }
    }
}

} // verus!
