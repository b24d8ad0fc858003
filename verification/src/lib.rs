//! Core device-emulation logic of a lightweight KVM virtual-machine monitor.
//!
//! The crate covers the virtio I/O plane (split-ring virtqueues, the net
//! backend, the balloon device configuration) and the PCI/VFIO passthrough
//! plane (config-space emulation, BAR sizing, MSI-X table carving and GSI
//! routing).  Host I/O — tap and event file descriptors, VFIO ioctls — stays
//! outside; the functions here compute over plain values and guest-memory
//! images, and state what they do in their contracts.

pub mod balloon;
pub mod cmdline;
pub mod error;
pub mod features;
pub mod guest_mem;
pub mod machine;
pub mod net;
pub mod notifier;
pub mod pci;
pub mod queue;
pub mod vfio;

pub use features::virtio_has_feature;
