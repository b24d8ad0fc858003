//! The event-notifier registry's vocabulary.
//!
//! Device handlers answer events with lists of notifier operations; the
//! event loop applies each list atomically before its next wait.  The crate
//! computes those lists; the loop itself, and the callbacks' file-descriptor
//! work, live outside.  A handler is named by a tag, not a closure, so that
//! what each notifier does is a plain value the contracts can speak of.

use vstd::prelude::*;

verus! {

/// Readable-event interest bit, as epoll defines it.
pub const EVENT_IN: u32 = 0x1;
/// Edge-triggered interest bit, as epoll defines it.
pub const EVENT_EDGE: u32 = 0x8000_0000;

/// What the registry is asked to do with a notifier.
#[derive(Clone, Copy, Debug, PartialEq, Eq, Structural)]
pub enum NotifierOperation {
    /// Add the descriptor, sharing it with other parties if present.
    AddShared,
    /// Change the interest set of a registered descriptor.
    Modify,
    /// Remove the descriptor from the interest set, keeping its callback.
    Park,
    /// Re-arm a parked descriptor.
    Resume,
    /// Remove the descriptor and drop its callback.
    Delete,
}

/// Which handler a notifier's callback runs.
#[derive(Clone, Copy, Debug, PartialEq, Eq, Structural)]
pub enum HandlerKind {
    /// No callback (Park, Resume and Delete carry none).
    NoCallback,
    /// The net control-queue handler.
    CtrlQueue,
    /// The net tap-replacement handler.
    UpdateEvt,
    /// The per-device deactivate handler.
    DeactivateEvt,
    /// The net receive-queue kick handler.
    RxQueue,
    /// The net transmit-queue kick handler.
    TxQueue,
    /// The tap-readable handler.
    Tap,
}

/// One notifier operation: a descriptor, an interest set, an operation and
/// the handler tag its callback runs.
#[derive(Clone, Copy, Debug, PartialEq, Eq, Structural)]
pub struct EventNotifier {
    pub op: NotifierOperation,
    pub fd: i32,
    pub events: u32,
    pub handler: HandlerKind,
}

impl EventNotifier {
    /// A notifier with the given parts.
    pub fn new(op: NotifierOperation, fd: i32, events: u32, handler: HandlerKind) -> (r:
        EventNotifier)
        ensures
            r == (EventNotifier { op, fd, events, handler }),
    {
        EventNotifier { op, fd, events, handler }
    }

    /// A Delete operation for `fd`, carrying no callback.
    pub fn delete(fd: i32) -> (r: EventNotifier)
        ensures
            r == (EventNotifier {
                op: NotifierOperation::Delete,
                fd,
                events: EVENT_IN,
                handler: HandlerKind::NoCallback,
            }),
    {
        EventNotifier {
            op: NotifierOperation::Delete,
            fd,
            events: EVENT_IN,
            handler: HandlerKind::NoCallback,
        }
    }
}

} // verus!
