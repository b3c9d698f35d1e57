//! The failures a getter reports to its caller.

use vstd::prelude::*;

verus! {

/// Why a response could not be handed out.
///
/// A cancelled wait has a variant of its own, so that callers can tell an
/// intended abort from a fault of the channel or of the message queue.
#[derive(Clone, Copy, Debug, PartialEq, Eq, Structural)]
pub enum CoreError {
    /// The channel was disconnected before any signal arrived.
    ReceiveFailure,
    /// The wait was cancelled by a `Terminated` signal.
    OperationAborted,
    /// The message queue holds nothing under the requested name.
    NotFound,
    /// The lock around the message queue is poisoned.
    MutexPoisoned,
}

} // verus!
