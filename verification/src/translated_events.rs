//! Signals that the delivery path or a canceller sends to a waiting getter.

use vstd::prelude::*;

verus! {

/// The signal a blocked getter is woken with.
#[derive(Clone, Copy, Debug, PartialEq, Eq, Structural)]
pub enum DataReceivedEvent {
    /// The response has been placed in the message queue.
    DataReceived,
    /// The wait is cancelled; the message queue is not to be consulted.
    Terminated,
}

} // verus!
