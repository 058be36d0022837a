//! The single-step poll protocol shared by every peripheral capability.

use vstd::prelude::*;

verus! {

/// A hardware-reported failure, surfaced by a capability operation as
/// `Ready(Err(..))`.  Such a result is terminal for that operation instance:
/// the core never retries on its own.
#[derive(Clone, Copy, Debug, PartialEq, Eq, Structural)]
pub enum HwError {
    /// The bus peer did not acknowledge the transfer.
    Nack,
    /// The hardware reported that the operation timed out.
    Timeout,
    /// A bus-level fault (arbitration loss, framing error, ...).
    BusFault,
}

/// Outcome of one poll of a pollable peripheral operation.
///
/// `Ready(Ok(..))` means the hardware step was performed exactly once;
/// `Ready(Err(..))` means the hardware reported a failure and the operation
/// instance is finished; `Pending` means nothing was committed yet and the
/// implementation has arranged for the context's wake notifier to be invoked
/// once the operation becomes performable again.
#[derive(Debug)]
pub enum OpPoll<T> {
    Ready(Result<T, HwError>),
    Pending,
}

/// The scheduler-supplied wake-registration channel handed into every poll.
///
/// The scheduler identifies the task being polled by a wake token; a
/// capability that returns `Pending` must store this token where the
/// completion interrupt will find it.  Delivering the token back to the
/// scheduler is what "invoking the wake notifier" means in this core.
#[derive(Clone, Copy, Debug)]
pub struct PollCx {
    /// The wake token of the task being polled.
    pub waker: u64,
}

impl PollCx {
    /// A context for the task identified by `waker`.
    pub fn new(waker: u64) -> (cx: PollCx)
        ensures
            cx.waker == waker,
    {
        PollCx { waker }
    }
}

} // verus!
