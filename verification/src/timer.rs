//! The timer-delay capability and its asynchronous operation wrapper.

use vstd::prelude::*;

use crate::poll::{OpPoll, PollCx};
use crate::wake::{fire_step, WakeSlot};

verus! {

/// The timer capability: wait until a deadline on the timer's own tick
/// counter, in pollable single steps.  `now()` models the counter;
/// polling never advances it — only the hardware does, between polls.
pub trait DelayTimer {
    /// The current value of the timer's tick counter.
    spec fn now(&self) -> u64;

    /// The expiry notifier arranged to be invoked, if any.
    spec fn waker(&self) -> Option<u64>;

    /// Attempt one step of waiting until the counter reaches `deadline`.
    ///
    /// Completes exactly when the deadline has been reached; otherwise it
    /// suspends after arranging for the context's wake notifier to be
    /// invoked by the timer interrupt.  A delay itself never fails.
    fn poll_at(&mut self, cx: &PollCx, deadline: u64) -> (r: OpPoll<()>)
        ensures
            final(self).now() == old(self).now(),
            old(self).now() >= deadline ==> r == OpPoll::<()>::Ready(Ok(())),
            old(self).now() < deadline ==> r is Pending
                && final(self).waker() == Some(cx.waker),
    ;
}

/// The asynchronous operation wrapper for [`DelayTimer::poll_at`]: the
/// timer handle paired with the fixed deadline.  Timeouts for other
/// operations are composed by callers from this primitive; the core adds
/// no implicit timeout anywhere.
#[derive(Debug)]
pub struct DelayFuture<A: DelayTimer> {
    timer: A,
    deadline: u64,
    done: bool,
}

/// Wrap `timer` into an operation that completes once the counter reaches
/// `deadline`.  Construction performs no hardware work.
pub fn delay_until<A: DelayTimer>(timer: A, deadline: u64) -> (f: DelayFuture<A>)
    ensures
        f.timer() == timer,
        f.deadline() == deadline,
        !f.is_done(),
{
    DelayFuture { timer, deadline, done: false }
}

impl<A: DelayTimer> DelayFuture<A> {
    /// The wrapped timer handle.
    pub closed spec fn timer(&self) -> A {
        self.timer
    }

    /// The operation's fixed input: the tick to wait for.
    pub closed spec fn deadline(&self) -> u64 {
        self.deadline
    }

    /// Whether the operation has reported `Ready`.
    pub closed spec fn is_done(&self) -> bool {
        self.done
    }

    /// Whether the operation already reported `Ready`.  A caller outside
    /// the proof must test this before polling again: a finished wrapper
    /// must not be polled.
    pub fn done(&self) -> (done: bool)
        ensures
            done == self.is_done(),
    {
        self.done
    }

    /// One scheduler poll; must not be called again after a `Ready`.
    pub fn poll(&mut self, cx: &PollCx) -> (r: OpPoll<()>)
        requires
            !old(self).is_done(),
        ensures
            final(self).deadline() == old(self).deadline(),
            final(self).is_done() == !(r is Pending),
            final(self).timer().now() == old(self).timer().now(),
            old(self).timer().now() >= old(self).deadline() ==> r == OpPoll::<()>::Ready(
                Ok(()),
            ),
            old(self).timer().now() < old(self).deadline() ==> r is Pending
                && final(self).timer().waker() == Some(cx.waker),
    {
        let r = self.timer.poll_at(cx, self.deadline);
        match r {
            OpPoll::Ready(res) => {
                self.done = true;
                OpPoll::Ready(res)
            },
            OpPoll::Pending => OpPoll::Pending,
        }
    }

    /// Borrow the underlying hardware for the simulated interrupt-side
    /// collaborator; the wrapper's own state is untouched.
    pub fn timer_mut(&mut self) -> (timer: &mut A)
        ensures
            *timer == old(self).timer(),
            final(self).timer() == *final(timer),
            final(self).deadline() == old(self).deadline(),
            final(self).is_done() == old(self).is_done(),
    {
        &mut self.timer
    }

    /// Give the timer handle back; before `Ready` this cancels the delay.
    pub fn into_timer(self) -> (timer: A)
        ensures
            timer == self.timer(),
    {
        self.timer
    }
}

/// A simulated tick-counter timer: the hardware model used by the test
/// suite.  Ticks advance only through [`SimTimer::advance`].
#[derive(Debug)]
pub struct SimTimer {
    ticks: u64,
    slot: WakeSlot,
}

impl SimTimer {
    /// A timer whose counter currently reads `ticks`.
    pub fn new(ticks: u64) -> (t: SimTimer)
        ensures
            t.now() == ticks,
            t.waker() is None,
    {
        SimTimer { ticks, slot: WakeSlot::new() }
    }

    /// Hardware side: the counter advances by `ticks` and the timer
    /// interrupt delivers the parked notifier, if any.
    pub fn advance(&mut self, ticks: u64) -> (woken: Option<u64>)
        requires
            old(self).now() + ticks <= u64::MAX,
        ensures
            final(self).now() == old(self).now() + ticks,
            woken == fire_step(old(self).waker()).0,
            final(self).waker() == fire_step(old(self).waker()).1,
    {
        self.ticks = self.ticks + ticks;
        self.slot.fire()
    }
}

impl DelayTimer for SimTimer {
    closed spec fn now(&self) -> u64 {
        self.ticks
    }

    closed spec fn waker(&self) -> Option<u64> {
        self.slot@
    }

    fn poll_at(&mut self, cx: &PollCx, deadline: u64) -> (r: OpPoll<()>) {
        if self.ticks >= deadline {
            OpPoll::Ready(Ok(()))
        } else {
            self.slot.register(cx.waker);
            OpPoll::Pending
        }
    }
}

} // verus!
