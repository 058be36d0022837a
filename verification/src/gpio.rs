//! Digital-pin capabilities and their asynchronous operation wrappers.
//!
//! A capability trait models one pollable, single-step hardware operation:
//! each poll either performs the step (`Ready`) or, after arranging a
//! wake-up through the supplied context, suspends (`Pending`).  An
//! asynchronous operation wrapper adapts one such call to the cooperative
//! scheduler's poll-once-per-wake contract; it holds no state beyond the
//! capability handle and the operation's input.

use vstd::prelude::*;

use crate::poll::{HwError, OpPoll, PollCx};
use crate::wake::{fire_step, WakeSlot};

verus! {

/// The digital-output capability: drive a pin level in one pollable step.
///
/// `level()` models the currently driven line level, `op_ready()` whether
/// the hardware can complete a step right now, `fault()` the failure the
/// hardware would report on a completed step, and `waker()` the completion
/// notifier the implementation has arranged to invoke.
pub trait OutputPin {
    /// The line level currently driven by the hardware.
    spec fn level(&self) -> bool;

    /// Whether the hardware can complete an operation step right now.
    spec fn op_ready(&self) -> bool;

    /// The failure the hardware would report on a completed step, if any.
    spec fn fault(&self) -> Option<HwError>;

    /// The completion notifier arranged to be invoked, if any.
    spec fn waker(&self) -> Option<u64>;

    /// Attempt one step of driving the line to `high`.
    ///
    /// The outcome is owed, not optional: on hardware that cannot perform
    /// the step now the poll suspends; on hardware that can, it completes,
    /// with `Ok` when the hardware reports no fault — so the line now
    /// drives `high`, mutated exactly once — and with exactly the
    /// hardware-reported failure otherwise, the line untouched.  A
    /// `Pending` commits nothing and guarantees that the context's wake
    /// notifier has been stored where the completion event will invoke it
    /// — without that guarantee the task would hang forever.
    fn poll_set(&mut self, cx: &PollCx, high: bool) -> (r: OpPoll<()>)
        ensures
            !old(self).op_ready() ==> r is Pending,
            old(self).op_ready() && old(self).fault() is None ==> r == OpPoll::<()>::Ready(
                Ok(()),
            ),
            old(self).fault() matches Some(e) ==> (old(self).op_ready() ==> r == OpPoll::<
                (),
            >::Ready(Err(e)) && final(self).level() == old(self).level()),
            r matches OpPoll::Ready(res) ==> (res is Ok ==> final(self).level() == high),
            r is Pending ==> !old(self).op_ready()
                && final(self).waker() == Some(cx.waker)
                && final(self).level() == old(self).level(),
    ;
}

/// The digital-input capability: observe a pin level in one pollable step.
pub trait InputPin {
    /// The line level currently present at the pin.
    spec fn level(&self) -> bool;

    /// Whether the hardware can complete an observation right now.
    spec fn op_ready(&self) -> bool;

    /// The failure the hardware would report on a completed step, if any.
    spec fn fault(&self) -> Option<HwError>;

    /// The completion notifier arranged to be invoked, if any.
    spec fn waker(&self) -> Option<u64>;

    /// Attempt one step of observing the line level.
    ///
    /// Observing never drives the line.  The outcome is owed: the poll
    /// suspends exactly when the hardware cannot complete an observation
    /// now; otherwise it reports the level that was present, or exactly
    /// the hardware-reported failure.  A `Pending` guarantees the
    /// context's wake notifier has been stored where the completion event
    /// will invoke it.
    fn poll_read(&mut self, cx: &PollCx) -> (r: OpPoll<bool>)
        ensures
            final(self).level() == old(self).level(),
            !old(self).op_ready() ==> r is Pending,
            old(self).op_ready() && old(self).fault() is None ==> r == OpPoll::<bool>::Ready(
                Ok(old(self).level()),
            ),
            old(self).fault() matches Some(e) ==> (old(self).op_ready() ==> r == OpPoll::<
                bool,
            >::Ready(Err(e))),
            r matches OpPoll::Ready(res) ==> (res matches Ok(l) ==> l == old(self).level()),
            r is Pending ==> !old(self).op_ready() && final(self).waker() == Some(cx.waker),
    ;

    /// Sample the line level synchronously.  A digital input register is
    /// always readable; the change sequence uses this to re-read the level
    /// exactly once per wake-up.
    fn sample(&self) -> (l: bool)
        ensures
            l == self.level(),
    ;
}

/// The asynchronous operation wrapper for [`OutputPin::poll_set`]: a
/// transient pairing of the capability handle and the level to drive.  It
/// does no work at construction; each scheduler poll forwards to the
/// capability and reports the outcome unchanged.  Once it has reported
/// `Ready` it is finished and must not be polled again.
#[derive(Debug)]
pub struct SetFuture<A: OutputPin> {
    pin: A,
    high: bool,
    done: bool,
}

/// Wrap `pin` into an operation that drives the line to `high`.
/// Construction performs no hardware work.
pub fn set<A: OutputPin>(pin: A, high: bool) -> (f: SetFuture<A>)
    ensures
        f.pin() == pin,
        f.input() == high,
        !f.is_done(),
{
    SetFuture { pin, high, done: false }
}

impl<A: OutputPin> SetFuture<A> {
    /// The wrapped capability handle.
    pub closed spec fn pin(&self) -> A {
        self.pin
    }

    /// The operation's fixed input: the level to drive.
    pub closed spec fn input(&self) -> bool {
        self.high
    }

    /// Whether the operation has reported `Ready` (its result is consumed;
    /// it must not be polled again).
    pub closed spec fn is_done(&self) -> bool {
        self.done
    }

    /// Whether the operation already reported `Ready`.  A caller outside
    /// the proof must test this before polling again: a finished wrapper
    /// must not be polled.
    pub fn done(&self) -> (done: bool)
        ensures
            done == self.is_done(),
    {
        self.done
    }

    /// One scheduler poll.  Forwards to the capability with the
    /// scheduler-supplied wake context and reports the outcome unchanged.
    ///
    /// Polling again after a `Pending` is idempotent and safe; polling
    /// after a `Ready` is a caller defect, excluded here by precondition so
    /// that every verified caller obeys the poll-once-per-wake contract.
    pub fn poll(&mut self, cx: &PollCx) -> (r: OpPoll<()>)
        requires
            !old(self).is_done(),
        ensures
            final(self).input() == old(self).input(),
            final(self).is_done() == !(r is Pending),
            !old(self).pin().op_ready() ==> r is Pending,
            old(self).pin().op_ready() && old(self).pin().fault() is None ==> r == OpPoll::<
                (),
            >::Ready(Ok(())),
            old(self).pin().fault() matches Some(e) ==> (old(self).pin().op_ready() ==> r
                == OpPoll::<()>::Ready(Err(e)) && final(self).pin().level() == old(
                self,
            ).pin().level()),
            r matches OpPoll::Ready(res) ==> (res is Ok ==> final(self).pin().level()
                == old(self).input()),
            r is Pending ==> !old(self).pin().op_ready()
                && final(self).pin().waker() == Some(cx.waker)
                && final(self).pin().level() == old(self).pin().level(),
    {
        let r = self.pin.poll_set(cx, self.high);
        match r {
            OpPoll::Ready(res) => {
                self.done = true;
                OpPoll::Ready(res)
            },
            OpPoll::Pending => OpPoll::Pending,
        }
    }

    /// Borrow the underlying hardware: this is how the simulated
    /// interrupt-side collaborator reaches the device while the operation
    /// is suspended.  The wrapper's own state is untouched.
    pub fn pin_mut(&mut self) -> (pin: &mut A)
        ensures
            *pin == old(self).pin(),
            final(self).pin() == *final(pin),
            final(self).input() == old(self).input(),
            final(self).is_done() == old(self).is_done(),
    {
        &mut self.pin
    }

    /// Give the capability handle back.  Dropping or dismantling the
    /// wrapper before it reached `Ready` silently cancels the operation;
    /// nothing already committed to hardware is rolled back.
    pub fn into_pin(self) -> (pin: A)
        ensures
            pin == self.pin(),
    {
        self.pin
    }
}

/// The asynchronous operation wrapper for [`InputPin::poll_read`].
#[derive(Debug)]
pub struct ReadFuture<A: InputPin> {
    pin: A,
    done: bool,
}

/// Wrap `pin` into an operation that observes the line level.
/// Construction performs no hardware work.
pub fn read<A: InputPin>(pin: A) -> (f: ReadFuture<A>)
    ensures
        f.pin() == pin,
        !f.is_done(),
{
    ReadFuture { pin, done: false }
}

impl<A: InputPin> ReadFuture<A> {
    /// The wrapped capability handle.
    pub closed spec fn pin(&self) -> A {
        self.pin
    }

    /// Whether the operation has reported `Ready`.
    pub closed spec fn is_done(&self) -> bool {
        self.done
    }

    /// Whether the operation already reported `Ready`.  A caller outside
    /// the proof must test this before polling again: a finished wrapper
    /// must not be polled.
    pub fn done(&self) -> (done: bool)
        ensures
            done == self.is_done(),
    {
        self.done
    }

    /// One scheduler poll; forwards to the capability and reports the
    /// outcome unchanged.  Must not be called again after a `Ready`.
    pub fn poll(&mut self, cx: &PollCx) -> (r: OpPoll<bool>)
        requires
            !old(self).is_done(),
        ensures
            final(self).is_done() == !(r is Pending),
            final(self).pin().level() == old(self).pin().level(),
            !old(self).pin().op_ready() ==> r is Pending,
            old(self).pin().op_ready() && old(self).pin().fault() is None ==> r == OpPoll::<
                bool,
            >::Ready(Ok(old(self).pin().level())),
            old(self).pin().fault() matches Some(e) ==> (old(self).pin().op_ready() ==> r
                == OpPoll::<bool>::Ready(Err(e))),
            r matches OpPoll::Ready(res) ==> (res matches Ok(l) ==> l
                == old(self).pin().level()),
            r is Pending ==> !old(self).pin().op_ready()
                && final(self).pin().waker() == Some(cx.waker),
    {
        let r = self.pin.poll_read(cx);
        match r {
            OpPoll::Ready(res) => {
                self.done = true;
                OpPoll::Ready(res)
            },
            OpPoll::Pending => OpPoll::Pending,
        }
    }

    /// Borrow the underlying hardware for the simulated interrupt-side
    /// collaborator; the wrapper's own state is untouched.
    pub fn pin_mut(&mut self) -> (pin: &mut A)
        ensures
            *pin == old(self).pin(),
            final(self).pin() == *final(pin),
            final(self).is_done() == old(self).is_done(),
    {
        &mut self.pin
    }

    /// Give the capability handle back.
    pub fn into_pin(self) -> (pin: A)
        ensures
            pin == self.pin(),
    {
        self.pin
    }
}

/// A simulated digital output: the hardware model used by the test suite.
/// `ready` models whether the output driver can commit a level now; while
/// it cannot, a poll parks the completion notifier in the pin's wake
/// record.  An injected fault makes completed steps report that failure.
#[derive(Debug)]
pub struct SimOutputPin {
    level: bool,
    ready: bool,
    fault: Option<HwError>,
    slot: WakeSlot,
}

impl SimOutputPin {
    /// A simulated output currently driving `level`, able to complete an
    /// operation step exactly when `ready`, reporting no fault.
    pub fn new(level: bool, ready: bool) -> (p: SimOutputPin)
        ensures
            p.level() == level,
            p.op_ready() == ready,
            p.fault() is None,
            p.waker() is None,
    {
        SimOutputPin { level, ready, fault: None, slot: WakeSlot::new() }
    }

    /// Test side: every completed step now reports the failure `fault`.
    pub fn inject_fault(&mut self, fault: HwError)
        ensures
            final(self).fault() == Some(fault),
            final(self).level() == old(self).level(),
            final(self).op_ready() == old(self).op_ready(),
            final(self).waker() == old(self).waker(),
    {
        self.fault = Some(fault);
    }

    /// Hardware side: the output driver becomes able to complete, and the
    /// completion interrupt delivers the parked notifier, if any.
    pub fn complete(&mut self) -> (woken: Option<u64>)
        ensures
            final(self).op_ready(),
            final(self).level() == old(self).level(),
            final(self).fault() == old(self).fault(),
            woken == fire_step(old(self).waker()).0,
            final(self).waker() == fire_step(old(self).waker()).1,
    {
        self.ready = true;
        self.slot.fire()
    }
}

impl OutputPin for SimOutputPin {
    closed spec fn level(&self) -> bool {
        self.level
    }

    closed spec fn op_ready(&self) -> bool {
        self.ready
    }

    closed spec fn fault(&self) -> Option<HwError> {
        self.fault
    }

    closed spec fn waker(&self) -> Option<u64> {
        self.slot@
    }

    fn poll_set(&mut self, cx: &PollCx, high: bool) -> (r: OpPoll<()>) {
        if self.ready {
            match self.fault {
                Some(e) => OpPoll::Ready(Err(e)),
                None => {
                    self.level = high;
                    OpPoll::Ready(Ok(()))
                },
            }
        } else {
            self.slot.register(cx.waker);
            OpPoll::Pending
        }
    }
}

/// A simulated digital input: the line level is driven by the test's
/// "external world"; `ready` models whether an observation can complete
/// now.  An injected fault makes completed steps report that failure.
#[derive(Debug)]
pub struct SimInputPin {
    level: bool,
    ready: bool,
    fault: Option<HwError>,
    slot: WakeSlot,
}

impl SimInputPin {
    /// A simulated input currently at `level`, able to complete an
    /// observation exactly when `ready`, reporting no fault.
    pub fn new(level: bool, ready: bool) -> (p: SimInputPin)
        ensures
            p.level() == level,
            p.op_ready() == ready,
            p.fault() is None,
            p.waker() is None,
    {
        SimInputPin { level, ready, fault: None, slot: WakeSlot::new() }
    }

    /// Test side: every completed step now reports the failure `fault`.
    pub fn inject_fault(&mut self, fault: HwError)
        ensures
            final(self).fault() == Some(fault),
            final(self).level() == old(self).level(),
            final(self).op_ready() == old(self).op_ready(),
            final(self).waker() == old(self).waker(),
    {
        self.fault = Some(fault);
    }

    /// External world: the signal at the pin changes to `level`.  This
    /// models the raw line only; delivering the matching edge interrupt is
    /// the wake-source bridge's business.
    pub fn drive(&mut self, level: bool)
        ensures
            final(self).level() == level,
            final(self).op_ready() == old(self).op_ready(),
            final(self).fault() == old(self).fault(),
            final(self).waker() == old(self).waker(),
    {
        self.level = level;
    }

    /// Hardware side: an observation becomes completable, and the
    /// completion interrupt delivers the parked notifier, if any.
    pub fn complete(&mut self) -> (woken: Option<u64>)
        ensures
            final(self).op_ready(),
            final(self).level() == old(self).level(),
            final(self).fault() == old(self).fault(),
            woken == fire_step(old(self).waker()).0,
            final(self).waker() == fire_step(old(self).waker()).1,
    {
        self.ready = true;
        self.slot.fire()
    }
}

impl InputPin for SimInputPin {
    closed spec fn level(&self) -> bool {
        self.level
    }

    closed spec fn op_ready(&self) -> bool {
        self.ready
    }

    closed spec fn fault(&self) -> Option<HwError> {
        self.fault
    }

    closed spec fn waker(&self) -> Option<u64> {
        self.slot@
    }

    fn poll_read(&mut self, cx: &PollCx) -> (r: OpPoll<bool>) {
        if self.ready {
            match self.fault {
                Some(e) => OpPoll::Ready(Err(e)),
                None => OpPoll::Ready(Ok(self.level)),
            }
        } else {
            self.slot.register(cx.waker);
            OpPoll::Pending
        }
    }

    fn sample(&self) -> (l: bool) {
        self.level
    }
}

} // verus!
