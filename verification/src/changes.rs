//! The change-event sequence: pin-level transitions as a lazy, infinite
//! sequence consumed through the cooperative suspension contract.
//!
//! Each poll of the sequence first registers the consumer's wake notifier
//! with the wake-source bridge and only then samples the line.  Because
//! registration comes first, an edge landing anywhere around the sample is
//! never lost: an edge before the sample is observed by the sample itself
//! (the poll completes without suspending), and an edge after the sample
//! finds the notifier already registered, so the interrupt's fire delivers
//! a wake-up.  A fire that did not change the sampled level is filtered
//! out as spurious.

use vstd::prelude::*;

use crate::gpio::InputPin;
use crate::poll::{OpPoll, PollCx};
use crate::wake::{fire_step, register_step, WakeBridge};

verus! {

/// The direction of an observed pin transition.
#[derive(Clone, Copy, Debug, PartialEq, Eq, Structural)]
pub enum Edge {
    Rising,
    Falling,
}

/// The edge that ends at `level`.
pub open spec fn edge_of(level: bool) -> Edge {
    if level {
        Edge::Rising
    } else {
        Edge::Falling
    }
}

/// What one poll of the change sequence emits, given the most recently
/// observed level and the freshly sampled one: a transition exactly when
/// the level changed, nothing for a spurious wake-up.
pub open spec fn next_transition(last: bool, level: bool) -> Option<Edge> {
    if level == last {
        None
    } else {
        Some(edge_of(level))
    }
}

/// Spurious-fire filtering: a wake-up after which the sampled level equals
/// the remembered one emits no transition; in particular, right after an
/// emitted transition a second identical sample emits nothing.
pub proof fn lemma_spurious_fire_filtered(last: bool, level: bool)
    ensures
        next_transition(last, last) is None,
        next_transition(last, level) is Some ==> next_transition(level, level) is None,
{
}

/// Lost-wakeup freedom of the register-then-sample order.
///
/// Suppose the consumer last observed `last` and a genuine edge moves the
/// line to `level`.  The sequence's poll registers the notifier `waker`
/// before sampling, so whichever side of the sample the edge lands on, the
/// consumer makes progress:
/// * edge before the sample — the sample observes the changed level and
///   the poll emits the transition at once, without suspending;
/// * edge after the sample — the slot already holds `waker`, so the edge
///   interrupt's fire delivers exactly that notifier and the consumer is
///   woken to poll again.
pub proof fn lemma_no_lost_wakeup(
    slots: Seq<Option<u64>>,
    resource: int,
    waker: u64,
    last: bool,
    level: bool,
)
    requires
        0 <= resource < slots.len(),
        level != last,
    ensures
        next_transition(last, level) == Some(edge_of(level)),
        ({
            let armed = slots.update(resource, register_step(slots[resource], waker));
            fire_step(armed[resource]).0 == Some(waker)
        }),
{
}

/// The change-event sequence for one watched input pin: the pin's handle,
/// its id in the wake-source bridge, and the most recently observed level,
/// used to emit only genuine transitions.  The sequence is infinite and
/// has a single logical cursor (the value is not duplicable).
#[derive(Debug)]
pub struct ChangeEvents<A: InputPin> {
    pin: A,
    resource: usize,
    last: bool,
    armed: bool,
}

/// Start watching `pin`, registered under `resource` in the wake-source
/// bridge.  The line is sampled once to seed the remembered level, so the
/// first emitted event is a genuine transition from the level at
/// construction time.
pub fn changes<A: InputPin>(pin: A, resource: usize) -> (c: ChangeEvents<A>)
    ensures
        c.pin() == pin,
        c.resource() == resource,
        c.last_level() == pin.level(),
        !c.is_armed(),
{
    let last = pin.sample();
    ChangeEvents { pin, resource, last, armed: false }
}

impl<A: InputPin> ChangeEvents<A> {
    /// The watched capability handle.
    pub closed spec fn pin(&self) -> A {
        self.pin
    }

    /// The watched resource's id in the wake-source bridge.
    pub closed spec fn resource(&self) -> usize {
        self.resource
    }

    /// The most recently observed line level.
    pub closed spec fn last_level(&self) -> bool {
        self.last
    }

    /// Whether the sequence is suspended with a registered notifier
    /// (`Armed`), as opposed to idle between polls (`Idle`).
    pub closed spec fn is_armed(&self) -> bool {
        self.armed
    }

    /// One scheduler poll for the next transition.
    ///
    /// Registers the consumer's notifier with the bridge first — even when
    /// the poll then completes, so a stale registration may remain; firing
    /// it merely wakes the consumer spuriously, which the level check
    /// filters — and then samples the line exactly once.  Emits the
    /// transition when the level changed, else suspends.  The sequence
    /// never fails and never ends.
    pub fn poll_next(&mut self, cx: &PollCx, bridge: &mut WakeBridge) -> (r: OpPoll<Edge>)
        requires
            old(self).resource() < old(bridge)@.len(),
        ensures
            final(self).pin() == old(self).pin(),
            final(self).resource() == old(self).resource(),
            final(bridge)@ == old(bridge)@.update(
                old(self).resource() as int,
                Some(cx.waker),
            ),
            match r {
                OpPoll::Ready(res) => res matches Ok(edge)
                    && next_transition(old(self).last_level(), old(self).pin().level())
                        == Some(edge)
                    && final(self).last_level() == old(self).pin().level()
                    && !final(self).is_armed(),
                OpPoll::Pending => next_transition(
                    old(self).last_level(),
                    old(self).pin().level(),
                ) is None
                    && final(self).last_level() == old(self).last_level()
                    && final(self).is_armed(),
            },
    {
        bridge.register(self.resource, cx.waker);
        let level = self.pin.sample();
        if level != self.last {
            self.last = level;
            self.armed = false;
            if level {
                OpPoll::Ready(Ok(Edge::Rising))
            } else {
                OpPoll::Ready(Ok(Edge::Falling))
            }
        } else {
            self.armed = true;
            OpPoll::Pending
        }
    }

    /// Borrow the watched hardware: this is how the simulated external
    /// world drives the line while the consumer stays suspended.  The
    /// cursor's remembered level and state are untouched.
    pub fn pin_mut(&mut self) -> (pin: &mut A)
        ensures
            *pin == old(self).pin(),
            final(self).pin() == *final(pin),
            final(self).resource() == old(self).resource(),
            final(self).last_level() == old(self).last_level(),
            final(self).is_armed() == old(self).is_armed(),
    {
        &mut self.pin
    }

    /// Abandon the sequence and give the capability handle back.  A stale
    /// notifier possibly still registered in the bridge is harmless:
    /// firing it is a safe no-op wake-up for the scheduler.
    pub fn into_pin(self) -> (pin: A)
        ensures
            pin == self.pin(),
    {
        self.pin
    }
}

} // verus!
