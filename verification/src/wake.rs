//! The wake-source bridge: converts an edge-triggered hardware event into a
//! scheduler wake-up without exposing interrupts to calling code.
//!
//! Task context registers a wake notifier for a watched resource; interrupt
//! context fires the resource, which takes the stored notifier out of its
//! slot so that the caller can deliver it to the scheduler.  Each resource
//! has a single slot: a second registration overwrites the first
//! (last-registrant-wins), and a fire with nothing registered drops the
//! event (edges are coalesced, not queued).

use vstd::prelude::*;

verus! {

/// The spec-level effect of registering a notifier in a wake record:
/// whatever was stored before, the slot now holds the new notifier.
pub open spec fn register_step(slot: Option<u64>, waker: u64) -> Option<u64> {
    Some(waker)
}

/// The spec-level effect of firing a wake record: the stored notifier (if
/// any) is delivered and the slot is cleared.  The first component is what
/// fire delivers, the second the slot afterwards.
pub open spec fn fire_step(slot: Option<u64>) -> (Option<u64>, Option<u64>) {
    (slot, None)
}

/// A wake record: at most one pending wake notifier for one watched
/// resource.  This is the only state shared between task context and
/// interrupt context.
#[derive(Clone, Copy, Debug)]
pub struct WakeSlot {
    pending: Option<u64>,
}

impl View for WakeSlot {
    type V = Option<u64>;

    closed spec fn view(&self) -> Option<u64> {
        self.pending
    }
}

impl WakeSlot {
    /// An empty slot: no notifier registered.
    pub fn new() -> (s: WakeSlot)
        ensures
            s@ is None,
    {
        WakeSlot { pending: None }
    }

    /// Whether a notifier is currently registered.
    pub fn is_armed(&self) -> (armed: bool)
        ensures
            armed == (self@ is Some),
    {
        self.pending.is_some()
    }

    /// Store `waker` as the notifier to invoke on the next event.  A prior
    /// unfired notifier is overwritten: last-registrant-wins, matching the
    /// single-consumer assumption of the change sequence.
    pub fn register(&mut self, waker: u64)
        ensures
            final(self)@ == register_step(old(self)@, waker),
    {
        self.pending = Some(waker);
    }

    /// Take the stored notifier out for delivery and clear the slot.  With
    /// nothing registered this is a no-op that delivers nothing: the edge is
    /// dropped, not queued.
    pub fn fire(&mut self) -> (woken: Option<u64>)
        ensures
            woken == fire_step(old(self)@).0,
            final(self)@ == fire_step(old(self)@).1,
    {
        let woken = self.pending;
        self.pending = None;
        woken
    }
}

/// A wake record delivers a registered notifier exactly once.
///
/// Law: firing an empty slot delivers nothing and leaves the slot empty;
/// after `register(waker)` the first fire delivers exactly `waker` and
/// clears the slot, so a second fire before any new registration again
/// delivers nothing.
pub proof fn lemma_wake_record_fires_exactly_once(slot: Option<u64>, waker: u64)
    ensures
        fire_step(None::<u64>).0 is None,
        fire_step(None::<u64>).1 is None,
        fire_step(register_step(slot, waker)).0 == Some(waker),
        fire_step(fire_step(register_step(slot, waker)).1).0 is None,
{
}

/// The wake-source bridge: one wake record per watched resource, indexed by
/// the resource's id in the platform's resource table.
#[derive(Debug)]
pub struct WakeBridge {
    slots: Vec<WakeSlot>,
}

impl View for WakeBridge {
    type V = Seq<Option<u64>>;

    closed spec fn view(&self) -> Seq<Option<u64>> {
        Seq::new(self.slots@.len(), |i: int| self.slots@[i]@)
    }
}

impl WakeBridge {
    /// A bridge for a platform with `resources` watched resources, none of
    /// them with a registered notifier.
    pub fn new(resources: usize) -> (bridge: WakeBridge)
        ensures
            bridge@.len() == resources,
            forall|i: int| 0 <= i < resources ==> bridge@[i] is None,
    {
        let mut slots: Vec<WakeSlot> = Vec::new();
        while slots.len() < resources
            invariant
                slots@.len() <= resources,
                forall|i: int| 0 <= i < slots@.len() ==> slots@[i]@ is None,
            decreases resources - slots.len(),
        {
            slots.push(WakeSlot::new());
        }
        WakeBridge { slots }
    }

    /// The number of watched resources.
    pub fn len(&self) -> (n: usize)
        ensures
            n == self@.len(),
    {
        self.slots.len()
    }

    /// Task side: register `waker` as the notifier for `resource`,
    /// overwriting any prior unfired registration.
    pub fn register(&mut self, resource: usize, waker: u64)
        requires
            resource < old(self)@.len(),
        ensures
            final(self)@ == old(self)@.update(
                resource as int,
                register_step(old(self)@[resource as int], waker),
            ),
    {
        let slot = &mut self.slots[resource];
        slot.register(waker);
        proof {
            assert(self@ =~= old(self)@.update(
                resource as int,
                register_step(old(self)@[resource as int], waker),
            ));
        }
    }

    /// Interrupt side: take the notifier stored for `resource` out for
    /// delivery.  With no registration this is a no-op that delivers
    /// nothing.
    pub fn fire(&mut self, resource: usize) -> (woken: Option<u64>)
        requires
            resource < old(self)@.len(),
        ensures
            woken == fire_step(old(self)@[resource as int]).0,
            final(self)@ == old(self)@.update(
                resource as int,
                fire_step(old(self)@[resource as int]).1,
            ),
    {
        let slot = &mut self.slots[resource];
        let woken = slot.fire();
        proof {
            assert(self@ =~= old(self)@.update(
                resource as int,
                fire_step(old(self)@[resource as int]).1,
            ));
        }
        woken
    }
}

} // verus!
