//! The pin/peripheral ownership registry.
//!
//! A process-wide table of "claimed" flags, one per physical resource,
//! consulted and mutated only at platform-construction time.  A resource is
//! claimed at most once; a flag never reverts (there is no release), so the
//! second claim of a resource is rejected whether or not the first handle is
//! still held.

use vstd::prelude::*;

verus! {

/// The resource-conflict error: the resource was already claimed.  Fatal to
/// platform construction; never retried.
#[derive(Clone, Copy, Debug, PartialEq, Eq, Structural)]
pub enum ClaimError {
    AlreadyClaimed,
}

/// An exclusively-owned marker for one physical resource.  Handles are
/// minted only by [`Registry::claim`] and cannot be duplicated, so at most
/// one live handle exists per resource.
#[derive(Debug)]
pub struct ResourceHandle {
    id: usize,
}

impl ResourceHandle {
    /// The id of the claimed resource.
    pub closed spec fn id_spec(&self) -> usize {
        self.id
    }

    /// The id of the claimed resource.
    pub fn id(&self) -> (id: usize)
        ensures
            id == self.id_spec(),
    {
        self.id
    }
}

/// Whether a claim of `resource` on a table in state `table` is granted.
pub open spec fn claim_grants(table: Seq<bool>, resource: int) -> bool {
    !table[resource]
}

/// The table after a granted claim of `resource`.
pub open spec fn after_claim(table: Seq<bool>, resource: int) -> Seq<bool> {
    table.update(resource, true)
}

/// A second claim of the same resource after a successful one is rejected,
/// deterministically; since no operation ever clears a claimed flag, this
/// holds whether or not the first handle is still held.
pub proof fn lemma_second_claim_rejected(table: Seq<bool>, resource: int)
    requires
        0 <= resource < table.len(),
        claim_grants(table, resource),
    ensures
        !claim_grants(after_claim(table, resource), resource),
{
}

/// The ownership table: one claimed-flag per physical resource, indexed by
/// resource id.  The view is the sequence of flags.
#[derive(Debug)]
pub struct Registry {
    claimed: Vec<bool>,
}

impl View for Registry {
    type V = Seq<bool>;

    closed spec fn view(&self) -> Seq<bool> {
        self.claimed@
    }
}

impl Registry {
    /// A registry for a platform with `resources` physical resources, all
    /// of them unclaimed.
    pub fn new(resources: usize) -> (r: Registry)
        ensures
            r@.len() == resources,
            forall|i: int| 0 <= i < resources ==> !r@[i],
    {
        let mut claimed: Vec<bool> = Vec::new();
        while claimed.len() < resources
            invariant
                claimed@.len() <= resources,
                forall|i: int| 0 <= i < claimed@.len() ==> !claimed@[i],
            decreases resources - claimed.len(),
        {
            claimed.push(false);
        }
        Registry { claimed }
    }

    /// The number of physical resources in the table.
    pub fn len(&self) -> (n: usize)
        ensures
            n == self@.len(),
    {
        self.claimed.len()
    }

    /// Whether `resource` has been claimed.
    pub fn is_claimed(&self, resource: usize) -> (claimed: bool)
        requires
            resource < self@.len(),
        ensures
            claimed == self@[resource as int],
    {
        self.claimed[resource]
    }

    /// Claim exclusive ownership of `resource`.
    ///
    /// Grants a handle on the first claim of a resource and rejects every
    /// later claim of the same resource with the resource-conflict error.
    /// A claimed flag never reverts: there is no release operation.
    pub fn claim(&mut self, resource: usize) -> (r: Result<ResourceHandle, ClaimError>)
        requires
            resource < old(self)@.len(),
        ensures
            final(self)@.len() == old(self)@.len(),
            r is Ok <==> claim_grants(old(self)@, resource as int),
            r matches Ok(handle) ==> handle.id_spec() == resource,
            r is Ok ==> final(self)@ == after_claim(old(self)@, resource as int),
            r is Err ==> r == Err::<ResourceHandle, ClaimError>(ClaimError::AlreadyClaimed)
                && final(self)@ == old(self)@,
            final(self)@[resource as int],
            forall|i: int| 0 <= i < old(self)@.len() && old(self)@[i] ==> final(self)@[i],
    {
        if self.claimed[resource] {
            Err(ClaimError::AlreadyClaimed)
        } else {
            self.claimed[resource] = true;
            Ok(ResourceHandle { id: resource })
        }
    }
}

} // verus!
