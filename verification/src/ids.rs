//! Actor identity: opaque, unique, totally ordered identifiers and the
//! source that issues them.

use vstd::prelude::*;

verus! {

/// An opaque actor identity. Assigned once when an actor is prepared, never
/// reused by the same [`IdSource`], immutable, and totally ordered so it can
/// serve as a map key and for trace correlation.
#[derive(Clone, Copy, PartialEq, Eq, Structural, PartialOrd, Ord, Hash, Debug)]
pub struct ActorID {
    id: u64,
}

impl ActorID {
    /// The numeric value behind the identity, for specification purposes.
    pub closed spec fn value(self) -> u64 {
        self.id
    }
}

/// Issues fresh actor identities. Identities handed out by one source are
/// strictly increasing, so no identity is ever issued twice.
pub struct IdSource {
    next: u64,
}

impl IdSource {
    /// The value the next issued identity will carry.
    pub closed spec fn next_val(self) -> u64 {
        self.next
    }

    /// Whether the source can still issue a fresh identity.
    pub open spec fn can_issue(self) -> bool {
        self.next_val() < u64::MAX
    }

    /// Whether the source can still issue a fresh identity, observably.
    pub fn has_capacity(&self) -> (b: bool)
        ensures
            b == self.can_issue(),
    {
        self.next < u64::MAX
    }

    /// A source that has issued no identity yet.
    pub fn new() -> (s: Self)
        ensures
            s.next_val() == 0,
    {
        IdSource { next: 0 }
    }

    /// Issues a fresh identity, distinct from every identity this source has
    /// issued before and from every identity it will issue later.
    pub fn fresh(&mut self) -> (id: ActorID)
        requires
            old(self).can_issue(),
        ensures
            id.value() == old(self).next_val(),
            final(self).next_val() == old(self).next_val() + 1,
    {
        let id = ActorID { id: self.next };
        self.next = self.next + 1;
        id
    }
}

/// Identities carrying different values are different identities; with
/// `fresh`, whose results carry strictly increasing values, no identity a
/// source issues is ever issued again.
pub proof fn lemma_fresh_ids_distinct(a: ActorID, b: ActorID)
    requires
        a.value() != b.value(),
    ensures
        a != b,
{
}

} // verus!
