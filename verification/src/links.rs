//! The link registry: which peers are notified when this actor terminates.
//!
//! Links are symmetric by convention - when two actors are linked, each one's
//! registry names the other - but each registry stores only its own actor's
//! view. Entries are added by an explicit link operation, and removed and
//! turned into notices exactly once, atomically with draining, when the actor
//! terminates, so every peer is notified exactly once.

use vstd::prelude::*;

verus! {

use crate::ids::ActorID;
use crate::reason::ActorStopReason;

/// A link-death notice owed to one peer: the peer to deliver to, the
/// terminated actor's identity, and its final stop reason.
#[derive(Debug)]
pub struct LinkNotice {
    /// The linked peer the notice is addressed to.
    pub peer: ActorID,
    /// The actor that terminated.
    pub origin: ActorID,
    /// The terminated actor's final stop reason.
    pub reason: ActorStopReason,
}

/// The set of linked peers of one actor, in link order, each at most once.
pub struct Links {
    peers: Vec<ActorID>,
}

impl View for Links {
    type V = Seq<ActorID>;

    closed spec fn view(&self) -> Seq<ActorID> {
        self.peers@
    }
}

impl Links {
    /// No peer is registered twice.
    pub open spec fn distinct(self) -> bool {
        forall|i: int, j: int| 0 <= i < j < self@.len() ==> (#[trigger] self@[i]) != (#[trigger] self@[j])
    }

    /// An empty registry.
    pub fn new() -> (l: Self)
        ensures
            l@ =~= Seq::<ActorID>::empty(),
            l.distinct(),
    {
        Links { peers: Vec::new() }
    }

    /// Whether the given peer is registered.
    pub fn contains_peer(&self, id: ActorID) -> (b: bool)
        ensures
            b == self@.contains(id),
    {
        let n = self.peers.len();
        let mut k: usize = 0;
        while k < n
            invariant
                n == self@.len(),
                k <= n,
                forall|i: int| 0 <= i < k ==> self@[i] != id,
            decreases n - k,
        {
            if self.peers[k] == id {
                assert(self@[k as int] == id);
                return true;
            }
            k = k + 1;
        }
        false
    }

    /// Registers a peer; registering an already-linked peer changes nothing.
    pub fn insert(&mut self, id: ActorID)
        requires
            old(self).distinct(),
        ensures
            final(self).distinct(),
            final(self)@ == (if old(self)@.contains(id) {
                old(self)@
            } else {
                old(self)@.push(id)
            }),
    {
        if !self.contains_peer(id) {
            proof {
                assert(forall|i: int| 0 <= i < self@.len() ==> self@[i] != id) by {
                    assert(forall|i: int| 0 <= i < self@.len() ==> self@.contains(#[trigger] self@[i]));
                }
            }
            self.peers.push(id);
        }
    }

    /// How many peers are registered.
    pub fn len(&self) -> (n: usize)
        ensures
            n == self@.len(),
    {
        self.peers.len()
    }

    /// Drains the registry into notices, one per registered peer in link
    /// order, each carrying the terminated actor's identity and final reason.
    /// The registry is empty afterwards, so no peer can be notified twice.
    pub(crate) fn drain(&mut self, origin: ActorID, reason: &ActorStopReason) -> (out: Vec<
        LinkNotice,
    >)
        ensures
            final(self)@ =~= Seq::<ActorID>::empty(),
            out@.len() == old(self)@.len(),
            forall|i: int|
                0 <= i < out@.len() ==> (#[trigger] out@[i]).peer == old(self)@[i] && out@[i].origin
                    == origin && out@[i].reason == *reason,
    {
        let ghost g0 = self@;
        let mut out: Vec<LinkNotice> = Vec::new();
        while self.peers.len() > 0
            invariant
                out@.len() + self@.len() == g0.len(),
                self@ =~= g0.subrange(out@.len() as int, g0.len() as int),
                forall|i: int|
                    0 <= i < out@.len() ==> (#[trigger] out@[i]).peer == g0[i] && out@[i].origin
                        == origin && out@[i].reason == *reason,
            decreases self@.len(),
        {
            let ghost k = out@.len() as int;
            let p = self.peers.remove(0);
            proof {
                assert(p == g0[k]);
                assert(self@ =~= g0.subrange(k + 1, g0.len() as int));
            }
            out.push(LinkNotice { peer: p, origin, reason: reason.clone() });
        }
        out
    }
}

} // verus!
