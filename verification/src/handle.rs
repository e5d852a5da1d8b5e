//! Addressing handles: strong and weak references to an actor's identity.
//!
//! In this engine a handle is a pure addressing token. Cloning or copying a
//! handle never clones actor state; all actor state stays exclusively owned by
//! the single context that runs the lifecycle. The strong form counts toward
//! keeping the actor externally referenced; the weak form carries the same
//! addressing capability without doing so, and is what the lifecycle machine
//! holds once the actor is past startup so that it does not keep itself alive
//! through a self-referential cycle.

use vstd::prelude::*;

verus! {

use crate::ids::ActorID;

/// A strong reference to a prepared-or-running actor.
#[derive(Clone, Copy, PartialEq, Eq, Structural, Debug)]
pub struct ActorRef {
    id: ActorID,
}

/// A weak reference: the same addressing capability as [`ActorRef`], but it
/// does not by itself keep the actor externally referenced.
#[derive(Clone, Copy, PartialEq, Eq, Structural, Debug)]
pub struct WeakActorRef {
    id: ActorID,
}

impl ActorRef {
    /// The identity this handle addresses, for specification purposes.
    pub closed spec fn id_spec(self) -> ActorID {
        self.id
    }

    pub(crate) fn new(id: ActorID) -> (r: Self)
        ensures
            r.id_spec() == id,
    {
        ActorRef { id }
    }

    /// The identity of the actor this handle addresses.
    pub fn id(&self) -> (id: ActorID)
        ensures
            id == self.id_spec(),
    {
        self.id
    }

    /// Downgrades to a weak reference. A pure data operation: no signal is
    /// sent and no resource is released; the identity is preserved.
    pub fn downgrade(&self) -> (w: WeakActorRef)
        ensures
            w.id_spec() == self.id_spec(),
    {
        WeakActorRef { id: self.id }
    }
}

impl WeakActorRef {
    /// The identity this handle addresses, for specification purposes.
    pub closed spec fn id_spec(self) -> ActorID {
        self.id
    }

    /// The identity of the actor this handle addresses.
    pub fn id(&self) -> (id: ActorID)
        ensures
            id == self.id_spec(),
    {
        self.id
    }
}

} // verus!
