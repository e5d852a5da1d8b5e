//! Signals: the tagged union that flows through an actor's mailbox.

use vstd::prelude::*;

verus! {

use crate::ids::ActorID;
use crate::reason::ActorStopReason;

/// One entry in an actor's mailbox.
pub enum Signal<M> {
    /// Sentinel enqueued by the lifecycle machine itself once the startup
    /// hook has completed. Exactly one is ever produced per actor, and it is
    /// always the first signal dispatched by the steady-state loop.
    StartupFinished,
    /// An application message: an opaque payload, the sender's identity where
    /// one is known, the identity a reply should be addressed to where one is
    /// wanted, and whether the message originated within the actor itself.
    Message { payload: M, sender: Option<ActorID>, reply_to: Option<ActorID>, sent_within_actor: bool },
    /// A linked peer terminated with the given reason.
    LinkDied { peer: ActorID, reason: ActorStopReason },
    /// An explicit request to terminate. A drained mailbox with no senders
    /// left is treated identically.
    Stop,
}

/// Whether a signal is the startup sentinel.
pub open spec fn is_sentinel<M>(s: Signal<M>) -> bool {
    s is StartupFinished
}

/// No signal in the queue is the startup sentinel.
pub open spec fn sentinel_free<M>(q: Seq<Signal<M>>) -> bool {
    forall|i: int| 0 <= i < q.len() ==> !is_sentinel(#[trigger] q[i])
}

/// The startup sentinel occurs at the head of the queue, if anywhere.
pub open spec fn sentinel_only_at_head<M>(q: Seq<Signal<M>>) -> bool {
    forall|i: int| 1 <= i < q.len() ==> !is_sentinel(#[trigger] q[i])
}

} // verus!
