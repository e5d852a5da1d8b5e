//! The behavior contract: the callbacks through which the lifecycle machine
//! drives a user-supplied state machine.
//!
//! The engine makes no assumption about what a callback decides; its own
//! guarantees hold for every possible return value. Abnormal termination of a
//! callback is conveyed as data - an error value re-entering the normal
//! control flow - which is how the host loop contains failures of untrusted
//! state-machine code.

use vstd::prelude::*;

verus! {

use crate::handle::{ActorRef, WeakActorRef};
use crate::ids::ActorID;
use crate::reason::{ActorStopReason, PanicError};

/// Capabilities a behavior holds while its startup hook runs: it may address
/// messages to itself - queued behind the startup sentinel, so they are never
/// lost ahead of the waiters' release - and it may request its own
/// cancellation.
pub struct StartupCtx<M> {
    msgs: Vec<M>,
    kill: bool,
}

impl<M> StartupCtx<M> {
    /// The payloads the behavior has addressed to itself, in send order.
    pub closed spec fn queued_msgs(self) -> Seq<M> {
        self.msgs@
    }

    /// Whether the behavior has requested its own cancellation.
    pub closed spec fn kill_requested(self) -> bool {
        self.kill
    }

    pub(crate) fn new() -> (c: Self)
        ensures
            c.queued_msgs() =~= Seq::<M>::empty(),
            !c.kill_requested(),
    {
        StartupCtx { msgs: Vec::new(), kill: false }
    }

    /// Addresses a message to the actor itself. It is enqueued, marked as
    /// originated within the actor, once the startup hook returns.
    pub fn send_to_self(&mut self, payload: M)
        ensures
            final(self).queued_msgs() == old(self).queued_msgs().push(payload),
            final(self).kill_requested() == old(self).kill_requested(),
    {
        self.msgs.push(payload);
    }

    /// Requests the actor's own cancellation. Observed at the running loop's
    /// first suspension point, yielding a `Killed` classification.
    pub fn kill(&mut self)
        ensures
            final(self).kill_requested(),
            final(self).queued_msgs() == old(self).queued_msgs(),
    {
        self.kill = true;
    }

    pub(crate) fn into_parts(self) -> (r: (Vec<M>, bool))
        ensures
            r.0@ == self.queued_msgs(),
            r.1 == self.kill_requested(),
    {
        (self.msgs, self.kill)
    }
}

/// Capabilities a behavior holds while handling a steady-state signal: it may
/// request its own cancellation, observed at the loop's next suspension
/// point.
pub struct SignalCtx {
    kill: bool,
}

impl SignalCtx {
    /// Whether the behavior has requested its own cancellation.
    pub closed spec fn kill_requested(self) -> bool {
        self.kill
    }

    pub(crate) fn new() -> (c: Self)
        ensures
            !c.kill_requested(),
    {
        SignalCtx { kill: false }
    }

    /// Requests the actor's own cancellation. Observed at the running loop's
    /// next suspension point, yielding a `Killed` classification.
    pub fn kill(&mut self)
        ensures
            final(self).kill_requested(),
    {
        self.kill = true;
    }

    pub(crate) fn take(self) -> (b: bool)
        ensures
            b == self.kill_requested(),
    {
        self.kill
    }
}

/// The contract a user-defined actor implements so the lifecycle machine can
/// start it, feed it signals, and shut it down. A handler that returns no
/// reason continues; one that returns a reason proposes to stop with it.
pub trait Behavior: Sized {
    /// The opaque application message payload.
    type Msg;

    /// The startup hook, invoked once with a strong handle to the actor
    /// itself, before any signal is dispatched. An error here is classified
    /// `Panicked`, its structure preserved, and short-circuits the
    /// lifecycle: the steady-state loop is never entered.
    fn on_start(&mut self, actor_ref: &ActorRef, ctx: &mut StartupCtx<Self::Msg>) -> Result<
        (),
        PanicError,
    >;

    /// Dispatched for the startup sentinel, once every waiter may proceed.
    fn handle_startup_finished(&mut self, ctx: &mut SignalCtx) -> Option<ActorStopReason>;

    /// Dispatched for an application message.
    fn handle_message(
        &mut self,
        payload: Self::Msg,
        sender: Option<ActorID>,
        reply_to: Option<ActorID>,
        sent_within_actor: bool,
        ctx: &mut SignalCtx,
    ) -> Option<ActorStopReason>;

    /// Dispatched when a linked peer terminates. Delivered as information:
    /// the behavior decides whether to treat it as a stop condition.
    fn handle_link_died(
        &mut self,
        peer: ActorID,
        reason: &ActorStopReason,
        ctx: &mut SignalCtx,
    ) -> Option<ActorStopReason>;

    /// Dispatched for an explicit stop request, and likewise when the mailbox
    /// is drained with no sender left.
    fn handle_stop(&mut self, ctx: &mut SignalCtx) -> Option<ActorStopReason>;

    /// The shutdown intercept: offered every reason a handler proposed.
    /// Returning a reason accepts (or replaces) it as final; returning none
    /// vetoes the stop and resumes the running loop.
    fn on_shutdown(&mut self, reason: &ActorStopReason) -> Option<ActorStopReason>;

    /// The termination hook, invoked exactly once with the final reason after
    /// the raw actor value has been recovered. Its own failure is surfaced to
    /// whoever ran the actor, not separately contained.
    fn on_stop(&mut self, actor_ref: &WeakActorRef, reason: &ActorStopReason) -> Result<
        (),
        String,
    >;
}

} // verus!
