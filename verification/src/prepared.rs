//! A prepared actor: fully initialized, interactable, but not yet running.
//!
//! A `PreparedActor` exclusively owns the not-yet-running actor state, its
//! handle, the mailbox, the link registry, the startup gate, and the
//! cancellation token. It is consumed exactly once, by running it or by one
//! of the spawn strategies; it is never cloned.

use vstd::prelude::*;

verus! {

use crate::behavior::Behavior;
use crate::gate::{CancelToken, StartupGate};
use crate::handle::ActorRef;
use crate::ids::{ActorID, IdSource};
use crate::lifecycle::{lifecycle_post, run_actor_lifecycle, RunOutcome};
use crate::links::{LinkNotice, Links};
use crate::mailbox::Mailbox;
use crate::reason::ActorStopReason;
use crate::signal::{sentinel_free, Signal};

/// How many operating-system workers the surrounding execution environment
/// offers. A dedicated-thread spawn needs more than one.
#[derive(Clone, Copy, PartialEq, Eq, Structural, Debug)]
pub enum WorkerTopology {
    /// A single worker drives everything; blocking a dedicated thread on it
    /// would starve every co-scheduled actor.
    SingleWorker,
    /// Multiple workers are available.
    MultiWorker,
}

/// A fatal configuration error: the requested execution strategy cannot be
/// honoured by the surrounding environment. Misconfiguration, not a runtime
/// fault, and surfaced loudly rather than silently degraded.
#[derive(Clone, Copy, PartialEq, Eq, Structural, Debug)]
pub enum ConfigError {
    /// A dedicated-thread spawn was requested on a single-worker environment.
    SingleWorkerRuntime,
}

/// An actor that has been initialized and can be interacted with - signals
/// queued, links registered, cancellation fired - before it runs.
pub struct PreparedActor<A: Behavior> {
    actor: A,
    actor_ref: ActorRef,
    mailbox: Mailbox<A::Msg>,
    links: Links,
    gate: StartupGate,
    cancel: CancelToken,
}

impl<A: Behavior> PreparedActor<A> {
    /// The signals queued so far, in delivery order.
    pub closed spec fn queued(self) -> Seq<Signal<A::Msg>> {
        self.mailbox@
    }

    /// The linked peers registered so far, in link order.
    pub closed spec fn linked(self) -> Seq<ActorID> {
        self.links@
    }

    /// Whether the cancellation token has been fired.
    pub closed spec fn cancel_fired(self) -> bool {
        self.cancel.fired()
    }

    /// Whether the startup gate has been released. Never, before running.
    pub closed spec fn gate_released(self) -> bool {
        self.gate.released()
    }

    /// The handle bound into this prepared actor.
    pub closed spec fn ref_spec(self) -> ActorRef {
        self.actor_ref
    }

    /// The identity allocated to this actor.
    pub open spec fn id_spec(self) -> ActorID {
        self.ref_spec().id_spec()
    }

    /// The raw actor state, not yet running.
    pub closed spec fn actor_state(self) -> A {
        self.actor
    }

    /// The prepared actor's internal discipline: the startup sentinel is not
    /// yet queued, no startup waiter may proceed yet, and no peer is linked
    /// twice.
    pub closed spec fn wf(self) -> bool {
        &&& sentinel_free(self.mailbox@)
        &&& !self.gate.released()
        &&& self.links.distinct()
    }

    /// Allocates a fresh identity, constructs the empty mailbox, the empty
    /// link registry, the zero-permit gate, and the unfired cancellation
    /// token, and binds them into a handle alongside the raw actor state.
    /// Purely synchronous: nothing is scheduled and no signal is sent.
    pub(crate) fn new(actor: A, ids: &mut IdSource) -> (p: Self)
        requires
            old(ids).can_issue(),
        ensures
            p.wf(),
            p.queued() =~= Seq::<Signal<A::Msg>>::empty(),
            p.linked() =~= Seq::<ActorID>::empty(),
            !p.cancel_fired(),
            !p.gate_released(),
            p.id_spec().value() == old(ids).next_val(),
            final(ids).next_val() == old(ids).next_val() + 1,
            p.actor_state() == actor,
    {
        let id = ids.fresh();
        PreparedActor {
            actor,
            actor_ref: ActorRef::new(id),
            mailbox: Mailbox::new(),
            links: Links::new(),
            gate: StartupGate::new(),
            cancel: CancelToken::new(),
        }
    }

    /// Like `new`, but the actor value is produced by a factory that observes
    /// the fully constructed handle first - for actors that capture a
    /// reference to themselves.
    pub(crate) fn new_with<F: FnOnce(ActorRef) -> A>(f: F, ids: &mut IdSource) -> (p: Self)
        requires
            old(ids).can_issue(),
            forall|r: ActorRef| #[trigger] call_requires(f, (r,)),
        ensures
            p.wf(),
            p.queued() =~= Seq::<Signal<A::Msg>>::empty(),
            p.linked() =~= Seq::<ActorID>::empty(),
            !p.cancel_fired(),
            !p.gate_released(),
            p.id_spec().value() == old(ids).next_val(),
            final(ids).next_val() == old(ids).next_val() + 1,
            call_ensures(f, (p.ref_spec(),), p.actor_state()),
    {
        let id = ids.fresh();
        let actor_ref = ActorRef::new(id);
        let actor = f(actor_ref);
        PreparedActor {
            actor,
            actor_ref,
            mailbox: Mailbox::new(),
            links: Links::new(),
            gate: StartupGate::new(),
            cancel: CancelToken::new(),
        }
    }

    /// The handle through which this actor is addressed. Usable before the
    /// actor runs; its identity never changes.
    pub fn actor_ref(&self) -> (r: &ActorRef)
        ensures
            *r == self.ref_spec(),
    {
        &self.actor_ref
    }

    /// Queues an application message behind everything already queued.
    pub fn tell(&mut self, payload: A::Msg, sender: Option<ActorID>, reply_to: Option<ActorID>)
        requires
            old(self).wf(),
        ensures
            final(self).wf(),
            final(self).queued() == old(self).queued().push(
                (Signal::Message { payload, sender, reply_to, sent_within_actor: false }),
            ),
            final(self).linked() == old(self).linked(),
            final(self).cancel_fired() == old(self).cancel_fired(),
            final(self).ref_spec() == old(self).ref_spec(),
            final(self).actor_state() == old(self).actor_state(),
    {
        self.mailbox.send(
            Signal::Message { payload, sender, reply_to, sent_within_actor: false },
        );
    }

    /// Queues an explicit stop request.
    pub fn signal_stop(&mut self)
        requires
            old(self).wf(),
        ensures
            final(self).wf(),
            final(self).queued() == old(self).queued().push(Signal::Stop),
            final(self).linked() == old(self).linked(),
            final(self).cancel_fired() == old(self).cancel_fired(),
            final(self).ref_spec() == old(self).ref_spec(),
            final(self).actor_state() == old(self).actor_state(),
    {
        self.mailbox.send(Signal::Stop);
    }

    /// Queues a link-death signal: the given peer terminated with the given
    /// reason.
    pub fn signal_link_died(&mut self, peer: ActorID, reason: ActorStopReason)
        requires
            old(self).wf(),
        ensures
            final(self).wf(),
            final(self).queued() == old(self).queued().push((Signal::LinkDied { peer, reason })),
            final(self).linked() == old(self).linked(),
            final(self).cancel_fired() == old(self).cancel_fired(),
            final(self).ref_spec() == old(self).ref_spec(),
            final(self).actor_state() == old(self).actor_state(),
    {
        self.mailbox.send(Signal::LinkDied { peer, reason });
    }

    /// Delivers a link-death notice addressed to this actor.
    pub fn deliver(&mut self, notice: &LinkNotice)
        requires
            old(self).wf(),
            notice.peer == old(self).id_spec(),
        ensures
            final(self).wf(),
            final(self).queued() == old(self).queued().push(
                (Signal::LinkDied { peer: notice.origin, reason: notice.reason }),
            ),
            final(self).linked() == old(self).linked(),
            final(self).cancel_fired() == old(self).cancel_fired(),
            final(self).ref_spec() == old(self).ref_spec(),
            final(self).actor_state() == old(self).actor_state(),
    {
        self.mailbox.send(Signal::LinkDied { peer: notice.origin, reason: notice.reason.clone() });
    }

    /// Fires the cancellation token. Idempotent. Fired before the actor
    /// runs, it does not prevent startup: the startup hook still completes,
    /// and the running phase then terminates with a `Killed` classification.
    pub fn kill(&mut self)
        requires
            old(self).wf(),
        ensures
            final(self).wf(),
            final(self).cancel_fired(),
            final(self).queued() == old(self).queued(),
            final(self).linked() == old(self).linked(),
            final(self).ref_spec() == old(self).ref_spec(),
            final(self).actor_state() == old(self).actor_state(),
    {
        self.cancel.fire();
    }

    /// Registers a linked peer; linking the same peer twice changes nothing.
    /// Symmetric linking is by convention: the caller registers each side.
    pub fn link(&mut self, peer: ActorID)
        requires
            old(self).wf(),
        ensures
            final(self).wf(),
            final(self).linked() == (if old(self).linked().contains(peer) {
                old(self).linked()
            } else {
                old(self).linked().push(peer)
            }),
            final(self).queued() == old(self).queued(),
            final(self).cancel_fired() == old(self).cancel_fired(),
            final(self).ref_spec() == old(self).ref_spec(),
            final(self).actor_state() == old(self).actor_state(),
    {
        self.links.insert(peer);
    }

    /// Runs the actor in the caller's own context, without spawning, until
    /// it stops: the full lifecycle, yielding the terminal actor value, the
    /// one classified stop reason, the notices owed to linked peers, and the
    /// ordered event trace. Signals queued before this call are processed
    /// after the startup sentinel.
    pub fn run(self) -> (out: RunOutcome<A>)
        requires
            self.wf(),
        ensures
            lifecycle_post(self.ref_spec(), self.linked(), self.cancel_fired(), out),
    {
        let PreparedActor { actor, actor_ref, mailbox, links, gate, cancel } = self;
        run_actor_lifecycle(actor, actor_ref, mailbox, links, gate, cancel)
    }

    /// Runs the actor to completion as a background strategy would, handing
    /// back the handle together with what the execution handle would yield.
    pub fn spawn(self) -> (r: (ActorRef, RunOutcome<A>))
        requires
            self.wf(),
        ensures
            r.0 == self.ref_spec(),
            lifecycle_post(self.ref_spec(), self.linked(), self.cancel_fired(), r.1),
    {
        let aref = *self.actor_ref();
        let out = self.run();
        (aref, out)
    }

    /// Runs the actor as a dedicated-thread strategy would: on a
    /// single-worker environment this is a fatal configuration error,
    /// surfaced loudly and without running anything; otherwise it behaves
    /// like `spawn`.
    pub fn spawn_in_thread(self, topology: WorkerTopology) -> (r: Result<
        (ActorRef, RunOutcome<A>),
        ConfigError,
    >)
        requires
            self.wf(),
        ensures
            r is Err <==> topology == WorkerTopology::SingleWorker,
            r matches Result::Ok(pair) ==> pair.0 == self.ref_spec() && lifecycle_post(
                self.ref_spec(),
                self.linked(),
                self.cancel_fired(),
                pair.1,
            ),
            r matches Result::Err(e) ==> e == ConfigError::SingleWorkerRuntime,
    {
        match topology {
            WorkerTopology::SingleWorker => Result::Err(ConfigError::SingleWorkerRuntime),
            WorkerTopology::MultiWorker => Result::Ok(self.spawn()),
        }
    }
}

} // verus!
