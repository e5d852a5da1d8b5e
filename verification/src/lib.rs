//! A verified actor-lifecycle runtime.
//!
//! The crate manages the full life of an independently owned unit of state
//! (an "actor"): preparation, startup, steady-state signal processing,
//! linked-failure propagation, and termination with a classified stop reason.
//! The lifecycle engine is synchronous and total: every run yields exactly one
//! [`reason::ActorStopReason`], records the observable lifecycle events in
//! order, and hands back one link-death notice per linked peer.

pub mod behavior;
pub mod gate;
pub mod handle;
pub mod ids;
pub mod lifecycle;
pub mod links;
pub mod mailbox;
pub mod prepared;
pub mod reason;
pub mod signal;

use vstd::prelude::*;

verus! {

use crate::behavior::Behavior;
use crate::handle::ActorRef;
use crate::ids::{ActorID, IdSource};
use crate::lifecycle::{lifecycle_post, RunOutcome};
use crate::prepared::{ConfigError, PreparedActor, WorkerTopology};

/// Prepares an actor without running it.
///
/// The actor is fully initialized - fresh identity, empty mailbox, empty link
/// set, an unreleased startup gate, and an unfired cancellation token - but
/// does not process any signal until it is explicitly run or spawned. The
/// returned [`PreparedActor`] can be interacted with (signals queued, links
/// added, cancellation fired) before execution begins.
pub fn prepare<A: Behavior>(actor: A, ids: &mut IdSource) -> (p: PreparedActor<A>)
    requires
        old(ids).can_issue(),
    ensures
        p.wf(),
        p.queued() =~= Seq::<crate::signal::Signal<A::Msg>>::empty(),
        p.linked() =~= Seq::<crate::ids::ActorID>::empty(),
        !p.cancel_fired(),
        !p.gate_released(),
        p.id_spec().value() == old(ids).next_val(),
        final(ids).next_val() == old(ids).next_val() + 1,
        p.actor_state() == actor,
{
    PreparedActor::new(actor, ids)
}

/// Prepares an actor whose value is produced by a factory that observes the
/// fully constructed handle first - for actors that capture a reference to
/// themselves. The handle is complete (identity, mailbox, links, gate,
/// cancellation) before the factory runs, though no signal has been sent.
pub fn prepare_with<A: Behavior, F: FnOnce(ActorRef) -> A>(f: F, ids: &mut IdSource) -> (p:
    PreparedActor<A>)
    requires
        old(ids).can_issue(),
        forall|r: ActorRef| #[trigger] call_requires(f, (r,)),
    ensures
        p.wf(),
        p.queued() =~= Seq::<crate::signal::Signal<A::Msg>>::empty(),
        p.linked() =~= Seq::<ActorID>::empty(),
        !p.cancel_fired(),
        !p.gate_released(),
        p.id_spec().value() == old(ids).next_val(),
        final(ids).next_val() == old(ids).next_val() + 1,
        call_ensures(f, (p.ref_spec(),), p.actor_state()),
{
    PreparedActor::new_with(f, ids)
}

/// Prepares an actor and runs its full lifecycle as the concurrent-task
/// strategy would, handing back the handle together with what the join
/// handle would yield: the terminal actor value and the one classified stop
/// reason.
pub fn spawn<A: Behavior>(actor: A, ids: &mut IdSource) -> (r: (ActorRef, RunOutcome<A>))
    requires
        old(ids).can_issue(),
    ensures
        r.0.id_spec().value() == old(ids).next_val(),
        final(ids).next_val() == old(ids).next_val() + 1,
        lifecycle_post(r.0, Seq::<ActorID>::empty(), false, r.1),
        r.1.notifications@.len() == 0,
{
    let prepared_actor = prepare(actor, ids);
    prepared_actor.spawn()
}

/// Prepares an actor and links it with the given peer, on both sides,
/// before it runs - so the peer cannot miss the link by racing the spawn -
/// and then runs it as `spawn` does. On steady-state termination, exactly
/// one link-death notice is owed to the peer, carrying this actor's
/// identity and final reason; the peer's own registry gains this actor.
pub fn spawn_link<A: Behavior, L: Behavior>(
    link_ref: &mut PreparedActor<L>,
    actor: A,
    ids: &mut IdSource,
) -> (r: (ActorRef, RunOutcome<A>))
    requires
        old(ids).can_issue(),
        old(link_ref).wf(),
    ensures
        r.0.id_spec().value() == old(ids).next_val(),
        final(ids).next_val() == old(ids).next_val() + 1,
        lifecycle_post(r.0, seq![old(link_ref).id_spec()], false, r.1),
        final(link_ref).wf(),
        final(link_ref).linked() == (if old(link_ref).linked().contains(r.0.id_spec()) {
            old(link_ref).linked()
        } else {
            old(link_ref).linked().push(r.0.id_spec())
        }),
        final(link_ref).queued() == old(link_ref).queued(),
        final(link_ref).cancel_fired() == old(link_ref).cancel_fired(),
        final(link_ref).ref_spec() == old(link_ref).ref_spec(),
        final(link_ref).actor_state() == old(link_ref).actor_state(),
{
    let peer_id = link_ref.actor_ref().id();
    let mut prepared_actor = prepare(actor, ids);
    prepared_actor.link(peer_id);
    link_ref.link(prepared_actor.actor_ref().id());
    proof {
        assert(prepared_actor.linked() =~= seq![old(link_ref).id_spec()]);
    }
    prepared_actor.spawn()
}

/// Prepares an actor through a factory that observes its own handle, then
/// runs it as `spawn` does.
pub fn spawn_with<A: Behavior, F: FnOnce(ActorRef) -> A>(f: F, ids: &mut IdSource) -> (r: (
    ActorRef,
    RunOutcome<A>,
))
    requires
        old(ids).can_issue(),
        forall|r: ActorRef| #[trigger] call_requires(f, (r,)),
    ensures
        r.0.id_spec().value() == old(ids).next_val(),
        final(ids).next_val() == old(ids).next_val() + 1,
        lifecycle_post(r.0, Seq::<ActorID>::empty(), false, r.1),
        exists|a0: A| call_ensures(f, (r.0,), a0),
{
    let prepared_actor = prepare_with(f, ids);
    prepared_actor.spawn()
}

/// Prepares an actor and runs it as the dedicated-thread strategy would: on
/// a single-worker environment this fails fast with a configuration error -
/// it never silently runs inline - and otherwise behaves like `spawn`.
pub fn spawn_in_thread<A: Behavior>(actor: A, ids: &mut IdSource, topology: WorkerTopology) -> (r:
    Result<(ActorRef, RunOutcome<A>), ConfigError>)
    requires
        old(ids).can_issue(),
    ensures
        r is Err <==> topology == WorkerTopology::SingleWorker,
        r matches Result::Ok(pair) ==> pair.0.id_spec().value() == old(ids).next_val()
            && lifecycle_post(pair.0, Seq::<ActorID>::empty(), false, pair.1),
        r matches Result::Err(e) ==> e == ConfigError::SingleWorkerRuntime,
        final(ids).next_val() == old(ids).next_val() + 1,
{
    let prepared_actor = prepare(actor, ids);
    prepared_actor.spawn_in_thread(topology)
}

} // verus!
