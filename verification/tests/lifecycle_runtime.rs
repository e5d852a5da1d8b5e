use kameo::behavior::{Behavior, SignalCtx, StartupCtx};
use kameo::handle::ActorRef;
use kameo::handle::WeakActorRef;
use kameo::ids::{ActorID, IdSource};
use kameo::lifecycle::Event;
use kameo::prepared::{ConfigError, WorkerTopology};
use kameo::reason::{ActorStopReason, LogSeverity, PanicError};
use kameo::{prepare, prepare_with, spawn, spawn_in_thread, spawn_link, spawn_with};

enum Msg {
    Increment,
}

/// A behavior that records every callback invocation, so tests can observe
/// exactly what the lifecycle machine did.
struct Probe {
    n: u64,
    fail_start: bool,
    fail_start_cause: Option<ActorStopReason>,
    kill_on_message: bool,
    self_send_on_start: bool,
    stop_with_link_died: bool,
    override_startup_reason: bool,
    accept_stops: bool,
    on_stop_fails: bool,
    veto_stops_remaining: u32,
    factory_id: Option<ActorID>,
    observed_id: Option<ActorID>,
    start_calls: u32,
    startup_finished_calls: u32,
    message_calls: u32,
    link_died_calls: u32,
    stop_calls: u32,
    shutdown_calls: u32,
    on_stop_calls: u32,
    on_stop_reason: Option<ActorStopReason>,
    dispatch_log: Vec<&'static str>,
    seen_within_flags: Vec<bool>,
    link_events: Vec<(ActorID, ActorStopReason)>,
}

fn probe() -> Probe {
    Probe {
        n: 0,
        fail_start: false,
        fail_start_cause: None,
        kill_on_message: false,
        self_send_on_start: false,
        stop_with_link_died: false,
        override_startup_reason: false,
        accept_stops: false,
        on_stop_fails: false,
        veto_stops_remaining: 0,
        factory_id: None,
        observed_id: None,
        start_calls: 0,
        startup_finished_calls: 0,
        message_calls: 0,
        link_died_calls: 0,
        stop_calls: 0,
        shutdown_calls: 0,
        on_stop_calls: 0,
        on_stop_reason: None,
        dispatch_log: Vec::new(),
        seen_within_flags: Vec::new(),
        link_events: Vec::new(),
    }
}

impl Behavior for Probe {
    type Msg = Msg;

    fn on_start(&mut self, actor_ref: &ActorRef, ctx: &mut StartupCtx<Msg>) -> Result<(), PanicError> {
        self.start_calls += 1;
        self.observed_id = Some(actor_ref.id());
        if self.self_send_on_start {
            ctx.send_to_self(Msg::Increment);
        }
        if self.fail_start {
            return Err(PanicError {
                msg: String::from("boom"),
                cause: self.fail_start_cause.take().map(Box::new),
            });
        }
        Ok(())
    }

    fn handle_startup_finished(&mut self, _ctx: &mut SignalCtx) -> Option<ActorStopReason> {
        self.startup_finished_calls += 1;
        self.dispatch_log.push("startup_finished");
        None
    }

    fn handle_message(
        &mut self,
        payload: Msg,
        _sender: Option<ActorID>,
        _reply_to: Option<ActorID>,
        sent_within_actor: bool,
        ctx: &mut SignalCtx,
    ) -> Option<ActorStopReason> {
        self.message_calls += 1;
        self.dispatch_log.push("message");
        self.seen_within_flags.push(sent_within_actor);
        match payload {
            Msg::Increment => self.n += 1,
        }
        if self.kill_on_message {
            ctx.kill();
        }
        None
    }

    fn handle_link_died(
        &mut self,
        peer: ActorID,
        reason: &ActorStopReason,
        _ctx: &mut SignalCtx,
    ) -> Option<ActorStopReason> {
        self.link_died_calls += 1;
        self.dispatch_log.push("link_died");
        self.link_events.push((peer, reason.clone()));
        if self.stop_with_link_died {
            Some(ActorStopReason::LinkDied { id: peer, reason: Box::new(reason.clone()) })
        } else {
            None
        }
    }

    fn handle_stop(&mut self, _ctx: &mut SignalCtx) -> Option<ActorStopReason> {
        self.stop_calls += 1;
        self.dispatch_log.push("stop");
        Some(ActorStopReason::Normal)
    }

    fn on_shutdown(&mut self, reason: &ActorStopReason) -> Option<ActorStopReason> {
        self.shutdown_calls += 1;
        if self.override_startup_reason {
            return Some(ActorStopReason::Normal);
        }
        if self.veto_stops_remaining > 0 {
            self.veto_stops_remaining -= 1;
            return None;
        }
        if self.accept_stops {
            Some(reason.clone())
        } else {
            None
        }
    }

    fn on_stop(&mut self, _actor_ref: &WeakActorRef, reason: &ActorStopReason) -> Result<
        (),
        String,
    > {
        self.on_stop_calls += 1;
        self.on_stop_reason = Some(reason.clone());
        if self.on_stop_fails {
            Err(String::from("cleanup failed"))
        } else {
            Ok(())
        }
    }
}

fn count_events(events: &[Event], wanted: Event) -> usize {
    events.iter().filter(|e| **e == wanted).count()
}

fn first_dispatch(events: &[Event]) -> Option<Event> {
    events
        .iter()
        .find(|e| {
            matches!(
                e,
                Event::StartupFinishedDispatched
                    | Event::MessageDispatched
                    | Event::LinkDiedDispatched
                    | Event::StopDispatched
            )
        })
        .copied()
}

#[test]
fn prepared_ids_are_distinct() {
    let mut ids = IdSource::new();
    let a = prepare(probe(), &mut ids);
    let b = prepare(probe(), &mut ids);
    assert_ne!(a.actor_ref().id(), b.actor_ref().id());
}

#[test]
fn round_trip_id_matches_on_start_observation() {
    let mut ids = IdSource::new();
    let prepared = prepare(probe(), &mut ids);
    let expected = prepared.actor_ref().id();
    let outcome = prepared.run();
    assert_eq!(outcome.actor.observed_id, Some(expected));
    assert_eq!(outcome.start_handle.id(), expected);
    assert_eq!(outcome.actor.start_calls, 1);
}

#[test]
fn counter_increments_message_sent_before_run() {
    let mut ids = IdSource::new();
    let mut prepared = prepare(probe(), &mut ids);
    prepared.tell(Msg::Increment, None, None);
    let outcome = prepared.run();
    assert_eq!(outcome.actor.n, 1);
    assert_eq!(outcome.reason, ActorStopReason::Normal);
    assert!(outcome.notifications.is_empty());
    assert!(outcome.gate_released);
    assert_eq!(outcome.startup_error, None);
}

#[test]
fn counter_stops_normally_via_explicit_stop() {
    let mut ids = IdSource::new();
    let mut actor = probe();
    actor.accept_stops = true;
    let mut prepared = prepare(actor, &mut ids);
    prepared.tell(Msg::Increment, None, None);
    prepared.signal_stop();
    let outcome = prepared.run();
    assert_eq!(outcome.actor.n, 1);
    assert_eq!(outcome.actor.stop_calls, 1);
    assert_eq!(outcome.reason, ActorStopReason::Normal);
}

#[test]
fn startup_failure_short_circuits() {
    let mut ids = IdSource::new();
    let mut actor = probe();
    actor.fail_start = true;
    let prepared = prepare(actor, &mut ids);
    let outcome = prepared.run();
    assert_eq!(
        outcome.reason,
        ActorStopReason::Panicked(PanicError { msg: String::from("boom"), cause: None })
    );
    assert_eq!(
        outcome.startup_error,
        Some(PanicError { msg: String::from("boom"), cause: None })
    );
    assert!(!outcome.startup_reason_overridden);
    assert_eq!(outcome.actor.startup_finished_calls, 0);
    assert_eq!(outcome.actor.message_calls, 0);
    assert_eq!(outcome.actor.link_died_calls, 0);
    assert_eq!(outcome.actor.stop_calls, 0);
    assert_eq!(outcome.actor.on_stop_calls, 1);
    assert!(outcome.notifications.is_empty());
    assert!(!outcome.gate_released);
    assert_eq!(
        outcome.events,
        vec![Event::StartCalled, Event::ShutdownConsulted, Event::StopHookCalled]
    );
    assert_eq!(outcome.actor.on_stop_reason.as_ref(), Some(&outcome.reason));
}

#[test]
fn startup_failure_reason_can_be_overridden() {
    let mut ids = IdSource::new();
    let mut actor = probe();
    actor.fail_start = true;
    actor.override_startup_reason = true;
    let outcome = prepare(actor, &mut ids).run();
    assert_eq!(outcome.reason, ActorStopReason::Normal);
    assert!(outcome.startup_reason_overridden);
    assert_eq!(
        outcome.startup_error,
        Some(PanicError { msg: String::from("boom"), cause: None })
    );
}

#[test]
fn thread_spawn_fails_fast_on_single_worker() {
    let mut ids = IdSource::new();
    let result = spawn_in_thread(probe(), &mut ids, WorkerTopology::SingleWorker);
    assert!(matches!(result, Err(ConfigError::SingleWorkerRuntime)));
}

#[test]
fn thread_spawn_runs_on_multi_worker() {
    let mut ids = IdSource::new();
    let result = spawn_in_thread(probe(), &mut ids, WorkerTopology::MultiWorker);
    match result {
        Ok((_actor_ref, outcome)) => {
            assert_eq!(outcome.reason, ActorStopReason::Normal);
            assert_eq!(outcome.actor.on_stop_calls, 1);
        }
        Err(_) => panic!("multi-worker thread spawn must not fail"),
    }
}

#[test]
fn cancellation_before_run_still_runs_startup() {
    let mut ids = IdSource::new();
    let mut prepared = prepare(probe(), &mut ids);
    prepared.tell(Msg::Increment, None, None);
    prepared.kill();
    let outcome = prepared.run();
    assert_eq!(outcome.reason, ActorStopReason::Killed);
    assert_eq!(outcome.actor.start_calls, 1);
    assert_eq!(outcome.actor.startup_finished_calls, 0);
    assert_eq!(outcome.actor.message_calls, 0);
    assert_eq!(outcome.actor.on_stop_calls, 1);
    assert!(!outcome.gate_released);
    assert_eq!(
        outcome.events,
        vec![Event::StartCalled, Event::CancellationObserved, Event::StopHookCalled]
    );
}

#[test]
fn cancellation_during_running_kills_and_stops_once() {
    let mut ids = IdSource::new();
    let mut actor = probe();
    actor.kill_on_message = true;
    let mut prepared = prepare(actor, &mut ids);
    prepared.tell(Msg::Increment, None, None);
    let outcome = prepared.run();
    assert_eq!(outcome.reason, ActorStopReason::Killed);
    assert_eq!(outcome.actor.message_calls, 1);
    assert_eq!(outcome.actor.on_stop_calls, 1);
    assert_eq!(count_events(&outcome.events, Event::MessageDispatched), 1);
    assert_eq!(count_events(&outcome.events, Event::CancellationObserved), 1);
    assert!(outcome.gate_released);
}

#[test]
fn kill_is_idempotent() {
    let mut ids = IdSource::new();
    let mut prepared = prepare(probe(), &mut ids);
    prepared.kill();
    prepared.kill();
    let outcome = prepared.run();
    assert_eq!(outcome.reason, ActorStopReason::Killed);
    assert_eq!(count_events(&outcome.events, Event::CancellationObserved), 1);
}

#[test]
fn first_dispatch_is_startup_finished() {
    let mut ids = IdSource::new();
    let mut prepared = prepare(probe(), &mut ids);
    prepared.tell(Msg::Increment, None, None);
    let outcome = prepared.run();
    assert_eq!(first_dispatch(&outcome.events), Some(Event::StartupFinishedDispatched));
    assert_eq!(outcome.actor.dispatch_log[0], "startup_finished");
    assert_eq!(outcome.actor.dispatch_log[1], "message");
    assert_eq!(count_events(&outcome.events, Event::StartupFinishedDispatched), 1);
}

#[test]
fn startup_self_sends_follow_sentinel_and_are_marked() {
    let mut ids = IdSource::new();
    let mut actor = probe();
    actor.self_send_on_start = true;
    let mut prepared = prepare(actor, &mut ids);
    prepared.tell(Msg::Increment, None, None);
    let outcome = prepared.run();
    assert_eq!(outcome.actor.n, 2);
    assert_eq!(outcome.actor.dispatch_log[0], "startup_finished");
    // the externally queued message, then the startup self-send
    assert_eq!(outcome.actor.seen_within_flags, vec![false, true]);
}

#[test]
fn linked_peer_notified_exactly_once() {
    let mut ids = IdSource::new();
    let mut a = prepare(probe(), &mut ids);
    let mut b_actor = probe();
    b_actor.stop_with_link_died = true;
    let mut b = prepare(b_actor, &mut ids);
    let a_id = a.actor_ref().id();
    let b_id = b.actor_ref().id();
    a.link(b_id);
    b.link(a_id);

    let outcome_a = a.run();
    assert_eq!(outcome_a.reason, ActorStopReason::Normal);
    assert_eq!(outcome_a.notifications.len(), 1);
    assert_eq!(outcome_a.notifications[0].peer, b_id);
    assert_eq!(outcome_a.notifications[0].origin, a_id);
    assert_eq!(outcome_a.notifications[0].reason, ActorStopReason::Normal);

    b.deliver(&outcome_a.notifications[0]);
    let outcome_b = b.run();
    assert_eq!(outcome_b.actor.link_died_calls, 1);
    assert_eq!(
        outcome_b.actor.link_events,
        vec![(a_id, ActorStopReason::Normal)]
    );
    assert_eq!(
        outcome_b.reason,
        ActorStopReason::LinkDied { id: a_id, reason: Box::new(ActorStopReason::Normal) }
    );
    // the peer of a terminated actor is itself owed exactly one notice
    assert_eq!(outcome_b.notifications.len(), 1);
    assert_eq!(outcome_b.notifications[0].peer, a_id);
}

#[test]
fn double_link_yields_single_notice() {
    let mut ids = IdSource::new();
    let mut a = prepare(probe(), &mut ids);
    let b = prepare(probe(), &mut ids);
    let b_id = b.actor_ref().id();
    a.link(b_id);
    a.link(b_id);
    let outcome = a.run();
    assert_eq!(outcome.notifications.len(), 1);
    assert_eq!(outcome.notifications[0].peer, b_id);
}

#[test]
fn spawn_link_owes_peer_a_notice_and_links_both_sides() {
    let mut ids = IdSource::new();
    let mut peer = prepare(probe(), &mut ids);
    let peer_id = peer.actor_ref().id();
    let (child_ref, outcome) = spawn_link(&mut peer, probe(), &mut ids);
    assert_ne!(child_ref.id(), peer_id);
    assert_eq!(outcome.notifications.len(), 1);
    assert_eq!(outcome.notifications[0].peer, peer_id);
    assert_eq!(outcome.notifications[0].origin, child_ref.id());
    assert_eq!(outcome.notifications[0].reason, outcome.reason);
    // the peer's own registry gained the child: when the peer terminates,
    // it owes the child a notice in turn
    let peer_outcome = peer.run();
    assert_eq!(peer_outcome.notifications.len(), 1);
    assert_eq!(peer_outcome.notifications[0].peer, child_ref.id());
}

#[test]
fn vetoed_stop_resumes_processing() {
    let mut ids = IdSource::new();
    let mut actor = probe();
    actor.veto_stops_remaining = 1;
    let mut prepared = prepare(actor, &mut ids);
    prepared.signal_stop();
    prepared.tell(Msg::Increment, None, None);
    let outcome = prepared.run();
    // the first stop was vetoed; the message behind it was still processed
    assert_eq!(outcome.actor.n, 1);
    assert_eq!(outcome.actor.stop_calls, 2);
    assert_eq!(outcome.actor.shutdown_calls, 2);
    assert_eq!(outcome.reason, ActorStopReason::Normal);
    assert_eq!(count_events(&outcome.events, Event::ShutdownConsulted), 2);
}

#[test]
fn exactly_one_stop_hook_and_reason() {
    let mut ids = IdSource::new();
    let mut failing = probe();
    failing.fail_start = true;
    let mut killed = prepare(probe(), &mut ids);
    killed.kill();
    let outcomes = vec![
        prepare(probe(), &mut ids).run(),
        prepare(failing, &mut ids).run(),
        killed.run(),
    ];
    for outcome in outcomes {
        assert_eq!(count_events(&outcome.events, Event::StopHookCalled), 1);
        assert_eq!(outcome.events.last(), Some(&Event::StopHookCalled));
        assert_eq!(count_events(&outcome.events, Event::StartCalled), 1);
        assert_eq!(outcome.events.first(), Some(&Event::StartCalled));
        assert_eq!(outcome.actor.on_stop_calls, 1);
        assert_eq!(outcome.actor.on_stop_reason.as_ref(), Some(&outcome.reason));
        match outcome.reason {
            ActorStopReason::Normal
            | ActorStopReason::Killed
            | ActorStopReason::Panicked(_)
            | ActorStopReason::LinkDied { .. } => {}
        }
    }
}

#[test]
fn stop_hook_failure_is_surfaced() {
    let mut ids = IdSource::new();
    let mut actor = probe();
    actor.on_stop_fails = true;
    let outcome = prepare(actor, &mut ids).run();
    assert_eq!(outcome.stop_hook_error, Some(String::from("cleanup failed")));
    assert_eq!(outcome.reason, ActorStopReason::Normal);
}

#[test]
fn gate_released_iff_sentinel_dispatched() {
    let mut ids = IdSource::new();

    let normal = prepare(probe(), &mut ids).run();
    assert!(normal.gate_released);
    assert_eq!(count_events(&normal.events, Event::StartupFinishedDispatched), 1);

    let mut failing = probe();
    failing.fail_start = true;
    let failed = prepare(failing, &mut ids).run();
    assert!(!failed.gate_released);
    assert_eq!(count_events(&failed.events, Event::StartupFinishedDispatched), 0);

    let mut cancelled = prepare(probe(), &mut ids);
    cancelled.kill();
    let killed = cancelled.run();
    assert!(!killed.gate_released);
    assert_eq!(count_events(&killed.events, Event::StartupFinishedDispatched), 0);
}

#[test]
fn prepare_with_factory_observes_handle() {
    let mut ids = IdSource::new();
    let prepared = prepare_with(
        |actor_ref: ActorRef| {
            let mut actor = probe();
            actor.factory_id = Some(actor_ref.id());
            actor
        },
        &mut ids,
    );
    let expected = prepared.actor_ref().id();
    let outcome = prepared.run();
    assert_eq!(outcome.actor.factory_id, Some(expected));
    assert_eq!(outcome.actor.observed_id, Some(expected));
}

#[test]
fn spawn_with_factory_observes_handle() {
    let mut ids = IdSource::new();
    let (actor_ref, outcome) = spawn_with(
        |r: ActorRef| {
            let mut actor = probe();
            actor.factory_id = Some(r.id());
            actor
        },
        &mut ids,
    );
    assert_eq!(outcome.actor.factory_id, Some(actor_ref.id()));
    assert_eq!(outcome.reason, ActorStopReason::Normal);
}

#[test]
fn spawn_runs_to_normal_completion() {
    let mut ids = IdSource::new();
    let (actor_ref, outcome) = spawn(probe(), &mut ids);
    assert_eq!(outcome.actor.observed_id, Some(actor_ref.id()));
    assert_eq!(outcome.reason, ActorStopReason::Normal);
    assert!(outcome.notifications.is_empty());
}

#[test]
fn log_severity_classifies_panics_as_errors() {
    let mut ids = IdSource::new();
    let id = prepare(probe(), &mut ids).actor_ref().id();
    assert_eq!(
        kameo::reason::log_actor_stop_reason(id, "probe", &ActorStopReason::Normal),
        LogSeverity::Trace
    );
    assert_eq!(
        kameo::reason::log_actor_stop_reason(id, "probe", &ActorStopReason::Killed),
        LogSeverity::Trace
    );
    assert_eq!(
        kameo::reason::log_actor_stop_reason(
            id,
            "probe",
            &ActorStopReason::LinkDied {
                id,
                reason: Box::new(ActorStopReason::Normal)
            }
        ),
        LogSeverity::Trace
    );
    assert_eq!(
        kameo::reason::log_actor_stop_reason(
            id,
            "probe",
            &ActorStopReason::Panicked(PanicError { msg: String::from("x"), cause: None })
        ),
        LogSeverity::Error
    );
}

#[test]
fn downgrade_preserves_identity() {
    let mut ids = IdSource::new();
    let prepared = prepare(probe(), &mut ids);
    let strong = *prepared.actor_ref();
    let weak = strong.downgrade();
    assert_eq!(weak.id(), strong.id());
}

#[test]
fn panic_payload_structure_is_preserved() {
    let inner = ActorStopReason::Panicked(PanicError { msg: String::from("deep"), cause: None });
    let outer = ActorStopReason::Panicked(PanicError {
        msg: String::from("carried"),
        cause: Some(Box::new(inner.clone())),
    });
    let copy = outer.clone();
    assert_eq!(copy, outer);
    match copy {
        ActorStopReason::Panicked(e) => {
            assert_eq!(e.msg, "carried");
            assert_eq!(*e.cause.unwrap(), inner);
        }
        _ => panic!("clone changed the classification"),
    }
}

#[test]
fn mailbox_reports_queue_length() {
    let mut mailbox: kameo::mailbox::Mailbox<Msg> = kameo::mailbox::Mailbox::new();
    assert!(mailbox.is_empty());
    assert_eq!(mailbox.len(), 0);
    mailbox.send(kameo::signal::Signal::Stop);
    mailbox.send(kameo::signal::Signal::Message {
        payload: Msg::Increment,
        sender: None,
        reply_to: None,
        sent_within_actor: false,
    });
    assert!(!mailbox.is_empty());
    assert_eq!(mailbox.len(), 2);
}

#[test]
fn control_primitives_start_unset_and_cancel_is_idempotent() {
    let unreleased = kameo::gate::StartupGate::new();
    assert!(!unreleased.is_released());
    let mut token = kameo::gate::CancelToken::new();
    assert!(!token.is_fired());
    token.fire();
    token.fire();
    assert!(token.is_fired());
}

#[test]
fn links_report_registered_peers() {
    let mut ids = IdSource::new();
    let a = ids.fresh();
    let b = ids.fresh();
    let mut links = kameo::links::Links::new();
    assert_eq!(links.len(), 0);
    links.insert(a);
    links.insert(b);
    links.insert(a);
    assert_eq!(links.len(), 2);
    assert!(links.contains_peer(a));
    assert!(links.contains_peer(b));
    assert!(!links.contains_peer(ids.fresh()));
}

#[test]
fn startup_failure_preserves_carried_stop_reason() {
    let mut ids = IdSource::new();
    let mut actor = probe();
    actor.fail_start = true;
    actor.fail_start_cause = Some(ActorStopReason::Killed);
    let outcome = prepare(actor, &mut ids).run();
    match outcome.reason {
        ActorStopReason::Panicked(e) => {
            assert_eq!(e.msg, "boom");
            assert_eq!(e.cause.as_deref(), Some(&ActorStopReason::Killed));
        }
        _ => panic!("startup failure must classify as Panicked"),
    }
}
