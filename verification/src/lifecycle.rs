//! The lifecycle state machine: startup, the steady-state dispatch loop, the
//! shutdown intercept, link notification, and stop-reason classification.
//!
//! Every run records the externally observable lifecycle events in order.
//! The contracts over that trace pin down the engine's guarantees: the
//! startup hook is called exactly once and first; the startup sentinel is
//! the first signal ever dispatched and the only one of its kind; startup
//! waiters are let through exactly once, when the sentinel is dispatched;
//! an observed cancellation classifies the run as `Killed`; and the
//! termination hook runs exactly once, last, on every path.

use vstd::prelude::*;

verus! {

use crate::behavior::{Behavior, SignalCtx, StartupCtx};
use crate::gate::{CancelToken, StartupGate};
use crate::handle::ActorRef;
use crate::ids::ActorID;
use crate::links::{LinkNotice, Links};
use crate::mailbox::Mailbox;
use crate::reason::{ActorStopReason, PanicError};
use crate::signal::{is_sentinel, sentinel_free, sentinel_only_at_head, Signal};

/// One externally observable lifecycle event.
#[derive(Clone, Copy, PartialEq, Eq, Structural, Debug)]
pub enum Event {
    /// The startup hook was invoked.
    StartCalled,
    /// The startup sentinel was taken from the mailbox for dispatch.
    /// Startup waiters are let through at exactly this point, exactly once.
    StartupFinishedDispatched,
    /// An application message was dispatched.
    MessageDispatched,
    /// A link-death signal was dispatched.
    LinkDiedDispatched,
    /// A stop request (explicit, or the drained mailbox) was dispatched.
    StopDispatched,
    /// The cancellation token was observed at a suspension point.
    CancellationObserved,
    /// The shutdown intercept was offered a proposed reason.
    ShutdownConsulted,
    /// The termination hook was invoked.
    StopHookCalled,
}

/// Whether an event records a signal being dispatched to a handler.
pub open spec fn is_dispatch(e: Event) -> bool {
    ||| e == Event::StartupFinishedDispatched
    ||| e == Event::MessageDispatched
    ||| e == Event::LinkDiedDispatched
    ||| e == Event::StopDispatched
}

/// Events the inner receive loop may record.
pub open spec fn loop_event(e: Event) -> bool {
    is_dispatch(e) || e == Event::CancellationObserved
}

/// Events the steady-state (outer) loop may record.
pub open spec fn steady_event(e: Event) -> bool {
    loop_event(e) || e == Event::ShutdownConsulted
}

/// The trace contains a sentinel dispatch.
pub open spec fn has_sentinel_dispatch(t: Seq<Event>) -> bool {
    exists|i: int| 0 <= i < t.len() && t[i] == Event::StartupFinishedDispatched
}

/// The trace contains an observed cancellation.
pub open spec fn has_cancel(t: Seq<Event>) -> bool {
    exists|i: int| 0 <= i < t.len() && t[i] == Event::CancellationObserved
}

/// No signal was ever dispatched.
pub open spec fn no_dispatches(t: Seq<Event>) -> bool {
    forall|i: int| 0 <= i < t.len() ==> !is_dispatch(#[trigger] t[i])
}

/// No signal at all is dispatched strictly before the sentinel dispatch.
pub open spec fn no_dispatch_before_sentinel(t: Seq<Event>) -> bool {
    forall|i: int, j: int|
        0 <= i < j < t.len() && (#[trigger] t[j]) == Event::StartupFinishedDispatched
            ==> !is_dispatch(#[trigger] t[i])
}

/// If anything was dispatched at all, the sentinel was dispatched.
pub open spec fn dispatch_implies_sentinel(t: Seq<Event>) -> bool {
    no_dispatches(t) || has_sentinel_dispatch(t)
}

/// The sentinel is dispatched at most once.
pub open spec fn sentinel_dispatch_unique(t: Seq<Event>) -> bool {
    forall|i: int, j: int|
        0 <= i < t.len() && 0 <= j < t.len() && (#[trigger] t[i])
            == Event::StartupFinishedDispatched && (#[trigger] t[j])
            == Event::StartupFinishedDispatched ==> i == j
}

/// Cancellation is observed at most once.
pub open spec fn cancel_unique(t: Seq<Event>) -> bool {
    forall|i: int, j: int|
        0 <= i < t.len() && 0 <= j < t.len() && (#[trigger] t[i]) == Event::CancellationObserved
            && (#[trigger] t[j]) == Event::CancellationObserved ==> i == j
}

/// The ordering discipline every reachable trace obeys.
pub open spec fn trace_wf(t: Seq<Event>) -> bool {
    &&& no_dispatch_before_sentinel(t)
    &&& dispatch_implies_sentinel(t)
    &&& sentinel_dispatch_unique(t)
    &&& cancel_unique(t)
}

/// A completed run's trace: the startup hook ran exactly once and first, the
/// termination hook ran exactly once and last, and the dispatch ordering
/// discipline held throughout.
pub open spec fn lifecycle_trace_ok(t: Seq<Event>) -> bool {
    &&& t.len() >= 2
    &&& t[0] == Event::StartCalled
    &&& forall|i: int| 1 <= i < t.len() ==> (#[trigger] t[i]) != Event::StartCalled
    &&& t[t.len() - 1] == Event::StopHookCalled
    &&& forall|i: int| 0 <= i < t.len() - 1 ==> (#[trigger] t[i]) != Event::StopHookCalled
    &&& trace_wf(t)
}

/// One trace is an extension of another.
pub open spec fn extends(t: Seq<Event>, t0: Seq<Event>) -> bool {
    t0.len() <= t.len() && forall|i: int| 0 <= i < t0.len() ==> (#[trigger] t[i]) == t0[i]
}

/// The event that records the dispatch of a signal of this kind.
pub open spec fn dispatch_event_of<M>(s: Signal<M>) -> Event {
    match s {
        Signal::StartupFinished => Event::StartupFinishedDispatched,
        Signal::Message { .. } => Event::MessageDispatched,
        Signal::LinkDied { .. } => Event::LinkDiedDispatched,
        Signal::Stop => Event::StopDispatched,
    }
}

/// The dispatch events recorded for a queue of signals, in queue order.
pub open spec fn dispatch_events_of<M>(q: Seq<Signal<M>>) -> Seq<Event> {
    q.map_values(|s: Signal<M>| dispatch_event_of(s))
}

pub proof fn lemma_dispatch_events_take_succ<M>(q: Seq<Signal<M>>, k: int)
    requires
        0 <= k < q.len(),
    ensures
        dispatch_events_of(q.take(k + 1)) =~= dispatch_events_of(q.take(k)).push(
            dispatch_event_of(q[k]),
        ),
{
}

pub proof fn lemma_has_sentinel_dispatch_push(t: Seq<Event>, e: Event)
    ensures
        has_sentinel_dispatch(t.push(e)) == (has_sentinel_dispatch(t) || e
            == Event::StartupFinishedDispatched),
{
    if has_sentinel_dispatch(t) {
        let i = choose|i: int| 0 <= i < t.len() && t[i] == Event::StartupFinishedDispatched;
        assert(t.push(e)[i] == Event::StartupFinishedDispatched);
    }
    if e == Event::StartupFinishedDispatched {
        assert(t.push(e)[t.len() as int] == e);
    }
    if has_sentinel_dispatch(t.push(e)) && e != Event::StartupFinishedDispatched {
        let i = choose|i: int|
            0 <= i < t.push(e).len() && t.push(e)[i] == Event::StartupFinishedDispatched;
        assert(i < t.len() && t[i] == Event::StartupFinishedDispatched);
    }
}

pub proof fn lemma_has_cancel_push(t: Seq<Event>, e: Event)
    ensures
        has_cancel(t.push(e)) == (has_cancel(t) || e == Event::CancellationObserved),
{
    if has_cancel(t) {
        let i = choose|i: int| 0 <= i < t.len() && t[i] == Event::CancellationObserved;
        assert(t.push(e)[i] == Event::CancellationObserved);
    }
    if e == Event::CancellationObserved {
        assert(t.push(e)[t.len() as int] == e);
    }
    if has_cancel(t.push(e)) && e != Event::CancellationObserved {
        let i = choose|i: int| 0 <= i < t.push(e).len() && t.push(e)[i] == Event::CancellationObserved;
        assert(i < t.len() && t[i] == Event::CancellationObserved);
    }
}

/// Appending an event that dispatches nothing and (if it is a cancellation)
/// was not observed before, preserves the discipline.
pub proof fn lemma_push_plain(t: Seq<Event>, e: Event)
    requires
        trace_wf(t),
        !is_dispatch(e),
        e == Event::CancellationObserved ==> !has_cancel(t),
    ensures
        trace_wf(t.push(e)),
        has_sentinel_dispatch(t.push(e)) == has_sentinel_dispatch(t),
        has_cancel(t.push(e)) == (has_cancel(t) || e == Event::CancellationObserved),
{
    let u = t.push(e);
    lemma_has_sentinel_dispatch_push(t, e);
    lemma_has_cancel_push(t, e);
    assert(forall|i: int| 0 <= i < t.len() ==> (#[trigger] u[i]) == t[i]);
    if no_dispatches(t) {
        assert(no_dispatches(u));
    }
}

/// Appending a non-sentinel dispatch is permitted once the sentinel has been
/// dispatched.
pub proof fn lemma_push_dispatch(t: Seq<Event>, e: Event)
    requires
        trace_wf(t),
        is_dispatch(e),
        e != Event::StartupFinishedDispatched,
        has_sentinel_dispatch(t),
    ensures
        trace_wf(t.push(e)),
        has_sentinel_dispatch(t.push(e)),
        has_cancel(t.push(e)) == has_cancel(t),
{
    let u = t.push(e);
    lemma_has_sentinel_dispatch_push(t, e);
    lemma_has_cancel_push(t, e);
    assert(forall|i: int| 0 <= i < t.len() ==> (#[trigger] u[i]) == t[i]);
    // the new dispatch stands after the sentinel, which is not at the end
    assert forall|i: int, j: int|
        0 <= i < j < u.len() && (#[trigger] u[j])
            == Event::StartupFinishedDispatched implies !is_dispatch(#[trigger] u[i]) by {
        assert(j < t.len());
    }
}

/// Appending the sentinel dispatch is permitted exactly once, while no
/// sentinel has been dispatched yet and nothing has been dispatched.
pub proof fn lemma_push_sentinel(t: Seq<Event>)
    requires
        trace_wf(t),
        !has_sentinel_dispatch(t),
    ensures
        trace_wf(t.push(Event::StartupFinishedDispatched)),
        has_sentinel_dispatch(t.push(Event::StartupFinishedDispatched)),
        has_cancel(t.push(Event::StartupFinishedDispatched)) == has_cancel(t),
{
    let n = t.len() as int;
    let u = t.push(Event::StartupFinishedDispatched);
    lemma_has_sentinel_dispatch_push(t, Event::StartupFinishedDispatched);
    lemma_has_cancel_push(t, Event::StartupFinishedDispatched);
    assert(forall|i: int| 0 <= i < n ==> (#[trigger] u[i]) == t[i]);
    // nothing was dispatched yet: otherwise the sentinel would exist already
    assert(no_dispatches(t));
    assert forall|i: int, j: int|
        0 <= i < j < u.len() && (#[trigger] u[j])
            == Event::StartupFinishedDispatched implies !is_dispatch(#[trigger] u[i]) by {
        assert(!is_dispatch(t[i]));
    }
}

/// The classic reading of the discipline: the first signal ever dispatched,
/// if any signal is dispatched at all, is the startup sentinel.
pub proof fn lemma_first_dispatch_is_sentinel(t: Seq<Event>, i: int)
    requires
        trace_wf(t),
        0 <= i < t.len(),
        is_dispatch(t[i]),
        t[i] != Event::StartupFinishedDispatched,
    ensures
        exists|j: int| 0 <= j < i && t[j] == Event::StartupFinishedDispatched,
{
    assert(!no_dispatches(t));
    let j = choose|j: int| 0 <= j < t.len() && t[j] == Event::StartupFinishedDispatched;
    assert(j != i);
    if j > i {
        assert(!is_dispatch(t[i]));
        assert(false);
    }
    assert(0 <= j < i && t[j] == Event::StartupFinishedDispatched);
}

/// What the inner receive loop decided.
pub(crate) enum MailboxPass {
    /// The cancellation token was observed at a suspension point.
    Cancelled,
    /// A handler (or the drained mailbox) decided to stop with this reason.
    Decided(ActorStopReason),
}

/// The inner receive loop: takes signals from the mailbox in order and
/// dispatches each to the corresponding behavior callback, until a callback
/// proposes a stop reason, the drained mailbox forces one, or the
/// cancellation token is observed at a suspension point.
///
/// A drained mailbox is treated identically to an explicit `Stop`; if the
/// behavior declines to stop even then, nothing further can ever arrive, so
/// the loop concludes with a `Normal` classification.
#[verifier::loop_isolation(false)]
pub(crate) fn recv_mailbox_loop<A: Behavior>(
    actor: &mut A,
    mailbox: &mut Mailbox<A::Msg>,
    gate: &mut StartupGate,
    cancel: &mut CancelToken,
    trace: &mut Vec<Event>,
) -> (pass: MailboxPass)
    requires
        trace_wf(old(trace)@),
        !has_cancel(old(trace)@),
        sentinel_only_at_head(old(mailbox)@),
        old(gate).released() == has_sentinel_dispatch(old(trace)@),
        has_sentinel_dispatch(old(trace)@) ==> sentinel_free(old(mailbox)@),
        has_sentinel_dispatch(old(trace)@) || (old(mailbox)@.len() > 0 && is_sentinel(
            old(mailbox)@[0],
        )),
    ensures
        trace_wf(final(trace)@),
        extends(final(trace)@, old(trace)@),
        final(trace)@.len() > old(trace)@.len(),
        forall|i: int|
            old(trace)@.len() <= i < final(trace)@.len() ==> loop_event(
                (#[trigger] final(trace)@[i]),
            ),
        final(gate).released() == has_sentinel_dispatch(final(trace)@),
        sentinel_only_at_head(final(mailbox)@),
        has_sentinel_dispatch(final(trace)@) ==> sentinel_free(final(mailbox)@),
        has_sentinel_dispatch(final(trace)@) || (final(mailbox)@.len() > 0 && is_sentinel(
            final(mailbox)@[0],
        )),
        final(mailbox)@.len() <= old(mailbox)@.len(),
        final(mailbox)@ =~= old(mailbox)@.subrange(
            old(mailbox)@.len() - final(mailbox)@.len(),
            old(mailbox)@.len() as int,
        ),
        pass is Cancelled ==> final(cancel).fired() && has_cancel(final(trace)@) && final(trace)@.last()
            == Event::CancellationObserved,
        pass is Cancelled ==> final(trace)@ =~= old(trace)@ + dispatch_events_of(
            old(mailbox)@.take(old(mailbox)@.len() - final(mailbox)@.len()),
        ).push(Event::CancellationObserved),
        pass is Decided ==> !has_cancel(final(trace)@),
        pass is Decided ==> has_sentinel_dispatch(final(trace)@),
        pass is Decided ==> (final(trace)@ =~= old(trace)@ + dispatch_events_of(
            old(mailbox)@.take(old(mailbox)@.len() - final(mailbox)@.len()),
        )) || (final(mailbox)@.len() == 0 && final(trace)@ =~= old(trace)@ + dispatch_events_of(
            old(mailbox)@,
        ).push(Event::StopDispatched)),
        old(mailbox)@.len() == 0 && !old(cancel).fired() ==> pass is Decided && final(trace)@
            =~= old(trace)@.push(Event::StopDispatched),
        pass is Decided && old(mailbox)@.len() > 0 ==> final(mailbox)@.len() < old(mailbox)@.len(),
        old(cancel).fired() ==> pass is Cancelled && final(trace)@ == old(trace)@.push(
            Event::CancellationObserved,
        ) && final(mailbox)@ == old(mailbox)@,
{
    let ghost t0 = trace@;
    let ghost m0 = mailbox@;
    let ghost c0 = cancel.fired();
    loop
        invariant
            trace_wf(trace@),
            !has_cancel(trace@),
            sentinel_only_at_head(mailbox@),
            gate.released() == has_sentinel_dispatch(trace@),
            has_sentinel_dispatch(trace@) ==> sentinel_free(mailbox@),
            has_sentinel_dispatch(trace@) || (mailbox@.len() > 0 && is_sentinel(mailbox@[0])),
            extends(trace@, t0),
            forall|i: int| t0.len() <= i < trace@.len() ==> loop_event((#[trigger] trace@[i])),
            mailbox@.len() <= m0.len(),
            mailbox@.len() < m0.len() || mailbox@ =~= m0,
            trace@.len() > t0.len() ==> mailbox@.len() < m0.len(),
            mailbox@ =~= m0.subrange(m0.len() - mailbox@.len(), m0.len() as int),
            trace@ =~= t0 + dispatch_events_of(m0.take(m0.len() - mailbox@.len())),
            trace@.len() == t0.len() ==> cancel.fired() == c0,
            c0 ==> cancel.fired() && trace@ =~= t0 && mailbox@ =~= m0,
        decreases mailbox@.len(),
    {
        let ghost k = m0.len() - mailbox@.len();
        if cancel.is_fired() {
            proof {
                lemma_push_plain(trace@, Event::CancellationObserved);
            }
            trace.push(Event::CancellationObserved);
            proof {
                assert(trace@.last() == Event::CancellationObserved);
                assert(trace@ =~= t0 + dispatch_events_of(m0.take(k)).push(
                    Event::CancellationObserved,
                ));
            }
            return MailboxPass::Cancelled;
        }
        let popped = mailbox.pop_front();
        match popped {
            Option::None => {
                // the queue is drained and no sender remains: treated as Stop
                proof {
                    assert(has_sentinel_dispatch(trace@));
                    lemma_push_dispatch(trace@, Event::StopDispatched);
                    assert(k == m0.len());
                    assert(m0.take(k as int) =~= m0);
                }
                trace.push(Event::StopDispatched);
                proof {
                    assert(trace@ =~= t0 + dispatch_events_of(m0).push(Event::StopDispatched));
                }
                let mut ctx = SignalCtx::new();
                let decision = actor.handle_stop(&mut ctx);
                if ctx.take() {
                    cancel.fire();
                }
                match decision {
                    Option::Some(r) => {
                        return MailboxPass::Decided(r);
                    },
                    Option::None => {
                        // nothing can ever arrive any more: conclude normally
                        return MailboxPass::Decided(ActorStopReason::Normal);
                    },
                }
            },
            Option::Some(sig) => {
                proof {
                    assert(sig == m0[k as int]);
                    assert(mailbox@ =~= m0.subrange(k + 1, m0.len() as int));
                    lemma_dispatch_events_take_succ::<A::Msg>(m0, k as int);
                }
                match sig {
                    Signal::StartupFinished => {
                        proof {
                            assert(!has_sentinel_dispatch(trace@));
                            lemma_push_sentinel(trace@);
                        }
                        trace.push(Event::StartupFinishedDispatched);
                        gate.release_all();
                        proof {
                            assert(sentinel_free(mailbox@));
                            assert(trace@ =~= t0 + dispatch_events_of(m0.take(k + 1)));
                        }
                        let mut ctx = SignalCtx::new();
                        let decision = actor.handle_startup_finished(&mut ctx);
                        if ctx.take() {
                            cancel.fire();
                        }
                        if let Option::Some(r) = decision {
                            return MailboxPass::Decided(r);
                        }
                    },
                    Signal::Message { payload, sender, reply_to, sent_within_actor } => {
                        proof {
                            assert(has_sentinel_dispatch(trace@));
                            lemma_push_dispatch(trace@, Event::MessageDispatched);
                        }
                        trace.push(Event::MessageDispatched);
                        proof {
                            assert(trace@ =~= t0 + dispatch_events_of(m0.take(k + 1)));
                        }
                        let mut ctx = SignalCtx::new();
                        let decision = actor.handle_message(
                            payload,
                            sender,
                            reply_to,
                            sent_within_actor,
                            &mut ctx,
                        );
                        if ctx.take() {
                            cancel.fire();
                        }
                        if let Option::Some(r) = decision {
                            return MailboxPass::Decided(r);
                        }
                    },
                    Signal::LinkDied { peer, reason } => {
                        proof {
                            assert(has_sentinel_dispatch(trace@));
                            lemma_push_dispatch(trace@, Event::LinkDiedDispatched);
                        }
                        trace.push(Event::LinkDiedDispatched);
                        proof {
                            assert(trace@ =~= t0 + dispatch_events_of(m0.take(k + 1)));
                        }
                        let mut ctx = SignalCtx::new();
                        let decision = actor.handle_link_died(peer, &reason, &mut ctx);
                        if ctx.take() {
                            cancel.fire();
                        }
                        if let Option::Some(r) = decision {
                            return MailboxPass::Decided(r);
                        }
                    },
                    Signal::Stop => {
                        proof {
                            assert(has_sentinel_dispatch(trace@));
                            lemma_push_dispatch(trace@, Event::StopDispatched);
                        }
                        trace.push(Event::StopDispatched);
                        proof {
                            assert(trace@ =~= t0 + dispatch_events_of(m0.take(k + 1)));
                        }
                        let mut ctx = SignalCtx::new();
                        let decision = actor.handle_stop(&mut ctx);
                        if ctx.take() {
                            cancel.fire();
                        }
                        if let Option::Some(r) = decision {
                            return MailboxPass::Decided(r);
                        }
                    },
                }
            },
        }
    }
}

/// The steady-state outer loop. Each reason the inner loop proposes is
/// offered to the shutdown intercept, which either accepts (or replaces) it
/// as final or vetoes it, resuming the inner loop. An observed cancellation
/// bypasses the intercept and classifies the run as `Killed`.
///
/// A veto with the mailbox already drained is moot - nothing can ever
/// arrive - so the proposed reason stands.
#[verifier::loop_isolation(false)]
pub(crate) fn abortable_actor_loop<A: Behavior>(
    actor: &mut A,
    mailbox: &mut Mailbox<A::Msg>,
    gate: &mut StartupGate,
    cancel: &mut CancelToken,
    trace: &mut Vec<Event>,
) -> (reason: ActorStopReason)
    requires
        trace_wf(old(trace)@),
        !has_cancel(old(trace)@),
        sentinel_only_at_head(old(mailbox)@),
        old(gate).released() == has_sentinel_dispatch(old(trace)@),
        has_sentinel_dispatch(old(trace)@) ==> sentinel_free(old(mailbox)@),
        has_sentinel_dispatch(old(trace)@) || (old(mailbox)@.len() > 0 && is_sentinel(
            old(mailbox)@[0],
        )),
    ensures
        trace_wf(final(trace)@),
        extends(final(trace)@, old(trace)@),
        final(trace)@.len() > old(trace)@.len(),
        forall|i: int|
            old(trace)@.len() <= i < final(trace)@.len() ==> steady_event(
                (#[trigger] final(trace)@[i]),
            ),
        final(gate).released() == has_sentinel_dispatch(final(trace)@),
        final(mailbox)@ =~= old(mailbox)@.subrange(
            old(mailbox)@.len() - final(mailbox)@.len(),
            old(mailbox)@.len() as int,
        ),
        has_cancel(final(trace)@) || has_sentinel_dispatch(final(trace)@),
        has_cancel(final(trace)@) ==> reason is Killed,
        !has_cancel(final(trace)@) ==> final(trace)@.len() > 0 && final(trace)@.last()
            == Event::ShutdownConsulted,
        old(cancel).fired() ==> reason is Killed && final(trace)@ == old(trace)@.push(
            Event::CancellationObserved,
        ),
{
    let ghost t0 = trace@;
    let ghost m0 = mailbox@;
    let ghost c0 = cancel.fired();
    proof {
        assert(mailbox@ =~= m0.subrange(0, m0.len() as int));
    }
    loop
        invariant
            trace_wf(trace@),
            !has_cancel(trace@),
            sentinel_only_at_head(mailbox@),
            gate.released() == has_sentinel_dispatch(trace@),
            has_sentinel_dispatch(trace@) ==> sentinel_free(mailbox@),
            has_sentinel_dispatch(trace@) || (mailbox@.len() > 0 && is_sentinel(mailbox@[0])),
            extends(trace@, t0),
            forall|i: int| t0.len() <= i < trace@.len() ==> steady_event((#[trigger] trace@[i])),
            mailbox@.len() <= m0.len(),
            mailbox@ =~= m0.subrange(m0.len() - mailbox@.len(), m0.len() as int),
            c0 ==> cancel.fired() && trace@ =~= t0 && mailbox@ =~= m0,
        decreases mailbox@.len(),
    {
        let ghost mpre = mailbox@;
        let pass = recv_mailbox_loop(actor, mailbox, gate, cancel, trace);
        proof {
            let a = m0.len() - mpre.len();
            let b = mpre.len() - mailbox@.len();
            assert(0 <= a && 0 <= b && mailbox@.len() <= mpre.len() <= m0.len());
            assert(mpre =~= m0.subrange(a, m0.len() as int));
            assert(mailbox@ =~= mpre.subrange(b, mpre.len() as int));
            assert forall|i: int| 0 <= i < mailbox@.len() implies mailbox@[i] == m0[a + b
                + i] by {
                assert(mailbox@[i] == mpre.subrange(b, mpre.len() as int)[i]);
                assert(mpre.subrange(b, mpre.len() as int)[i] == mpre[b + i]);
                assert(mpre[b + i] == m0.subrange(a, m0.len() as int)[b + i]);
                assert(m0.subrange(a, m0.len() as int)[b + i] == m0[a + (b + i)]);
            }
            assert(mailbox@ =~= m0.subrange(m0.len() - mailbox@.len(), m0.len() as int));
        }
        match pass {
            MailboxPass::Cancelled => {
                return ActorStopReason::Killed;
            },
            MailboxPass::Decided(r) => {
                proof {
                    lemma_push_plain(trace@, Event::ShutdownConsulted);
                }
                trace.push(Event::ShutdownConsulted);
                proof {
                    assert(trace@.last() == Event::ShutdownConsulted);
                }
                match actor.on_shutdown(&r) {
                    Option::Some(fin) => {
                        return fin;
                    },
                    Option::None => {
                        if mailbox.is_empty() {
                            // drained: the veto is moot, the reason stands
                            return r;
                        }
                    },
                }
            },
        }
    }
}

/// Everything a finished run yields: the recovered raw actor value, the one
/// final stop reason, the link-death notices owed to linked peers, the
/// ordered event trace, and what the startup and termination hooks reported.
pub struct RunOutcome<A> {
    /// The raw actor value, recovered from the state wrapper.
    pub actor: A,
    /// The final classified stop reason - exactly one per run.
    pub reason: ActorStopReason,
    /// One notice per linked peer, owed exactly once, in link order. Empty
    /// when startup failed: only the run's caller observes that reason.
    pub notifications: Vec<LinkNotice>,
    /// The externally observable lifecycle events, in order.
    pub events: Vec<Event>,
    /// The handle value the startup hook was invoked with: the very handle
    /// bound into the prepared actor, so the identity observable inside
    /// `on_start` is the prepared identity.
    pub start_handle: ActorRef,
    /// The reason value handed to the termination hook - the same value this
    /// outcome reports as `reason` - for specification purposes.
    pub stop_hook_reason: Ghost<ActorStopReason>,
    /// Whether the startup gate ended released. It is released exactly when
    /// the startup sentinel is dispatched, and never reset.
    pub gate_released: bool,
    /// The error the startup hook failed with, if it failed, its structure
    /// preserved.
    pub startup_error: Option<PanicError>,
    /// Whether, on the startup-failure path, the shutdown intercept returned
    /// a replacement for the `Panicked` classification.
    pub startup_reason_overridden: bool,
    /// The error the termination hook reported, if it failed. Its failure is
    /// surfaced here, not separately contained.
    pub stop_hook_error: Option<String>,
}

/// The engine's guarantee for a run begun with links `links0`, cancellation
/// state `precancel`, and the handle `aref`.
pub open spec fn lifecycle_post<A>(
    aref: ActorRef,
    links0: Seq<ActorID>,
    precancel: bool,
    out: RunOutcome<A>,
) -> bool {
    let t = out.events@;
    &&& lifecycle_trace_ok(t)
    &&& out.start_handle == aref
    &&& out.stop_hook_reason@ == out.reason
    &&& (out.startup_error is Some ==> t =~= seq![
        Event::StartCalled,
        Event::ShutdownConsulted,
        Event::StopHookCalled,
    ] && no_dispatches(t) && !has_cancel(t) && out.notifications@.len() == 0)
    &&& (out.startup_error is None ==> has_cancel(t) || has_sentinel_dispatch(t))
    &&& (out.startup_error is None ==> out.notifications@.len() == links0.len() && (forall|i: int|
        0 <= i < links0.len() ==> ((#[trigger] out.notifications@[i]).peer == links0[i]
            && out.notifications@[i].origin == aref.id_spec() && out.notifications@[i].reason
            == out.reason)))
    &&& match out.startup_error {
        Option::Some(err) => !out.startup_reason_overridden ==> match out.reason {
            ActorStopReason::Panicked(e) => e == err,
            _ => false,
        },
        Option::None => true,
    }
    &&& (has_cancel(t) ==> out.reason is Killed)
    &&& (!has_cancel(t) ==> t.len() >= 3 && t[t.len() - 2] == Event::ShutdownConsulted)
    &&& (precancel && out.startup_error is None ==> out.reason is Killed && t =~= seq![
        Event::StartCalled,
        Event::CancellationObserved,
        Event::StopHookCalled,
    ])
    &&& out.gate_released == has_sentinel_dispatch(t)
    &&& (has_sentinel_dispatch(t) ==> out.startup_error is None)
}

/// When an actor with distinct linked peers terminates through the steady
/// state, every linked peer is owed exactly one link-death notice, carrying
/// the terminated actor's identity and its final reason; no peer is owed two.
pub proof fn lemma_peer_notified_exactly_once<A>(
    aref: ActorRef,
    links0: Seq<ActorID>,
    precancel: bool,
    out: RunOutcome<A>,
    peer: ActorID,
)
    requires
        lifecycle_post(aref, links0, precancel, out),
        out.startup_error is None,
        forall|m: int, n: int|
            0 <= m < n < links0.len() ==> (#[trigger] links0[m]) != (#[trigger] links0[n]),
        links0.contains(peer),
    ensures
        exists|k: int|
            0 <= k < out.notifications@.len() && (#[trigger] out.notifications@[k]).peer == peer
                && out.notifications@[k].origin == aref.id_spec() && out.notifications@[k].reason
                == out.reason,
        forall|i: int, j: int|
            0 <= i < out.notifications@.len() && 0 <= j < out.notifications@.len() && (
            #[trigger] out.notifications@[i]).peer == peer && (#[trigger] out.notifications@[j]).peer
                == peer ==> i == j,
{
    let k = choose|k: int| 0 <= k < links0.len() && links0[k] == peer;
    assert(out.notifications@[k].peer == peer && out.notifications@[k].origin == aref.id_spec()
        && out.notifications@[k].reason == out.reason);
    assert forall|i: int, j: int|
        0 <= i < out.notifications@.len() && 0 <= j < out.notifications@.len() && (
        #[trigger] out.notifications@[i]).peer == peer && (#[trigger] out.notifications@[j]).peer
            == peer implies i == j by {
        assert(links0[i] == peer && links0[j] == peer);
        if i < j {
            assert(links0[i] != links0[j]);
        }
        if j < i {
            assert(links0[j] != links0[i]);
        }
    }
}

/// Enqueues the messages a startup hook addressed to the actor itself, in
/// send order, each marked as originated within the actor.
fn enqueue_self_messages<M>(mailbox: &mut Mailbox<M>, self_id: ActorID, msgs: Vec<M>)
    ensures
        final(mailbox)@.len() == old(mailbox)@.len() + msgs@.len(),
        forall|i: int|
            0 <= i < old(mailbox)@.len() ==> (#[trigger] final(mailbox)@[i]) == old(mailbox)@[i],
        forall|k: int|
            0 <= k < msgs@.len() ==> (#[trigger] final(mailbox)@[old(mailbox)@.len() + k]) == (
            Signal::Message {
                payload: msgs@[k],
                sender: Option::Some(self_id),
                reply_to: Option::<ActorID>::None,
                sent_within_actor: true,
            }),
{
    let ghost q0 = mailbox@;
    let ghost g0 = msgs@;
    let mut msgs = msgs;
    while msgs.len() > 0
        invariant
            mailbox@.len() + msgs@.len() == q0.len() + g0.len(),
            mailbox@.len() >= q0.len(),
            msgs@ =~= g0.subrange(mailbox@.len() - q0.len(), g0.len() as int),
            forall|i: int| 0 <= i < q0.len() ==> (#[trigger] mailbox@[i]) == q0[i],
            forall|k: int|
                0 <= k < mailbox@.len() - q0.len() ==> (#[trigger] mailbox@[q0.len() + k]) == (
                Signal::Message {
                    payload: g0[k],
                    sender: Option::Some(self_id),
                    reply_to: Option::<ActorID>::None,
                    sent_within_actor: true,
                }),
        decreases msgs@.len(),
    {
        let ghost k = mailbox@.len() - q0.len();
        let m = msgs.remove(0);
        proof {
            assert(m == g0[k]);
            assert(msgs@ =~= g0.subrange(k + 1, g0.len() as int));
        }
        mailbox.send(
            Signal::Message {
                payload: m,
                sender: Option::Some(self_id),
                reply_to: Option::None,
                sent_within_actor: true,
            },
        );
    }
}

/// Drives the full lifecycle of one actor: the startup hook inside its
/// containment boundary, the sentinel enqueue, the handle downgrade, the
/// steady-state loop under the cancellation token, link notification, and
/// the termination hook. Yields the terminal actor value and exactly one
/// classified stop reason.
pub(crate) fn run_actor_lifecycle<A: Behavior>(
    actor: A,
    actor_ref: ActorRef,
    mailbox: Mailbox<A::Msg>,
    links: Links,
    gate: StartupGate,
    cancel: CancelToken,
) -> (out: RunOutcome<A>)
    requires
        sentinel_free(mailbox@),
        !gate.released(),
        links.distinct(),
    ensures
        lifecycle_post(actor_ref, links@, cancel.fired(), out),
{
    let mut actor = actor;
    let mut mailbox = mailbox;
    let mut links = links;
    let mut gate = gate;
    let mut cancel = cancel;

    let mut trace: Vec<Event> = Vec::new();
    trace.push(Event::StartCalled);
    proof {
        assert(trace@ =~= seq![Event::StartCalled]);
    }

    let ghost q0 = mailbox@;
    let mut start_ctx = StartupCtx::<A::Msg>::new();
    let start_res = actor.on_start(&actor_ref, &mut start_ctx);
    let (self_msgs, start_kill) = start_ctx.into_parts();
    // the sentinel goes ahead of anything queued concurrently with startup,
    // and is enqueued unconditionally, even when the startup hook failed
    mailbox.push_front(Signal::StartupFinished);
    let ghost q1 = mailbox@;
    // messages the actor addressed to itself during startup follow the
    // sentinel, so none is lost ahead of the waiters' release
    enqueue_self_messages(&mut mailbox, actor_ref.id(), self_msgs);
    proof {
        assert(q1 == q0.insert(0, Signal::<A::Msg>::StartupFinished));
        assert(q1 =~= seq![Signal::<A::Msg>::StartupFinished] + q0);
        assert(is_sentinel(mailbox@[0]));
        assert forall|i: int| 1 <= i < mailbox@.len() implies !is_sentinel(
            #[trigger] mailbox@[i],
        ) by {
            if i < q1.len() {
                assert(mailbox@[i] == q1[i]);
                assert(q1[i] == q0[i - 1]);
            } else {
                let k = i - q1.len();
                assert(mailbox@[q1.len() + k] == (Signal::Message {
                    payload: self_msgs@[k],
                    sender: Option::Some(actor_ref.id_spec()),
                    reply_to: Option::<ActorID>::None,
                    sent_within_actor: true,
                }));
            }
        }
        assert(sentinel_only_at_head(mailbox@));
        assert(mailbox@.len() > 0);
    }
    if start_kill {
        cancel.fire();
    }
    let weak_ref = actor_ref.downgrade();

    match start_res {
        Result::Err(err) => {
            // short-circuit: classify with the error's structure preserved,
            // offer the intercept one chance to reclassify, recover the raw
            // value, run the termination hook; the steady-state loop is
            // never entered and links are not drained - only the run's
            // caller observes the reason
            let recorded = err.clone();
            let reason0 = ActorStopReason::Panicked(err);
            let mut overridden = false;
            proof {
                lemma_push_plain(trace@, Event::ShutdownConsulted);
            }
            trace.push(Event::ShutdownConsulted);
            let reason = match actor.on_shutdown(&reason0) {
                Option::Some(replacement) => {
                    overridden = true;
                    replacement
                },
                Option::None => reason0,
            };
            let ghost hook_reason = reason;
            let stop_res = actor.on_stop(&weak_ref, &reason);
            trace.push(Event::StopHookCalled);
            proof {
                assert(trace@ =~= seq![
                    Event::StartCalled,
                    Event::ShutdownConsulted,
                    Event::StopHookCalled,
                ]);
            }
            RunOutcome {
                actor,
                reason,
                notifications: Vec::new(),
                events: trace,
                start_handle: actor_ref,
                stop_hook_reason: Ghost(hook_reason),
                gate_released: gate.is_released(),
                startup_error: Option::Some(recorded),
                startup_reason_overridden: overridden,
                stop_hook_error: match stop_res {
                    Result::Ok(_) => Option::None,
                    Result::Err(e) => Option::Some(e),
                },
            }
        },
        Result::Ok(_) => {
            let reason = abortable_actor_loop(
                &mut actor,
                &mut mailbox,
                &mut gate,
                &mut cancel,
                &mut trace,
            );
            // drain the links exactly once, while still held, so every peer
            // is notified exactly once with the final reason
            let notifications = links.drain(actor_ref.id(), &reason);
            let ghost hook_reason = reason;
            let stop_res = actor.on_stop(&weak_ref, &reason);
            proof {
                lemma_push_plain(trace@, Event::StopHookCalled);
            }
            trace.push(Event::StopHookCalled);
            RunOutcome {
                actor,
                reason,
                notifications,
                events: trace,
                start_handle: actor_ref,
                stop_hook_reason: Ghost(hook_reason),
                gate_released: gate.is_released(),
                startup_error: Option::None,
                startup_reason_overridden: false,
                stop_hook_error: match stop_res {
                    Result::Ok(_) => Option::None,
                    Result::Err(e) => Option::Some(e),
                },
            }
        },
    }
}

} // verus!
