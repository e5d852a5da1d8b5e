//! Stop-reason classification: why an actor's lifecycle ended.

use vstd::prelude::*;

verus! {

use crate::ids::ActorID;

/// Information recovered from an abnormally terminated callback: a
/// human-readable description and, where the failure carried a prior stop
/// reason from a descendant, that reason preserved structurally rather than
/// flattened into text.
#[derive(Debug, PartialEq, Eq)]
pub struct PanicError {
    /// Human-readable description of the failure.
    pub msg: String,
    /// A prior stop reason carried by the failure, if it was one.
    pub cause: Option<Box<ActorStopReason>>,
}

/// The terminal classification of an actor's lifecycle. Exactly one of these
/// is produced per run, never none and never more than one.
#[derive(Debug, PartialEq, Eq)]
pub enum ActorStopReason {
    /// Graceful completion.
    Normal,
    /// The cancellation token fired while the actor was running.
    Killed,
    /// A callback terminated abnormally.
    Panicked(PanicError),
    /// The actor chose to stop because a linked peer terminated.
    LinkDied { id: ActorID, reason: Box<ActorStopReason> },
}

impl Clone for PanicError {
    /// Clones preserve the description and the carried reason exactly.
    fn clone(&self) -> (r: Self)
        ensures
            r == *self,
        decreases *self,
    {
        PanicError {
            msg: self.msg.clone(),
            cause: match &self.cause {
                Option::None => Option::None,
                Option::Some(b) => Option::Some(Box::new((**b).clone())),
            },
        }
    }
}

impl Clone for ActorStopReason {
    /// Clones preserve the classification and every carried field exactly.
    fn clone(&self) -> (r: Self)
        ensures
            r == *self,
        decreases *self,
    {
        match self {
            ActorStopReason::Normal => ActorStopReason::Normal,
            ActorStopReason::Killed => ActorStopReason::Killed,
            ActorStopReason::Panicked(e) => ActorStopReason::Panicked(e.clone()),
            ActorStopReason::LinkDied { id, reason } => ActorStopReason::LinkDied {
                id: *id,
                reason: Box::new((**reason).clone()),
            },
        }
    }
}

/// How loudly a terminal reason should be reported.
#[derive(Clone, Copy, PartialEq, Eq, Structural, Debug)]
pub enum LogSeverity {
    /// Routine terminations: normal completion, cancellation, link death.
    Trace,
    /// Abnormal terminations: a callback panicked.
    Error,
}

/// Classifies how loudly a terminal stop reason should be reported: panics
/// are errors, every other termination is routine. The identity and name are
/// what a reporting layer would correlate the entry with.
pub fn log_actor_stop_reason(id: ActorID, name: &str, reason: &ActorStopReason) -> (sev:
    LogSeverity)
    ensures
        sev == LogSeverity::Error <==> *reason is Panicked,
{
    match reason {
        ActorStopReason::Panicked(_) => LogSeverity::Error,
        ActorStopReason::Normal => LogSeverity::Trace,
        ActorStopReason::Killed => LogSeverity::Trace,
        ActorStopReason::LinkDied { .. } => LogSeverity::Trace,
    }
}

} // verus!
