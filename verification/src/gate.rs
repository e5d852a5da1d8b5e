//! Cross-context control primitives: the startup gate and the cancellation
//! token, modelled as the state a waiter or the lifecycle machine can observe.

use vstd::prelude::*;

verus! {

/// A counting release primitive initialized with no permits. Waiters block
/// until permits arrive; exactly once, when the startup sentinel is
/// dispatched, the lifecycle machine adds an effectively unlimited permit
/// count, after which every current and future waiter proceeds immediately.
/// The permits are never taken back.
pub struct StartupGate {
    flag: bool,
}

impl StartupGate {
    /// Whether the unlimited permits have been added.
    pub closed spec fn released(self) -> bool {
        self.flag
    }

    /// A gate with no permits: every waiter would block.
    pub fn new() -> (g: Self)
        ensures
            !g.released(),
    {
        StartupGate { flag: false }
    }

    /// Whether a waiter would proceed immediately. Once this returns true it
    /// returns true forever: the permits are never taken back.
    pub fn is_released(&self) -> (b: bool)
        ensures
            b == self.released(),
    {
        self.flag
    }

    /// Adds an effectively unlimited permit count. Invoked exactly once, by
    /// the lifecycle machine, when the startup sentinel is dispatched - never
    /// by external code.
    pub(crate) fn release_all(&mut self)
        requires
            !old(self).released(),
        ensures
            final(self).released(),
    {
        self.flag = true;
    }
}

/// A fire-once, idempotent cancellation token. Firing it requests that the
/// running phase of the lifecycle terminate with a `Killed` classification;
/// the request is observed cooperatively, at the loop's suspension points.
pub struct CancelToken {
    flag: bool,
}

impl CancelToken {
    /// Whether the token has been fired.
    pub closed spec fn fired(self) -> bool {
        self.flag
    }

    /// A token that has not been fired.
    pub fn new() -> (t: Self)
        ensures
            !t.fired(),
    {
        CancelToken { flag: false }
    }

    /// Fires the token. Idempotent: firing an already-fired token changes
    /// nothing.
    pub fn fire(&mut self)
        ensures
            final(self).fired(),
    {
        self.flag = true;
    }

    /// Whether the token has been fired.
    pub fn is_fired(&self) -> (b: bool)
        ensures
            b == self.fired(),
    {
        self.flag
    }
}

} // verus!
