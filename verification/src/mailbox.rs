//! The mailbox: the ordered signal queue an actor consumes.
//!
//! Signals are delivered strictly in queue order (first in, first out), the
//! single point through which all external influence on an actor flows. The
//! lifecycle machine owns the sole receiving end; producers enqueue at the
//! back, and the engine places the startup sentinel at the head so that it is
//! dispatched before anything queued concurrently with startup.

use vstd::prelude::*;

verus! {

use crate::signal::Signal;

/// An ordered queue of signals, consumed from the front.
pub struct Mailbox<M> {
    queue: Vec<Signal<M>>,
}

impl<M> View for Mailbox<M> {
    type V = Seq<Signal<M>>;

    closed spec fn view(&self) -> Seq<Signal<M>> {
        self.queue@
    }
}

impl<M> Mailbox<M> {
    /// An empty mailbox.
    pub fn new() -> (m: Self)
        ensures
            m@ =~= Seq::<Signal<M>>::empty(),
    {
        Mailbox { queue: Vec::new() }
    }

    /// Enqueues a signal at the back.
    pub fn send(&mut self, s: Signal<M>)
        ensures
            final(self)@ == old(self)@.push(s),
    {
        self.queue.push(s);
    }

    /// Places a signal at the head of the queue, ahead of everything already
    /// queued. Used by the lifecycle machine for the startup sentinel only.
    pub(crate) fn push_front(&mut self, s: Signal<M>)
        ensures
            final(self)@ == old(self)@.insert(0, s),
    {
        self.queue.insert(0, s);
    }

    /// Takes the next signal, or nothing when the queue is drained.
    pub(crate) fn pop_front(&mut self) -> (r: Option<Signal<M>>)
        ensures
            match r {
                Option::None => old(self)@.len() == 0 && final(self)@ == old(self)@,
                Option::Some(s) => old(self)@.len() > 0 && s == old(self)@[0] && final(self)@
                    == old(self)@.remove(0),
            },
    {
        if self.queue.len() == 0 {
            Option::None
        } else {
            Option::Some(self.queue.remove(0))
        }
    }

    /// How many signals are queued.
    pub fn len(&self) -> (n: usize)
        ensures
            n == self@.len(),
    {
        self.queue.len()
    }

    /// Whether the queue is drained.
    pub fn is_empty(&self) -> (b: bool)
        ensures
            b == (self@.len() == 0),
    {
        self.queue.len() == 0
    }
}

} // verus!
