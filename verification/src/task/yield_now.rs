//! Yielding execution back to the event framework for one turn.
use vstd::prelude::*;

use std::task::Waker;

use super::Poll;

verus! {

/// A future that is pending on its first poll, asking to be polled again at once, and
/// ready on the next.
pub struct YieldNow {
    yielded: bool,
}

impl YieldNow {
    /// Whether the future has yielded once.
    pub closed spec fn has_yielded(&self) -> bool {
        self.yielded
    }

    /// Returns a future that has not yet yielded.
    pub fn new() -> (y: Self)
        ensures
            !y.has_yielded(),
    {
        YieldNow { yielded: false }
    }

    /// Polls the future with the waker of the task awaiting it: the first poll is pending
    /// and hands `waker` back for the caller to wake, so that the task is polled again at
    /// once; later polls are ready and hand back nothing.
    pub fn poll(&mut self, waker: Waker) -> (r: (Poll<()>, Option<Waker>))
        ensures
            final(self).has_yielded(),
            old(self).has_yielded() ==> r == (Poll::Ready(()), None::<Waker>),
            !old(self).has_yielded() ==> r == (Poll::<()>::Pending, Some(waker)),
    {
        if self.yielded {
            return (Poll::Ready(()), None);
        }
        self.yielded = true;
        (Poll::Pending, Some(waker))
    }
}

} // verus!
