//! Utilities for tracking time: the state of an interval driven by a poller.
use vstd::prelude::*;

use std::task::Waker;

use crate::task::Poll;

verus! {

/// The interval state `(ticks, registered)` after the awaiting task polls it with
/// `waker` in state `(t, r)`, and what the poll returns.
pub open spec fn after_poll_tick(t: u32, r: Option<Waker>, waker: Waker) -> (u32, Option<Waker>, Poll<()>) {
    if t == 0 {
        (0, Some(waker), Poll::Pending)
    } else {
        (0, r, Poll::Ready(()))
    }
}

/// The interval state `(ticks, registered)` after a period elapses in state `(t, r)`, and
/// the waker to wake.
pub open spec fn after_period(t: u32, r: Option<Waker>) -> (u32, Option<Waker>, Option<Waker>) {
    ((t + 1) as u32, None, r)
}

/// Encapsulates the execution state of an interval: the number of periods that elapsed
/// since the interval last completed, and the waker of the task awaiting it.
pub struct IntervalInner {
    ticker: u32,
    waker: Option<Waker>,
}

impl IntervalInner {
    /// The number of periods that elapsed since the interval last completed.
    pub closed spec fn ticks(&self) -> u32 {
        self.ticker
    }

    /// The waker of the task awaiting the interval, if one is registered.
    pub closed spec fn registered(&self) -> Option<Waker> {
        self.waker
    }

    /// Creates a new interval state with no elapsed period and no waker.
    pub fn new() -> (s: Self)
        ensures
            s.ticks() == 0,
            s.registered() is None,
    {
        Self { ticker: 0, waker: None }
    }

    /// Returns the number of periods that elapsed since the interval last completed.
    pub fn elapsed(&self) -> (t: u32)
        ensures
            t == self.ticks(),
    {
        self.ticker
    }

    /// Polls the interval on behalf of the task awaiting it: ready, and reset, when a
    /// period elapsed since it last completed; otherwise pending, with `waker` registered.
    pub fn poll_tick(&mut self, waker: Waker) -> (p: Poll<()>)
        ensures
            (final(self).ticks(), final(self).registered(), p) == after_poll_tick(
                old(self).ticks(),
                old(self).registered(),
                waker,
            ),
    {
        if self.ticker == 0 {
            self.waker = Some(waker);
            return Poll::Pending;
        }
        self.ticker = 0;
        Poll::Ready(())
    }
}

impl IntervalInner {
    /// Records that a period elapsed and hands back the registered waker, if any, which
    /// the caller wakes.
    ///
    /// The count of elapsed periods must fit in `u32`: the operation overflows once
    /// `u32::MAX` periods elapse without the interval being awaited, which the
    /// precondition refuses.
    pub fn period_elapsed(&mut self) -> (w: Option<Waker>)
        requires
            old(self).ticks() < u32::MAX,
        ensures
            (final(self).ticks(), final(self).registered(), w) == after_period(
                old(self).ticks(),
                old(self).registered(),
            ),
    {
        self.ticker = self.ticker + 1;
        self.waker.take()
    }
}

/// The first tick of an interval completes only after a period has elapsed: a poll before
/// any period is pending and registers the awaiting task's waker; the period wakes that
/// task; the poll that follows completes.
pub proof fn lemma_tick_after_period(waker: Waker, r: Option<Waker>, waker2: Waker)
    ensures
        after_poll_tick(0, r, waker) == (0u32, Some(waker), Poll::<()>::Pending),
        after_period(0, Some(waker)) == (1u32, None::<Waker>, Some(waker)),
        after_poll_tick(1, None, waker2).2 is Ready,
{
}

/// Each completion consumes the periods that elapsed before it: after a tick completes,
/// the next one waits for a new period, however many periods elapsed before.
pub proof fn lemma_tick_resets(t: u32, r: Option<Waker>, waker: Waker, waker2: Waker)
    requires
        t != 0,
    ensures
        after_poll_tick(t, r, waker).2 is Ready,
        after_poll_tick(after_poll_tick(t, r, waker).0, after_poll_tick(t, r, waker).1, waker2).2 is Pending,
{
}

} // verus!
