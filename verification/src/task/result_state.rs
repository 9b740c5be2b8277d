//! The state of a task's result.
use vstd::prelude::*;

use std::task::Waker;

use super::Poll;

verus! {

/// Represents the state of a task's result.
pub enum ResultState<T> {
    /// The task has not yet completed and is waiting for the result to be produced.
    Empty,
    /// The task has not yet completed, but a [`Waker`] has been registered to be notified
    /// when the result is ready.
    Waiting(Waker),
    /// The task has completed and the result is ready to be consumed.
    Ready(T),
    /// The task has completed and the result has been consumed.
    Consumed,
}

/// The state after the result `result` is set in state `s`, and the waker to wake.
pub open spec fn after_set_result<T>(s: ResultState<T>, result: T) -> (ResultState<T>, Option<Waker>) {
    (
        ResultState::Ready(result),
        match s {
            ResultState::Waiting(w) => Some(w),
            _ => None,
        },
    )
}

/// The state after polling for the result in state `s` with `waker`, and what the poll
/// returns.
pub open spec fn after_poll_result<T>(s: ResultState<T>, waker: Waker) -> (ResultState<T>, Poll<T>) {
    match s {
        ResultState::Empty => (ResultState::Waiting(waker), Poll::Pending),
        ResultState::Ready(r) => (ResultState::Consumed, Poll::Ready(r)),
        ResultState::Waiting(w) => (ResultState::Waiting(w), Poll::Pending),
        ResultState::Consumed => (ResultState::Consumed, Poll::Pending),
    }
}

/// Whether a result may still be set in state `s`: none was set before.
pub open spec fn accepts_result<T>(s: ResultState<T>) -> bool {
    s is Empty || s is Waiting
}

impl<T> ResultState<T> {
    /// Returns a new, empty result state.
    pub fn new() -> (s: Self)
        ensures
            s is Empty,
    {
        ResultState::Empty
    }

    /// Sets the result of the task and returns the registered [`Waker`], if any, for the
    /// caller to wake.
    ///
    /// A result can be set once; setting it again, or after it was consumed, is refused
    /// by the precondition (the operation panics on it).
    pub fn set_result(&mut self, result: T) -> (w: Option<Waker>)
        requires
            accepts_result(*old(self)),
        ensures
            (*final(self), w) == after_set_result(*old(self), result),
    {
        let mut prev = ResultState::Ready(result);
        std::mem::swap(self, &mut prev);
        match prev {
            ResultState::Waiting(waker) => Some(waker),
            _ => None,
        }
    }

    /// Polls the result of the task, returning `Poll::Pending` if the result is not yet
    /// ready, or `Poll::Ready` with the result if it is ready. `waker` is registered when
    /// none is yet.
    ///
    /// Polling after the result was consumed is refused by the precondition (the operation
    /// panics on it).
    pub fn poll_result(&mut self, waker: Waker) -> (p: Poll<T>)
        requires
            !(*old(self) is Consumed),
        ensures
            (*final(self), p) == after_poll_result(*old(self), waker),
    {
        match self {
            ResultState::Empty => {
                *self = ResultState::Waiting(waker);
                Poll::Pending
            },
            ResultState::Ready(_) => {
                let mut res = ResultState::Consumed;
                std::mem::swap(self, &mut res);
                match res {
                    ResultState::Ready(r) => Poll::Ready(r),
                    _ => Poll::Pending,
                }
            },
            _ => Poll::Pending,
        }
    }
}

/// A result that is set is delivered, unchanged, by the next poll; the state is then
/// consumed.
pub proof fn lemma_set_then_poll<T>(s: ResultState<T>, result: T, waker: Waker)
    requires
        accepts_result(s),
    ensures
        after_poll_result(after_set_result(s, result).0, waker) == (
            ResultState::<T>::Consumed,
            Poll::Ready(result),
        ),
{
}

/// A waker registered by a poll that found no result is the one handed back, to be woken,
/// when the result is set.
pub proof fn lemma_registered_waker_is_woken<T>(s: ResultState<T>, waker: Waker, result: T)
    requires
        s is Empty,
    ensures
        after_poll_result(s, waker).1 is Pending,
        after_set_result(after_poll_result(s, waker).0, result).1 == Some(waker),
{
}

/// Polling again while the result is awaited keeps the waker first registered and stays
/// pending.
pub proof fn lemma_poll_while_waiting_keeps_waker<T>(w: Waker, waker: Waker)
    ensures
        after_poll_result(ResultState::<T>::Waiting(w), waker) == (
            ResultState::<T>::Waiting(w),
            Poll::<T>::Pending,
        ),
{
}

} // verus!
