//! The state of a promise: an asynchronous operation whose result a callback delivers.
use vstd::prelude::*;

use std::task::Waker;

use super::{clone_waker, Poll};
use crate::errors::Errno;

verus! {

/// Encapsulates the state of a promise.
///
/// The state moves as follows:
///
/// ```text
/// Empty --> Requesting : request(start_fn)
/// Requesting --> Waiting : poll(cx)
/// Requesting --> Kept : set_result(res) | Ready(res)
/// Waiting --> Waiting : poll(cx)
/// Waiting --> Kept : set_result(res)
/// Kept --> Fulfilled : poll(cx)
/// ```
pub enum PromiseState<T> {
    /// The initial state of a promise.
    Empty,
    /// The promisee is requesting a promise: the function that starts the asynchronous
    /// operation is running.
    Requesting,
    /// The promisee is waiting for the promise to be kept.
    Waiting(Waker),
    /// The promisor has kept the promise and delivered a result.
    Kept(Result<T, Errno>),
    /// The promisee has received the promised result.
    Fulfilled,
}

/// Whether the promise in state `s` may be polled: the operation was requested and its
/// result not yet received.
pub open spec fn pollable<T>(s: PromiseState<T>) -> bool {
    s is Requesting || s is Waiting || s is Kept
}

/// Whether the promise in state `s` may be kept: the operation was requested and no result
/// was delivered yet.
pub open spec fn keepable<T>(s: PromiseState<T>) -> bool {
    s is Requesting || s is Waiting
}

/// The state after polling the promise in state `s` with `waker`. A waker already
/// registered is kept.
pub open spec fn after_poll<T>(s: PromiseState<T>, waker: Waker) -> PromiseState<T> {
    match s {
        PromiseState::Requesting => PromiseState::Waiting(waker),
        PromiseState::Kept(_) => PromiseState::Fulfilled,
        _ => s,
    }
}

/// What awaiting the promise yields when it is polled in state `s`.
pub open spec fn poll_output<T>(s: PromiseState<T>) -> Poll<Result<T, Errno>> {
    match s {
        PromiseState::Kept(res) => Poll::Ready(res),
        _ => Poll::Pending,
    }
}

/// The waker to wake when the promise in state `s` is kept.
pub open spec fn waker_to_wake<T>(s: PromiseState<T>) -> Option<Waker> {
    match s {
        PromiseState::Waiting(w) => Some(w),
        _ => None,
    }
}

impl<T> PromiseState<T> {
    /// Returns the initial state.
    pub fn new() -> (s: Self)
        ensures
            s is Empty,
    {
        PromiseState::Empty
    }

    /// Polls the state of the operation, advancing to the next state if possible, and
    /// returns the state it was in (with a clone of the registered waker while waiting).
    ///
    /// Polling before the operation is requested, or after its result was received, is
    /// refused by the precondition (the operation panics on it).
    pub fn poll(&mut self, waker: Waker) -> (prev: Self)
        requires
            pollable(*old(self)),
        ensures
            *final(self) == after_poll(*old(self), waker),
            *old(self) is Requesting ==> prev is Requesting,
            *old(self) is Waiting ==> prev is Waiting,
            *old(self) is Kept ==> prev == *old(self),
    {
        match self {
            PromiseState::Requesting => {
                let mut prev = PromiseState::Waiting(waker);
                std::mem::swap(self, &mut prev);
                prev
            },
            PromiseState::Waiting(w) => PromiseState::Waiting(clone_waker(w)),
            _ => {
                let mut prev = PromiseState::Fulfilled;
                std::mem::swap(self, &mut prev);
                prev
            },
        }
    }

    /// Sets the state of the operation to `Requesting`.
    ///
    /// Requesting twice is refused by the precondition (the operation panics on it).
    pub fn set_requesting(&mut self)
        requires
            *old(self) is Empty,
        ensures
            *final(self) is Requesting,
    {
        *self = PromiseState::Requesting;
    }

    /// Sets the state and result of the operation to `Kept`, and returns the state it was
    /// in.
    ///
    /// Keeping a promise that was not requested, or was kept already, is refused by the
    /// precondition (the operation panics on it).
    pub fn set_kept(&mut self, res: Result<T, Errno>) -> (prev: Self)
        requires
            keepable(*old(self)),
        ensures
            *final(self) == PromiseState::Kept(res),
            prev == *old(self),
    {
        let mut prev = PromiseState::Kept(res);
        std::mem::swap(self, &mut prev);
        prev
    }
}

/// Polls a promise on behalf of the task awaiting it: advances the state and returns what
/// the await yields.
pub fn poll_promise<T>(state: &mut PromiseState<T>, waker: Waker) -> (p: Poll<Result<T, Errno>>)
    requires
        pollable(*old(state)),
    ensures
        *final(state) == after_poll(*old(state), waker),
        p == poll_output(*old(state)),
{
    let prev = state.poll(waker);
    match prev {
        PromiseState::Kept(res) => Poll::Ready(res),
        _ => Poll::Pending,
    }
}

/// Keeps a promise with the result `res`, and hands back the waker that the awaiting task
/// registered, if it registered one, which the caller wakes.
pub fn keep<T>(state: &mut PromiseState<T>, res: Result<T, Errno>) -> (w: Option<Waker>)
    requires
        keepable(*old(state)),
    ensures
        *final(state) == PromiseState::Kept(res),
        w == waker_to_wake(*old(state)),
{
    let prev = state.set_kept(res);
    match prev {
        PromiseState::Waiting(w) => Some(w),
        _ => None,
    }
}

/// Records the outcome of the function that starts the operation: a result it returns
/// at once keeps the promise. The promise must still be requesting: a start function that
/// returns a result after a callback kept the promise makes the operation panic.
pub fn finish_request<T>(state: &mut PromiseState<T>, outcome: Poll<Result<T, Errno>>)
    requires
        *old(state) is Requesting || outcome is Pending,
        *old(state) is Requesting || *old(state) is Waiting || *old(state) is Kept,
    ensures
        outcome matches Poll::Ready(res) ==> *final(state) == PromiseState::Kept(res),
        outcome is Pending ==> *final(state) == *old(state),
{
    match outcome {
        Poll::Ready(res) => {
            let _prev = state.set_kept(res);
        },
        Poll::Pending => {},
    }
}

/// A promise kept before the awaiting task polls it yields the result on the first poll,
/// and is then fulfilled.
pub proof fn lemma_kept_before_poll<T>(res: Result<T, Errno>, waker: Waker)
    ensures
        poll_output(PromiseState::<T>::Kept(res)) == Poll::Ready(res),
        after_poll(PromiseState::<T>::Kept(res), waker) is Fulfilled,
{
}

/// A promise polled while requesting registers the waker, stays pending, and wakes that
/// waker when it is kept; the next poll yields the result.
pub proof fn lemma_kept_after_poll<T>(waker: Waker, res: Result<T, Errno>, waker2: Waker)
    ensures
        poll_output(PromiseState::<T>::Requesting) is Pending,
        after_poll(PromiseState::<T>::Requesting, waker) == PromiseState::<T>::Waiting(waker),
        waker_to_wake(after_poll(PromiseState::<T>::Requesting, waker)) == Some(waker),
        poll_output(PromiseState::<T>::Kept(res)) == Poll::Ready(res),
        after_poll(PromiseState::<T>::Kept(res), waker2) is Fulfilled,
{
}

/// Polling a promise never skips past its result: a promise is fulfilled only by a poll
/// that yields the result it was kept with.
pub proof fn lemma_fulfilled_only_by_kept<T>(s: PromiseState<T>, waker: Waker)
    requires
        pollable(s),
    ensures
        after_poll(s, waker) is Fulfilled <==> s is Kept,
        s matches PromiseState::Kept(res) ==> poll_output(s) == Poll::Ready(res),
        !(s is Kept) ==> poll_output(s) is Pending,
{
}

} // verus!
