//! Asynchronous socket address lookup: the result codes of the name lookup library and the
//! state of a lookup in progress.
use vstd::prelude::*;

use std::task::Waker;

use crate::task::Poll;

verus! {

/// The error type for `getaddrinfo`, `getaddrinfo_a` and related asynchronous network
/// library calls.
#[derive(Clone, Copy, Debug, PartialEq, Eq, Structural)]
pub struct Error(pub i32);

/// Invalid value for the flags.
pub const EAI_BADFLAGS: i32 = -1;
/// The name is not known.
pub const EAI_NONAME: i32 = -2;
/// A temporary failure in name resolution.
pub const EAI_AGAIN: i32 = -3;
/// A non-recoverable failure in name resolution.
pub const EAI_FAIL: i32 = -4;
/// No address is associated with the name.
pub const EAI_NODATA: i32 = -5;
/// The address family is not supported.
pub const EAI_FAMILY: i32 = -6;
/// The socket type is not supported.
pub const EAI_SOCKTYPE: i32 = -7;
/// The service is not supported for the socket type.
pub const EAI_SERVICE: i32 = -8;
/// The address family of the name is not supported.
pub const EAI_ADDRFAMILY: i32 = -9;
/// Memory allocation failure.
pub const EAI_MEMORY: i32 = -10;
/// A system error; see `errno`.
pub const EAI_SYSTEM: i32 = -11;
/// The lookup is still in progress.
pub const EAI_INPROGRESS: i32 = -100;

/// Converts the return value from a `getaddrinfo` family function into a `Result`.
pub fn eai_to_result(rc: i32) -> (r: Result<(), Error>)
    ensures
        rc == 0 ==> r is Ok,
        rc != 0 ==> r == Err::<(), Error>(Error(rc)),
{
    if rc == 0 {
        Ok(())
    } else {
        Err(Error(rc))
    }
}

/// Whether a lookup whose status code is `rc` is done, successfully or not.
pub open spec fn lookup_done(rc: i32) -> bool {
    rc != EAI_INPROGRESS
}

/// Whether the asynchronous lookup whose status code (from `gai_error`) is `rc` is done.
pub fn is_ready(rc: i32) -> (b: bool)
    ensures
        b == lookup_done(rc),
        b <==> rc != EAI_INPROGRESS,
{
    !(rc == EAI_INPROGRESS)
}

/// The outcome of a lookup given its status code (from `gai_error`): `Ok(true)` when it
/// completed successfully, `Ok(false)` while it is in progress, and the error otherwise.
pub fn poll_result(rc: i32) -> (r: Result<bool, Error>)
    ensures
        rc == 0 ==> r == Ok::<bool, Error>(true),
        rc == EAI_INPROGRESS ==> r == Ok::<bool, Error>(false),
        rc != 0 && rc != EAI_INPROGRESS ==> r == Err::<bool, Error>(Error(rc)),
{
    match eai_to_result(rc) {
        Ok(()) => Ok(true),
        Err(e) => if e.0 == EAI_INPROGRESS {
            Ok(false)
        } else {
            Err(e)
        },
    }
}

/// The state of an asynchronous socket address lookup operation.
pub enum ResolverState {
    /// The resolver has been newly created and no lookup has been started.
    Idle,
    /// A lookup is in progress, with the [`Waker`] to notify on completion.
    Resolving(Waker),
    /// The lookup has completed and the pending waker is being awakened.
    Waking,
    /// The lookup is complete.
    Complete,
}

impl ResolverState {
    /// Polls the state of the resolver on behalf of the awaiting task: registers `waker`
    /// and returns the state it was in.
    ///
    /// Polling a complete lookup is refused by the precondition (the operation panics on
    /// it).
    pub fn poll(&mut self, waker: Waker) -> (prev: Self)
        requires
            !(*old(self) is Complete),
        ensures
            prev == *old(self),
            *final(self) == ResolverState::Resolving(waker),
    {
        let mut prev = ResolverState::Resolving(waker);
        std::mem::swap(self, &mut prev);
        prev
    }

    /// Sets the state to `Waking` and returns the [`Waker`] to wake.
    ///
    /// Only a lookup in progress can be woken; otherwise the operation panics, which the
    /// precondition refuses.
    pub fn set_waking(&mut self) -> (w: Waker)
        requires
            *old(self) is Resolving,
        ensures
            *final(self) is Waking,
            *old(self) == ResolverState::Resolving(w),
    {
        let mut prev = ResolverState::Waking;
        std::mem::swap(self, &mut prev);
        match prev {
            ResolverState::Resolving(w) => w,
            _ => vstd::pervasive::unreached(),
        }
    }

    /// Sets the state to `Complete`.
    pub fn set_complete(&mut self)
        ensures
            *final(self) is Complete,
    {
        *self = ResolverState::Complete;
    }
}

/// What the awaiting task does next after polling the resolver in a given state.
#[derive(Debug, PartialEq, Eq, Structural)]
pub enum ResolverStep {
    /// Start the lookup, then pass its return code to [`finish_start`].
    Start,
    /// Keep waiting.
    Wait,
    /// Query the lookup's status, then pass it to [`finish_check`].
    Check,
}

/// The step that follows a poll that found the resolver in state `s`.
pub open spec fn step_for(s: ResolverState) -> ResolverStep {
    match s {
        ResolverState::Idle => ResolverStep::Start,
        ResolverState::Waking => ResolverStep::Check,
        _ => ResolverStep::Wait,
    }
}

/// The waker the poller wakes when the lookup finishes in state `s`.
pub open spec fn waker_of(s: ResolverState) -> Option<Waker> {
    match s {
        ResolverState::Resolving(w) => Some(w),
        _ => None,
    }
}

/// The state after the poller sees the status code `rc` in state `s`, and the waker it
/// wakes.
pub open spec fn after_tick(s: ResolverState, rc: i32) -> (ResolverState, Option<Waker>) {
    if lookup_done(rc) {
        (ResolverState::Waking, waker_of(s))
    } else {
        (s, None)
    }
}

/// The state after the `Check` step sees the status code `rc` in state `s`, and what the
/// poll returns.
pub open spec fn after_check(s: ResolverState, rc: i32) -> (ResolverState, Poll<Result<(), Error>>) {
    if rc == EAI_INPROGRESS {
        (s, Poll::Pending)
    } else if rc == 0 {
        (ResolverState::Complete, Poll::Ready(Ok(())))
    } else {
        (ResolverState::Complete, Poll::Ready(Err(Error(rc))))
    }
}

/// Polls a lookup on behalf of the awaiting task: registers `waker` and says what to do.
pub fn begin_poll(state: &mut ResolverState, waker: Waker) -> (step: ResolverStep)
    requires
        !(*old(state) is Complete),
    ensures
        *final(state) == ResolverState::Resolving(waker),
        step == step_for(*old(state)),
{
    let prev = state.poll(waker);
    match prev {
        ResolverState::Idle => ResolverStep::Start,
        ResolverState::Waking => ResolverStep::Check,
        _ => ResolverStep::Wait,
    }
}

/// Completes the `Start` step given the return code of the call that started the lookup:
/// a failure to start is the result of the lookup; otherwise the lookup is pending.
pub fn finish_start(rc: i32) -> (p: Poll<Result<(), Error>>)
    ensures
        rc == 0 ==> p is Pending,
        rc != 0 ==> p == Poll::Ready(Err::<(), Error>(Error(rc))),
{
    match eai_to_result(rc) {
        Ok(()) => Poll::Pending,
        Err(e) => Poll::Ready(Err(e)),
    }
}

/// Completes the `Check` step given the lookup's status code: a finished lookup completes
/// the resolver with its outcome; one still in progress stays pending.
pub fn finish_check(state: &mut ResolverState, rc: i32) -> (p: Poll<Result<(), Error>>)
    ensures
        (*final(state), p) == after_check(*old(state), rc),
{
    match poll_result(rc) {
        Ok(true) => {
            state.set_complete();
            Poll::Ready(Ok(()))
        },
        Ok(false) => Poll::Pending,
        Err(e) => {
            state.set_complete();
            Poll::Ready(Err(e))
        },
    }
}

/// Called by the poller with the lookup's status code: when the lookup is done, moves to
/// `Waking` and hands back the awaiting task's waker, which the caller wakes. Work was done
/// exactly when a waker is handed back.
///
/// The awaiting task must have polled the resolver before the lookup is done; otherwise
/// the operation panics, which the precondition refuses.
pub fn poller_tick(state: &mut ResolverState, rc: i32) -> (w: Option<Waker>)
    requires
        lookup_done(rc) ==> *old(state) is Resolving,
    ensures
        (*final(state), w) == after_tick(*old(state), rc),
        w is Some <==> lookup_done(rc),
        rc != EAI_INPROGRESS ==> *final(state) is Waking && w == waker_of(*old(state)),
        rc == EAI_INPROGRESS ==> *final(state) == *old(state) && w is None,
{
    if is_ready(rc) {
        let w = state.set_waking();
        return Some(w);
    }
    None
}

/// A lookup runs to completion as its states say: the poll that starts it registers the
/// awaiting task's waker; when the lookup is done the poller wakes exactly that waker; the
/// poll that follows checks the outcome and completes the resolver with it.
pub proof fn lemma_lookup_completes(waker: Waker, waker2: Waker, rc: i32)
    requires
        lookup_done(rc),
    ensures
        step_for(ResolverState::Idle) == ResolverStep::Start,
        after_tick(ResolverState::Resolving(waker), rc) == (ResolverState::Waking, Some(waker)),
        step_for(after_tick(ResolverState::Resolving(waker), rc).0) == ResolverStep::Check,
        after_check(ResolverState::Resolving(waker2), rc).0 is Complete,
        rc == 0 ==> after_check(ResolverState::Resolving(waker2), rc).1 == Poll::Ready(
            Ok::<(), Error>(()),
        ),
        rc != 0 ==> after_check(ResolverState::Resolving(waker2), rc).1 == Poll::Ready(
            Err::<(), Error>(Error(rc)),
        ),
{
}

/// Every status other than "in progress" ends the lookup, success and every error alike:
/// the poller hands back the awaiting task's waker, and the poll that follows completes the
/// resolver with success for a zero status and with the status as the error otherwise.
pub proof fn lemma_every_other_status_ends_lookup(waker: Waker, waker2: Waker, rc: i32)
    requires
        rc != EAI_INPROGRESS,
    ensures
        lookup_done(rc),
        after_tick(ResolverState::Resolving(waker), rc) == (ResolverState::Waking, Some(waker)),
        after_check(ResolverState::Resolving(waker2), rc).0 is Complete,
        rc == 0 ==> after_check(ResolverState::Resolving(waker2), rc).1 == Poll::Ready(
            Ok::<(), Error>(()),
        ),
        rc != 0 ==> after_check(ResolverState::Resolving(waker2), rc).1 == Poll::Ready(
            Err::<(), Error>(Error(rc)),
        ),
{
}

/// While the lookup is in progress the poller wakes no one and every poll waits.
pub proof fn lemma_in_progress_waits(s: ResolverState, waker: Waker)
    ensures
        after_tick(s, EAI_INPROGRESS) == (s, None::<Waker>),
        after_check(s, EAI_INPROGRESS) == (s, Poll::<Result<(), Error>>::Pending),
        step_for(ResolverState::Resolving(waker)) == ResolverStep::Wait,
{
}

} // verus!
