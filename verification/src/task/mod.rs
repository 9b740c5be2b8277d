//! Asynchronous task management: the states of tasks, promises and their results.
use vstd::prelude::*;

pub mod promise;
pub mod result_state;
pub mod task_state;
pub mod yield_now;

verus! {

/// Declares std's `Waker` so that task states can hold one; its contents are opaque.
#[verifier::external_type_specification]
#[verifier::external_body]
pub struct ExWaker(std::task::Waker);

/// The outcome of polling: ready with a value, or pending.
#[derive(Debug)]
pub enum Poll<T> {
    /// The value is ready.
    Ready(T),
    /// The value is not yet available.
    Pending,
}

/// Returns a new [`Waker`] for the same task as `waker` (std's `Waker::clone`). Nothing is
/// claimed of the returned value beyond its type.
#[verifier::external_body]
pub fn clone_waker(waker: &std::task::Waker) -> std::task::Waker {
    waker.clone()
}

/// The value a poller function returns when it did work.
pub const SPDK_POLLER_BUSY: i32 = 1;
/// The value a poller function returns when it did no work.
pub const SPDK_POLLER_IDLE: i32 = 0;

/// The value a poller function returns for a poll that did work (`busy`) or none.
pub fn poller_status(busy: bool) -> (rc: i32)
    ensures
        busy ==> rc == SPDK_POLLER_BUSY,
        !busy ==> rc == SPDK_POLLER_IDLE,
{
    if busy {
        SPDK_POLLER_BUSY
    } else {
        SPDK_POLLER_IDLE
    }
}

/// A trait for types that can be polled by a poller.
pub trait Polled {
    /// Whether the type may be polled in its present state.
    spec fn can_poll(&self) -> bool;

    /// Polls the type. Returns `true` if work was done on this invocation, `false`
    /// otherwise.
    fn poll(&mut self) -> bool
        requires
            old(self).can_poll(),
    ;
}

/// A newtype that enables a function to be called by a poller.
pub struct PolledFn<T: FnMut() -> bool>(pub T);

impl<T: FnMut() -> bool> Polled for PolledFn<T> {
    /// The function may be called when its precondition holds.
    open spec fn can_poll(&self) -> bool {
        call_requires(self.0, ())
    }

    /// Calls the function; returns what it returns.
    fn poll(&mut self) -> (busy: bool)
        ensures
            call_ensures(old(self).0, (), busy),
    {
        (self.0)()
    }
}

} // verus!
