//! The readiness state of TCP sockets: the waker of the task awaiting a socket, and how
//! the result of a socket operation turns into the result of a poll.
use vstd::prelude::*;

use std::task::Waker;

use crate::errors::{Errno, EAGAIN, EINPROGRESS, SUCCESS};
use crate::task::Poll;

verus! {

/// The result of a socket call that returns a byte count: a non-negative count is
/// success, and a negative one reports the error number `err` that the call left behind.
pub fn to_result_size(rc: isize, err: Errno) -> (r: Result<usize, Errno>)
    ensures
        rc >= 0 ==> r == Ok::<usize, Errno>(rc as usize),
        rc < 0 ==> r == Err::<usize, Errno>(err),
{
    if rc >= 0 {
        Ok(rc as usize)
    } else {
        Err(err)
    }
}

/// What a poll of a socket operation returns given the operation's result: a result that
/// would block (`EAGAIN`) is pending, anything else is ready.
pub open spec fn io_poll<T>(res: Result<T, Errno>) -> Poll<Result<T, Errno>> {
    match res {
        Err(e) => if e == Errno(EAGAIN) {
            Poll::Pending
        } else {
            Poll::Ready(Err(e))
        },
        Ok(v) => Poll::Ready(Ok(v)),
    }
}

/// The readiness state of a TCP stream socket: the waker of the task awaiting an I/O
/// operation, and the status of the connection.
pub struct StreamState {
    waker: Option<Waker>,
    conn_status: Errno,
}

impl StreamState {
    /// The waker of the task awaiting the socket, if any.
    pub closed spec fn registered(&self) -> Option<Waker> {
        self.waker
    }

    /// The status of the connection.
    pub closed spec fn status(&self) -> Errno {
        self.conn_status
    }

    /// The state of a socket that is connected (accepted by a listener).
    pub fn new() -> (s: Self)
        ensures
            s.registered() is None,
            s.status() == Errno(SUCCESS),
    {
        StreamState { waker: None, conn_status: Errno(SUCCESS) }
    }

    /// The state of a socket whose outgoing connection is in progress.
    pub fn connecting() -> (s: Self)
        ensures
            s.registered() is None,
            s.status() == Errno(EINPROGRESS),
    {
        StreamState { waker: None, conn_status: Errno(EINPROGRESS) }
    }

    /// Records the completion of an outgoing connection with `status` (zero or a negated
    /// error number), and hands back the awaiting task's waker, if any, which the caller
    /// wakes.
    pub fn connect_complete(&mut self, status: i32) -> (w: Option<Waker>)
        requires
            status != i32::MIN,
        ensures
            final(self).status() == Errno(-status as i32),
            final(self).registered() is None,
            w == old(self).registered(),
    {
        self.conn_status = Errno::new(-status);
        self.waker.take()
    }

    /// Polls the connection given the result of flushing the socket: connected when the
    /// flush succeeds, pending (with `waker` registered) while it would block, and failed
    /// with the connection status otherwise.
    pub fn poll_connected(&mut self, flush: Result<(), Errno>, waker: Waker) -> (p: Poll<
        Result<(), Errno>,
    >)
        ensures
            flush is Ok ==> p == Poll::Ready(Ok::<(), Errno>(())) && *final(self) == *old(self),
            flush == Err::<(), Errno>(Errno(EAGAIN)) ==> p is Pending && final(self).registered()
                == Some(waker) && final(self).status() == old(self).status(),
            flush is Err && flush != Err::<(), Errno>(Errno(EAGAIN)) ==> p == Poll::Ready(
                Err::<(), Errno>(old(self).status()),
            ) && *final(self) == *old(self),
    {
        match flush {
            Ok(()) => Poll::Ready(Ok(())),
            Err(e) => if e.0 == EAGAIN {
                self.waker = Some(waker);
                Poll::Pending
            } else {
                Poll::Ready(Err(self.conn_status))
            },
        }
    }

    /// Polls a read or write given the result of the socket call: its result when it
    /// completed or failed, pending (with `waker` registered) when it would block.
    pub fn poll_io<T>(&mut self, res: Result<T, Errno>, waker: Waker) -> (p: Poll<Result<T, Errno>>)
        ensures
            p == io_poll(res),
            final(self).status() == old(self).status(),
            p is Pending ==> final(self).registered() == Some(waker),
            !(p is Pending) ==> *final(self) == *old(self),
    {
        match res {
            Ok(v) => Poll::Ready(Ok(v)),
            Err(e) => if e.0 == EAGAIN {
                self.waker = Some(waker);
                Poll::Pending
            } else {
                Poll::Ready(Err(e))
            },
        }
    }

    /// Handles an event notification for the socket, or a poll of it: hands back the
    /// awaiting task's waker, if any, which the caller wakes.
    pub fn handle_event(&mut self) -> (w: Option<Waker>)
        ensures
            w == old(self).registered(),
            final(self).registered() is None,
            final(self).status() == old(self).status(),
    {
        self.waker.take()
    }
}

/// The readiness state of a TCP listener socket: the waker of the task awaiting a
/// connection.
pub struct ListenerState {
    waker: Option<Waker>,
}

impl ListenerState {
    /// The waker of the task awaiting a connection, if any.
    pub closed spec fn registered(&self) -> Option<Waker> {
        self.waker
    }

    /// The state of a newly bound listener.
    pub fn new() -> (s: Self)
        ensures
            s.registered() is None,
    {
        ListenerState { waker: None }
    }

    /// Polls for an incoming connection given what the accept call returned: the
    /// accepted connection if there is one; otherwise pending (with `waker` registered)
    /// when the error number `err` says the call would block, and that error if not.
    pub fn poll_accept<A>(&mut self, accepted: Option<A>, err: Errno, waker: Waker) -> (p: Poll<
        Result<A, Errno>,
    >)
        ensures
            accepted matches Some(a) ==> p == Poll::Ready(Ok::<A, Errno>(a)) && *final(self)
                == *old(self),
            accepted is None && err == Errno(EAGAIN) ==> p is Pending && final(self).registered()
                == Some(waker),
            accepted is None && err != Errno(EAGAIN) ==> p == Poll::Ready(Err::<A, Errno>(err))
                && *final(self) == *old(self),
    {
        match accepted {
            Some(a) => Poll::Ready(Ok(a)),
            None => if err.0 == EAGAIN {
                self.waker = Some(waker);
                Poll::Pending
            } else {
                Poll::Ready(Err(err))
            },
        }
    }
}

impl ListenerState {
    /// Handles a poll of the listener: hands back the waker of the task awaiting a
    /// connection, if any, which the caller wakes.
    pub fn take_waker(&mut self) -> (w: Option<Waker>)
        ensures
            w == old(self).registered(),
            final(self).registered() is None,
    {
        self.waker.take()
    }
}

} // verus!
