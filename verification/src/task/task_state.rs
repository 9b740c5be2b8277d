//! The execution state of a task that drives a future.
use vstd::prelude::*;

verus! {

/// Encapsulates the execution state of a task.
///
/// ```text
/// Pending --> Polling : poll()
/// Polling --> Polling : poll()
/// Polling --> Pending : mark_pending()
/// Polling --> Done : mark_done()
/// ```
#[derive(Debug, PartialEq, Eq, Structural)]
pub enum TaskState {
    /// The task is pending execution.
    Pending,
    /// The task is currently being polled.
    Polling,
    /// The task has completed execution.
    Done,
}

/// The state after a run of the task starts in state `s`, and whether the run polls the
/// future.
pub open spec fn after_begin_run(s: TaskState) -> (TaskState, bool) {
    (TaskState::Polling, s is Pending)
}

/// The state after a run that polled the future ends, given whether the future completed.
pub open spec fn after_end_run(completed: bool) -> TaskState {
    if completed {
        TaskState::Done
    } else {
        TaskState::Pending
    }
}

impl TaskState {
    /// Returns the state of a new task.
    pub fn new() -> (s: Self)
        ensures
            s is Pending,
    {
        TaskState::Pending
    }

    /// Polls the state of the task, advancing to the next state if possible, and returns
    /// the state it was in.
    ///
    /// Polling a task that is done is refused by the precondition (the operation panics on
    /// it).
    pub fn poll(&mut self) -> (prev: Self)
        requires
            !(*old(self) is Done),
        ensures
            prev == *old(self),
            *final(self) is Polling,
    {
        match self {
            TaskState::Pending => {
                *self = TaskState::Polling;
                TaskState::Pending
            },
            _ => TaskState::Polling,
        }
    }

    /// Marks the task state as pending.
    ///
    /// Marking a task that is not being polled is refused by the precondition (the
    /// operation panics on it).
    pub fn mark_pending(&mut self)
        requires
            *old(self) is Polling,
        ensures
            *final(self) is Pending,
    {
        *self = TaskState::Pending;
    }

    /// Marks the task state as done.
    ///
    /// Marking a task that is not being polled is refused by the precondition (the
    /// operation panics on it).
    pub fn mark_done(&mut self)
        requires
            *old(self) is Polling,
        ensures
            *final(self) is Done,
    {
        *self = TaskState::Done;
    }

    /// Starts a run of the task: returns `true` when its future is to be polled now, and
    /// `false` when the task is already being polled and must be run again later.
    pub fn begin_run(&mut self) -> (poll_now: bool)
        requires
            !(*old(self) is Done),
        ensures
            (*final(self), poll_now) == after_begin_run(*old(self)),
    {
        let prev = self.poll();
        match prev {
            TaskState::Pending => true,
            _ => false,
        }
    }

    /// Ends a run in which the future was polled: the task is done when the future
    /// completed, and pending otherwise.
    pub fn end_run(&mut self, completed: bool)
        requires
            *old(self) is Polling,
        ensures
            *final(self) == after_end_run(completed),
    {
        if completed {
            self.mark_done();
        } else {
            self.mark_pending();
        }
    }
}

/// A future is never polled re-entrantly: a run that starts while another run is polling
/// the future does not poll it, and leaves the task being polled.
pub proof fn lemma_no_reentrant_poll(s: TaskState)
    requires
        !(s is Done),
    ensures
        after_begin_run(after_begin_run(s).0) == (TaskState::Polling, false),
{
}

/// A task is done only after a run whose future completed; a run whose future is still
/// pending leaves the task ready to be run again, and the next run polls the future.
pub proof fn lemma_done_only_on_completion(completed: bool)
    ensures
        after_end_run(completed) is Done <==> completed,
        !completed ==> after_begin_run(after_end_run(completed)).1,
{
}

} // verus!
