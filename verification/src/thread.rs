//! The decisions of the loop that runs a future to completion on the current thread.
use vstd::prelude::*;

verus! {

/// What running a future to completion on the current thread does next, once it has
/// looked for the future's output.
pub enum BlockOnStep<T> {
    /// The output has arrived: return it.
    Return(T),
    /// The output has not arrived yet: poll the current thread once more, then look again.
    PollThread,
}

/// Decides the next step of running a future to completion on the current thread, given
/// what looking for its output gave: the output when it has arrived, `None` when it has
/// not.
pub fn block_on_step<T>(received: Option<T>) -> (s: BlockOnStep<T>)
    ensures
        received matches Some(r) ==> s matches BlockOnStep::Return(v) && v == r,
        received is None ==> s is PollThread,
{
    match received {
        Some(r) => BlockOnStep::Return(r),
        None => BlockOnStep::PollThread,
    }
}

} // verus!
