//! Reactors: event loops bound to the dedicated CPU cores.
use vstd::prelude::*;

use super::cpu_core::{lemma_core_is_its_id, CpuCore, SPDK_ENV_LCORE_ID_ANY};

verus! {

/// Represents an event loop running in an OS thread bound to a dedicated CPU core that
/// drives execution of asynchronous tasks.
#[derive(Clone, Copy, Debug, PartialEq, Eq, Structural)]
pub struct Reactor(CpuCore);

impl Reactor {
    /// The core this reactor is bound to.
    pub closed spec fn spec_core(&self) -> CpuCore {
        self.0
    }

    /// Creates the reactor bound to `core`.
    pub fn new(cpu: CpuCore) -> (r: Self)
        ensures
            r.spec_core() == cpu,
    {
        Reactor(cpu)
    }

    /// Tries to return the current reactor, given the core identifier the environment
    /// reports for the current thread: `Some` when the thread runs a reactor, `None`
    /// otherwise.
    pub fn try_current(current_core: u32) -> (r: Option<Self>)
        ensures
            current_core != SPDK_ENV_LCORE_ID_ANY ==> (r matches Some(reactor)
                && reactor.spec_core().spec_id() == current_core),
            current_core == SPDK_ENV_LCORE_ID_ANY ==> r is None,
    {
        match CpuCore::try_current(current_core) {
            Some(c) => Some(Reactor(c)),
            None => None,
        }
    }

    /// Returns the current reactor, given the core identifier the environment reports for
    /// the current thread.
    ///
    /// The current thread must run a reactor; the operation panics otherwise, which the
    /// precondition refuses.
    pub fn current(current_core: u32) -> (r: Self)
        requires
            current_core != SPDK_ENV_LCORE_ID_ANY,
        ensures
            r.spec_core().spec_id() == current_core,
    {
        match Self::try_current(current_core) {
            Some(r) => r,
            None => vstd::pervasive::unreached(),
        }
    }

    /// Returns whether this reactor is the current reactor, given the core identifier the
    /// environment reports for the current thread.
    pub fn is_current(&self, current_core: u32) -> (b: bool)
        ensures
            b == (current_core != SPDK_ENV_LCORE_ID_ANY && self.spec_core().spec_id()
                == current_core),
    {
        match Self::try_current(current_core) {
            Some(r) => r.0.id() == self.0.id(),
            None => false,
        }
    }

    /// Returns the main reactor, given the identifier the environment reports for the
    /// main core.
    pub fn main(main_core: u32) -> (r: Self)
        ensures
            r.spec_core().spec_id() == main_core,
    {
        Reactor(CpuCore::main(main_core))
    }

    /// Returns the dedicated CPU core this reactor is bound to.
    pub fn cpu_core(&self) -> (c: CpuCore)
        ensures
            c == self.spec_core(),
    {
        self.0
    }
}

/// A reactor is its core: two reactors bound to the same core, or to cores with the same
/// identifier, are the same reactor.
pub proof fn lemma_reactor_is_its_core(a: Reactor, b: Reactor)
    ensures
        a.spec_core() == b.spec_core() <==> a == b,
        a.spec_core().spec_id() == b.spec_core().spec_id() <==> a == b,
{
    lemma_core_is_its_id(a.spec_core(), b.spec_core());
}

/// Returns the reactors for this runtime, one for each of the dedicated CPU cores whose
/// identifiers the environment reports, in the order it reports them.
pub fn reactors(core_ids: &Vec<u32>) -> (r: Vec<Reactor>)
    ensures
        r@.len() == core_ids@.len(),
        forall|i: int| 0 <= i < r@.len() ==> (#[trigger] r@[i]).spec_core().spec_id() == core_ids@[i],
{
    let mut r: Vec<Reactor> = Vec::new();
    let mut i: usize = 0;
    while i < core_ids.len()
        invariant
            i <= core_ids@.len(),
            r@.len() == i,
            forall|k: int| 0 <= k < i ==> (#[trigger] r@[k]).spec_core().spec_id() == core_ids@[k],
        decreases core_ids@.len() - i,
    {
        r.push(Reactor(CpuCore::with_id(core_ids[i])));
        i = i + 1;
    }
    r
}

} // verus!
