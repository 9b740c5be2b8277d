//! The dedicated CPU cores of the runtime.
use vstd::prelude::*;

verus! {

/// The core identifier the environment reports for a thread that is not on a dedicated
/// core, and that ends the list of cores.
pub const SPDK_ENV_LCORE_ID_ANY: u32 = u32::MAX;

/// Represents a dedicated CPU core for this runtime.
#[derive(Clone, Copy, Debug, PartialEq, Eq, Structural)]
pub struct CpuCore(u32);

impl CpuCore {
    /// The identifier of this core.
    pub closed spec fn spec_id(&self) -> u32 {
        self.0
    }

    /// Tries to return the current CPU core, given the core identifier the environment
    /// reports for the current thread.
    ///
    /// Returns `Some(c)` when the current thread is on a dedicated core, and `None` when
    /// the environment reports [`SPDK_ENV_LCORE_ID_ANY`].
    pub fn try_current(current_core: u32) -> (c: Option<Self>)
        ensures
            current_core != SPDK_ENV_LCORE_ID_ANY ==> (c matches Some(k) && k.spec_id()
                == current_core),
            current_core == SPDK_ENV_LCORE_ID_ANY ==> c is None,
    {
        if current_core != SPDK_ENV_LCORE_ID_ANY {
            Some(CpuCore(current_core))
        } else {
            None
        }
    }

    /// Returns the current CPU core, given the core identifier the environment reports
    /// for the current thread.
    ///
    /// The current thread must be on a dedicated core; the operation panics otherwise,
    /// which the precondition refuses.
    pub fn current(current_core: u32) -> (c: Self)
        requires
            current_core != SPDK_ENV_LCORE_ID_ANY,
        ensures
            c.spec_id() == current_core,
    {
        match Self::try_current(current_core) {
            Some(c) => c,
            None => vstd::pervasive::unreached(),
        }
    }

    /// The core with the identifier `id`, one the environment reported.
    pub(crate) fn with_id(id: u32) -> (c: Self)
        ensures
            c.spec_id() == id,
    {
        CpuCore(id)
    }

    /// Returns the main core, given the identifier the environment reports for it.
    pub fn main(main_core: u32) -> (c: Self)
        ensures
            c.spec_id() == main_core,
    {
        CpuCore(main_core)
    }

    /// Returns the ID of this CPU core.
    pub fn id(&self) -> (id: u32)
        ensures
            id == self.spec_id(),
    {
        self.0
    }
}

impl From<CpuCore> for u32 {
    /// The identifier of the core.
    fn from(cpu_core: CpuCore) -> (id: u32) {
        cpu_core.0
    }
}

impl vstd::std_specs::convert::FromSpecImpl<CpuCore> for u32 {
    open spec fn obeys_from_spec() -> bool {
        true
    }

    open spec fn from_spec(cpu_core: CpuCore) -> u32 {
        cpu_core.spec_id()
    }
}

/// A core is its identifier: two cores with the same identifier are the same core.
pub proof fn lemma_core_is_its_id(a: CpuCore, b: CpuCore)
    ensures
        a.spec_id() == b.spec_id() <==> a == b,
{
}

/// An iterator over the dedicated CPU cores for this runtime.
pub struct CpuCores(u32);

impl CpuCores {
    /// The identifier of the next core to yield, or [`SPDK_ENV_LCORE_ID_ANY`] at the end.
    pub closed spec fn cursor(&self) -> u32 {
        self.0
    }

    /// Starts the iteration at the first core the environment reports.
    pub fn new(first_core: u32) -> (it: Self)
        ensures
            it.cursor() == first_core,
    {
        CpuCores(first_core)
    }

    /// Returns the core the iteration yields next, or `None` when it is over.
    pub fn peek(&self) -> (c: Option<CpuCore>)
        ensures
            self.cursor() == SPDK_ENV_LCORE_ID_ANY ==> c is None,
            self.cursor() != SPDK_ENV_LCORE_ID_ANY ==> (c matches Some(k) && k.spec_id()
                == self.cursor()),
    {
        if self.0 == SPDK_ENV_LCORE_ID_ANY {
            None
        } else {
            Some(CpuCore(self.0))
        }
    }

    /// Yields the next core, moving on to `following`, the core the environment reports
    /// after it. Returns `None`, and stays at the end, when the iteration is over.
    pub fn next(&mut self, following: u32) -> (c: Option<CpuCore>)
        ensures
            old(self).cursor() == SPDK_ENV_LCORE_ID_ANY ==> c is None && final(self).cursor()
                == SPDK_ENV_LCORE_ID_ANY,
            old(self).cursor() != SPDK_ENV_LCORE_ID_ANY ==> (c matches Some(k) && k.spec_id()
                == old(self).cursor() && final(self).cursor() == following),
    {
        if self.0 == SPDK_ENV_LCORE_ID_ANY {
            None
        } else {
            let current = self.0;
            self.0 = following;
            Some(CpuCore(current))
        }
    }
}

} // verus!
