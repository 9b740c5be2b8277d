//! Sets of CPUs, as the SPDK uses them to say where a thread may run.
use vstd::prelude::*;

verus! {

/// The number of CPUs a set can hold.
pub const SPDK_CPUSET_SIZE: u32 = 1024;

/// The number of `true` entries in `s`.
pub open spec fn count_true(s: Seq<bool>) -> nat
    decreases s.len(),
{
    if s.len() == 0 {
        0
    } else {
        count_true(s.drop_last()) + (if s.last() {
            1nat
        } else {
            0nat
        })
    }
}

/// The membership of the set with no CPU.
pub open spec fn no_cpus() -> Seq<bool> {
    Seq::new(SPDK_CPUSET_SIZE as nat, |i: int| false)
}

/// The membership of the complement of the set with membership `s`.
pub open spec fn negation(s: Seq<bool>) -> Seq<bool> {
    Seq::new(s.len(), |i: int| !s[i])
}

/// A set of CPUs: a membership flag for each of [`SPDK_CPUSET_SIZE`] CPUs.
#[derive(Clone, Copy, Debug)]
pub struct CpuSet {
    cpus: [bool; 1024],
}

impl View for CpuSet {
    type V = Seq<bool>;

    /// Entry `i` says whether CPU `i` is in the set.
    closed spec fn view(&self) -> Seq<bool> {
        self.cpus@
    }
}

/// Every CPU set holds a flag for each of [`SPDK_CPUSET_SIZE`] CPUs.
pub proof fn lemma_cpu_set_len(s: CpuSet)
    ensures
        s@.len() == SPDK_CPUSET_SIZE,
{
}

impl CpuSet {
    /// Creates a new empty CPU set.
    pub fn new() -> (s: Self)
        ensures
            s@ == no_cpus(),
    {
        let s = CpuSet { cpus: [false; 1024] };
        assert(s@ =~= no_cpus());
        s
    }

    /// Sets or clears the CPU state in the set.
    ///
    /// The CPU must be one the set can hold.
    pub fn set_cpu(&mut self, cpu: u32, enable: bool)
        requires
            cpu < SPDK_CPUSET_SIZE,
        ensures
            final(self)@ == old(self)@.update(cpu as int, enable),
    {
        self.cpus[cpu as usize] = enable;
    }

    /// Returns whether the CPU is in the set.
    ///
    /// The CPU must be one the set can hold.
    pub fn get_cpu(&self, cpu: u32) -> (b: bool)
        requires
            cpu < SPDK_CPUSET_SIZE,
        ensures
            b == self@[cpu as int],
    {
        self.cpus[cpu as usize]
    }

    /// Clears all CPUs in the set.
    pub fn clear(&mut self)
        ensures
            final(self)@ == no_cpus(),
    {
        self.cpus = [false; 1024];
        assert(self.cpus@ =~= no_cpus());
    }

    /// Returns the number of CPUs in the set.
    pub fn count(&self) -> (c: u32)
        ensures
            c == count_true(self@),
    {
        let mut c: u32 = 0;
        let mut i: usize = 0;
        while i < 1024
            invariant
                i <= 1024,
                self.cpus@.len() == 1024,
                c <= i,
                c == count_true(self.cpus@.subrange(0, i as int)),
            decreases 1024 - i,
        {
            assert(self.cpus@.subrange(0, i + 1).drop_last() =~= self.cpus@.subrange(0, i as int));
            if self.cpus[i] {
                c = c + 1;
            }
            i = i + 1;
        }
        assert(self.cpus@.subrange(0, 1024) =~= self.cpus@);
        c
    }

    /// Returns whether this set holds the same CPUs as `other`.
    pub fn equals(&self, other: &Self) -> (b: bool)
        ensures
            b == (self@ == other@),
    {
        let mut i: usize = 0;
        while i < 1024
            invariant
                i <= 1024,
                self.cpus@.len() == 1024,
                other.cpus@.len() == 1024,
                forall|k: int| 0 <= k < i ==> self.cpus@[k] == other.cpus@[k],
            decreases 1024 - i,
        {
            if self.cpus[i] != other.cpus[i] {
                assert(self@[i as int] != other@[i as int]);
                return false;
            }
            i = i + 1;
        }
        assert(self.cpus@ =~= other.cpus@);
        true
    }

    /// Keeps in this set only the CPUs that are also in `rhs`.
    pub fn bitand_assign(&mut self, rhs: Self)
        ensures
            final(self)@ == Seq::new(
                SPDK_CPUSET_SIZE as nat,
                |i: int| old(self)@[i] && rhs@[i],
            ),
    {
        let ghost start = self.cpus@;
        let mut i: usize = 0;
        while i < 1024
            invariant
                i <= 1024,
                start.len() == 1024,
                rhs.cpus@.len() == 1024,
                self.cpus@.len() == 1024,
                forall|k: int| 0 <= k < i ==> #[trigger] self.cpus@[k] == (start[k] && rhs.cpus@[k]),
                forall|k: int| i <= k < 1024 ==> #[trigger] self.cpus@[k] == start[k],
            decreases 1024 - i,
        {
            let a = self.cpus[i];
            let b = rhs.cpus[i];
            let v = a && b;
            self.cpus[i] = v;
            i = i + 1;
        }
        assert(self.cpus@ =~= Seq::new(
            SPDK_CPUSET_SIZE as nat,
            |i: int| start[i] && rhs.cpus@[i],
        ));
    }

    /// Adds to this set the CPUs that are in `rhs`.
    pub fn bitor_assign(&mut self, rhs: Self)
        ensures
            final(self)@ == Seq::new(
                SPDK_CPUSET_SIZE as nat,
                |i: int| old(self)@[i] || rhs@[i],
            ),
    {
        let ghost start = self.cpus@;
        let mut i: usize = 0;
        while i < 1024
            invariant
                i <= 1024,
                start.len() == 1024,
                rhs.cpus@.len() == 1024,
                self.cpus@.len() == 1024,
                forall|k: int| 0 <= k < i ==> #[trigger] self.cpus@[k] == (start[k] || rhs.cpus@[k]),
                forall|k: int| i <= k < 1024 ==> #[trigger] self.cpus@[k] == start[k],
            decreases 1024 - i,
        {
            let a = self.cpus[i];
            let b = rhs.cpus[i];
            let v = a || b;
            self.cpus[i] = v;
            i = i + 1;
        }
        assert(self.cpus@ =~= Seq::new(
            SPDK_CPUSET_SIZE as nat,
            |i: int| start[i] || rhs.cpus@[i],
        ));
    }

    /// Keeps in this set the CPUs that are in exactly one of this set and `rhs`.
    pub fn bitxor_assign(&mut self, rhs: Self)
        ensures
            final(self)@ == Seq::new(
                SPDK_CPUSET_SIZE as nat,
                |i: int| old(self)@[i] != rhs@[i],
            ),
    {
        let ghost start = self.cpus@;
        let mut i: usize = 0;
        while i < 1024
            invariant
                i <= 1024,
                start.len() == 1024,
                rhs.cpus@.len() == 1024,
                self.cpus@.len() == 1024,
                forall|k: int| 0 <= k < i ==> #[trigger] self.cpus@[k] == (start[k] != rhs.cpus@[k]),
                forall|k: int| i <= k < 1024 ==> #[trigger] self.cpus@[k] == start[k],
            decreases 1024 - i,
        {
            let a = self.cpus[i];
            let b = rhs.cpus[i];
            let v = a != b;
            self.cpus[i] = v;
            i = i + 1;
        }
        assert(self.cpus@ =~= Seq::new(
            SPDK_CPUSET_SIZE as nat,
            |i: int| start[i] != rhs.cpus@[i],
        ));
    }

    /// Returns the set of the CPUs that are not in this set.
    pub fn not(self) -> (r: Self)
        ensures
            r@ == negation(self@),
    {
        let mut r = self;
        let mut i: usize = 0;
        while i < 1024
            invariant
                i <= 1024,
                self.cpus@.len() == 1024,
                r.cpus@.len() == 1024,
                forall|k: int| 0 <= k < i ==> r.cpus@[k] == !self.cpus@[k],
                forall|k: int| i <= k < 1024 ==> r.cpus@[k] == self.cpus@[k],
            decreases 1024 - i,
        {
            let v = !r.cpus[i];
            r.cpus[i] = v;
            i = i + 1;
        }
        assert(r.cpus@ =~= negation(self.cpus@));
        r
    }
}

impl PartialEq for CpuSet {
    fn eq(&self, other: &Self) -> (b: bool) {
        self.equals(other)
    }
}

impl Eq for CpuSet {}

impl vstd::std_specs::cmp::PartialEqSpecImpl for CpuSet {
    open spec fn obeys_eq_spec() -> bool {
        true
    }

    open spec fn eq_spec(&self, other: &Self) -> bool {
        self@ == other@
    }
}

impl Default for CpuSet {
    fn default() -> (s: Self)
        ensures
            s@ == no_cpus(),
    {
        CpuSet::new()
    }
}

/// A set and its complement hold every CPU between them: their counts add up to the
/// number of CPUs a set can hold.
pub proof fn lemma_count_with_complement(s: CpuSet)
    ensures
        count_true(s@) + count_true(negation(s@)) == SPDK_CPUSET_SIZE,
{
    lemma_count_negation(s@);
}

/// The `true` entries of `s` and of its negation together number `s.len()`.
proof fn lemma_count_negation(s: Seq<bool>)
    ensures
        count_true(s) + count_true(negation(s)) == s.len(),
    decreases s.len(),
{
    if s.len() > 0 {
        assert(negation(s).drop_last() =~= negation(s.drop_last()));
        lemma_count_negation(s.drop_last());
    }
}

/// Taking the complement twice gives back the set.
pub proof fn lemma_double_negation(s: CpuSet)
    ensures
        negation(negation(s@)) == s@,
{
    assert(negation(negation(s@)) =~= s@);
}

/// Setting a CPU adds one to the count exactly when the CPU was not in the set, and
/// clearing it takes one away exactly when it was.
pub proof fn lemma_count_after_set_cpu(s: CpuSet, cpu: u32, enable: bool)
    requires
        cpu < SPDK_CPUSET_SIZE,
    ensures
        count_true(s@.update(cpu as int, enable)) + (if s@[cpu as int] {
            1int
        } else {
            0int
        }) == count_true(s@) + (if enable {
            1int
        } else {
            0int
        }),
{
    lemma_count_update(s@, cpu as int, enable);
}

/// Updating entry `i` of `s` to `v` changes its count of `true` entries by the difference
/// between the new and the old entry.
proof fn lemma_count_update(s: Seq<bool>, i: int, v: bool)
    requires
        0 <= i < s.len(),
    ensures
        count_true(s.update(i, v)) + (if s[i] {
            1int
        } else {
            0int
        }) == count_true(s) + (if v {
            1int
        } else {
            0int
        }),
    decreases s.len(),
{
    let t = s.update(i, v);
    if i == s.len() - 1 {
        assert(t.drop_last() =~= s.drop_last());
    } else {
        assert(t.drop_last() =~= s.drop_last().update(i, v));
        lemma_count_update(s.drop_last(), i, v);
    }
}

} // verus!
