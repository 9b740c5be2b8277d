//! The options an NVMe-oF target is created with, and the builder that sets them.
use vstd::prelude::*;
use vstd::slice::slice_to_vec;
use vstd::utf8::encode_utf8;

use crate::nvme::transport::write_field;

verus! {

/// The size of the target name field; a name that fills it has no terminating NUL.
pub const NVMF_TGT_NAME_MAX_LENGTH: usize = 256;

/// `n` zero bytes.
pub open spec fn zeros(n: nat) -> Seq<u8> {
    Seq::new(n, |i: int| 0u8)
}

/// The name field holding the UTF-8 bytes of `name`, the rest of it zero.
pub open spec fn name_field(name: Seq<char>) -> Seq<u8> {
    encode_utf8(name) + zeros((NVMF_TGT_NAME_MAX_LENGTH - encode_utf8(name).len()) as nat)
}

/// Builds an NVMe-oF target: the options it is created with, which start out zero but for
/// the name.
pub struct Builder {
    name: Vec<u8>,
    max_subsystems: u32,
    crdt: [u16; 3],
    discovery_filter: u32,
}

impl Builder {
    /// The name field.
    pub closed spec fn spec_name(&self) -> Seq<u8> {
        self.name@
    }

    /// The maximum number of subsystems.
    pub closed spec fn spec_max_subsystems(&self) -> u32 {
        self.max_subsystems
    }

    /// The Command Retry Delay Times.
    pub closed spec fn spec_crdt(&self) -> Seq<u16> {
        self.crdt@
    }

    /// The filter rule applied during discovery log generation, as its raw SPDK value.
    pub closed spec fn spec_discovery_filter(&self) -> u32 {
        self.discovery_filter
    }

    /// Creates a new builder for a target named `name`.
    ///
    /// The name's UTF-8 bytes must fit in the name field; a longer name panics, which the
    /// precondition refuses.
    pub fn new(name: &str) -> (b: Self)
        requires
            encode_utf8(name@).len() <= NVMF_TGT_NAME_MAX_LENGTH,
        ensures
            b.spec_name() == name_field(name@),
            b.spec_max_subsystems() == 0,
            b.spec_crdt() == seq![0u16, 0u16, 0u16],
            b.spec_discovery_filter() == 0,
    {
        let mut field: Vec<u8> = vec![0u8; 256];
        let bytes = name.as_bytes();
        write_field(&mut field, bytes);
        let b = Builder { name: field, max_subsystems: 0, crdt: [0u16; 3], discovery_filter: 0 };
        assert(b.name@ =~= name_field(name@));
        assert(b.crdt@ =~= seq![0u16, 0u16, 0u16]);
        b
    }

    /// Returns the name field.
    pub fn name(&self) -> (n: Vec<u8>)
        ensures
            n@ == self.spec_name(),
    {
        slice_to_vec(self.name.as_slice())
    }

    /// Returns the maximum number of subsystems.
    pub fn max_subsystems(&self) -> (m: u32)
        ensures
            m == self.spec_max_subsystems(),
    {
        self.max_subsystems
    }

    /// Returns the Command Retry Delay Times.
    pub fn command_retry_delay_times(&self) -> (c: [u16; 3])
        ensures
            c@ == self.spec_crdt(),
    {
        self.crdt
    }

    /// Returns the raw SPDK value of the discovery filter.
    pub fn discovery_filter(&self) -> (f: u32)
        ensures
            f == self.spec_discovery_filter(),
    {
        self.discovery_filter
    }

    /// Sets the maximum number of subsystems.
    pub fn with_max_subsystems(self, max_subsystems: u32) -> (b: Self)
        ensures
            b.spec_max_subsystems() == max_subsystems,
            b.spec_name() == self.spec_name(),
            b.spec_crdt() == self.spec_crdt(),
            b.spec_discovery_filter() == self.spec_discovery_filter(),
    {
        let mut b = self;
        b.max_subsystems = max_subsystems;
        b
    }

    /// Sets the Command Retry Delay Times (CRDTs).
    pub fn with_command_retry_delay_times(self, crdts: [u16; 3]) -> (b: Self)
        ensures
            b.spec_crdt() == crdts@,
            b.spec_name() == self.spec_name(),
            b.spec_max_subsystems() == self.spec_max_subsystems(),
            b.spec_discovery_filter() == self.spec_discovery_filter(),
    {
        let mut b = self;
        b.crdt = crdts;
        b
    }

    /// Sets the filter rule applied during discovery log generation, given as its raw
    /// SPDK value.
    pub fn with_discovery_filter(self, filter: u32) -> (b: Self)
        ensures
            b.spec_discovery_filter() == filter,
            b.spec_name() == self.spec_name(),
            b.spec_max_subsystems() == self.spec_max_subsystems(),
            b.spec_crdt() == self.spec_crdt(),
    {
        let mut b = self;
        b.discovery_filter = filter;
        b
    }
}

} // verus!
