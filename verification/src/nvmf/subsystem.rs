//! NVMe-oF subsystem types, and how the results of subsystem operations are reported.
use vstd::prelude::*;

use crate::errors::{Errno, EINVAL, ENOENT};

verus! {

/// The raw SPDK value of the Discovery subsystem type.
pub const SPDK_NVMF_SUBTYPE_DISCOVERY: u32 = 1;
/// The raw SPDK value of the NVMe subsystem type.
pub const SPDK_NVMF_SUBTYPE_NVME: u32 = 2;

/// The type of a NVMe-oF subsystem.
#[derive(Clone, Copy, Debug, PartialEq, Eq, Structural)]
pub enum SubsystemType {
    /// The subsystem is the Discovery controller.
    Discovery,
    /// The subsystem is a NVMe controller.
    NVMe,
}

/// The raw SPDK value of the subsystem type `t`.
pub open spec fn spec_value(t: SubsystemType) -> u32 {
    match t {
        SubsystemType::Discovery => SPDK_NVMF_SUBTYPE_DISCOVERY,
        SubsystemType::NVMe => SPDK_NVMF_SUBTYPE_NVME,
    }
}

impl SubsystemType {
    /// Returns the raw SPDK value of this subsystem type.
    pub fn value(self) -> (v: u32)
        ensures
            v == spec_value(self),
    {
        match self {
            SubsystemType::Discovery => SPDK_NVMF_SUBTYPE_DISCOVERY,
            SubsystemType::NVMe => SPDK_NVMF_SUBTYPE_NVME,
        }
    }

    /// Returns the subsystem type whose raw SPDK value is `raw`.
    ///
    /// `raw` must be the value of a subsystem type; the conversion panics otherwise, which
    /// the precondition refuses.
    pub fn from_raw(raw: u32) -> (t: Self)
        requires
            raw == SPDK_NVMF_SUBTYPE_DISCOVERY || raw == SPDK_NVMF_SUBTYPE_NVME,
        ensures
            spec_value(t) == raw,
    {
        if raw == SPDK_NVMF_SUBTYPE_DISCOVERY {
            SubsystemType::Discovery
        } else {
            SubsystemType::NVMe
        }
    }

    /// Returns whether this is the type of the Discovery controller.
    pub fn is_discovery(self) -> (b: bool)
        ensures
            b == (self == SubsystemType::Discovery),
    {
        match self {
            SubsystemType::Discovery => true,
            SubsystemType::NVMe => false,
        }
    }
}

/// Converting a subsystem type to its raw value and back gives the same type.
pub proof fn lemma_subtype_round_trip(t: SubsystemType)
    ensures
        spec_value(t) == SPDK_NVMF_SUBTYPE_DISCOVERY || spec_value(t) == SPDK_NVMF_SUBTYPE_NVME,
        forall|u: SubsystemType| spec_value(u) == spec_value(t) ==> u == t,
{
}

/// Reports the result of removing an entry (an allowed host or a listener): `Ok(true)`
/// when it was removed, `Ok(false)` when there was no such entry (`ENOENT`), and any other
/// error as it is.
pub fn removal_result(res: Result<(), Errno>) -> (r: Result<bool, Errno>)
    ensures
        res is Ok ==> r == Ok::<bool, Errno>(true),
        res == Err::<(), Errno>(Errno(ENOENT)) ==> r == Ok::<bool, Errno>(false),
        res matches Err(e) ==> (e != Errno(ENOENT) ==> r == Err::<bool, Errno>(e)),
{
    match res {
        Ok(()) => Ok(true),
        Err(e) => if e.0 == ENOENT {
            Ok(false)
        } else {
            Err(e)
        },
    }
}

/// Reports the result of setting a subsystem property (serial or model number) from the
/// setter's return code: a negative code is an invalid argument.
pub fn property_result(rc: i32) -> (r: Result<(), Errno>)
    ensures
        rc < 0 ==> r == Err::<(), Errno>(Errno(EINVAL)),
        rc >= 0 ==> r is Ok,
{
    if rc < 0 {
        Err(Errno(EINVAL))
    } else {
        Ok(())
    }
}

/// Reports the result of adding a namespace from the namespace ID assigned to it: zero
/// means the device could not be added.
pub fn namespace_id_result(nsid: u32) -> (r: Result<u32, Errno>)
    ensures
        nsid == 0 ==> r == Err::<u32, Errno>(Errno(EINVAL)),
        nsid != 0 ==> r == Ok::<u32, Errno>(nsid),
{
    if nsid == 0 {
        Err(Errno(EINVAL))
    } else {
        Ok(nsid)
    }
}

} // verus!
