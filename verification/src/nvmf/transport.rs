//! The types of NVMe-oF transports.
use vstd::prelude::*;
use vstd::string::*;

verus! {

/// The raw SPDK value of the RDMA transport type.
pub const SPDK_NVME_TRANSPORT_RDMA: u32 = 1;
/// The raw SPDK value of the Fibre Channel transport type.
pub const SPDK_NVME_TRANSPORT_FC: u32 = 2;
/// The raw SPDK value of the TCP transport type.
pub const SPDK_NVME_TRANSPORT_TCP: u32 = 3;
/// The raw SPDK value of the PCIe transport type.
pub const SPDK_NVME_TRANSPORT_PCIE: u32 = 256;
/// The raw SPDK value of the vfio-user transport type.
pub const SPDK_NVME_TRANSPORT_VFIOUSER: u32 = 1024;
/// The raw SPDK value of a custom transport type.
pub const SPDK_NVME_TRANSPORT_CUSTOM: u32 = 4096;

/// The type of NVMe-oF transport.
///
/// These are mapped directly to the NVMe over Fabrics TRTYPE values, except for PCIe,
/// which is a special case since NVMe over Fabrics does not define a TRTYPE for local
/// PCIe. Transports supported by SPDK but not defined in the NVMe-oF specification are
/// given values outside of the 8-bit range of the TRTYPE value.
#[derive(Clone, Copy, Debug, PartialEq, Eq, Structural)]
pub enum TransportType {
    /// A RDMA Transport.
    RDMA,
    /// A Fibre Channel transport.
    FC,
    /// A TCP Transport.
    TCP,
    /// A PCIe Transport.
    PCIE,
    /// A user-mode vfio transport.
    VFIOUSER,
    /// A custom transport.
    CUSTOM,
}

/// The raw SPDK value of the transport type `t`.
pub open spec fn spec_value(t: TransportType) -> u32 {
    match t {
        TransportType::RDMA => SPDK_NVME_TRANSPORT_RDMA,
        TransportType::FC => SPDK_NVME_TRANSPORT_FC,
        TransportType::TCP => SPDK_NVME_TRANSPORT_TCP,
        TransportType::PCIE => SPDK_NVME_TRANSPORT_PCIE,
        TransportType::VFIOUSER => SPDK_NVME_TRANSPORT_VFIOUSER,
        TransportType::CUSTOM => SPDK_NVME_TRANSPORT_CUSTOM,
    }
}

/// The transport type whose raw SPDK value is `raw`, if there is one.
pub open spec fn spec_from_raw(raw: u32) -> Option<TransportType> {
    if raw == SPDK_NVME_TRANSPORT_CUSTOM {
        Some(TransportType::CUSTOM)
    } else if raw == SPDK_NVME_TRANSPORT_FC {
        Some(TransportType::FC)
    } else if raw == SPDK_NVME_TRANSPORT_PCIE {
        Some(TransportType::PCIE)
    } else if raw == SPDK_NVME_TRANSPORT_RDMA {
        Some(TransportType::RDMA)
    } else if raw == SPDK_NVME_TRANSPORT_TCP {
        Some(TransportType::TCP)
    } else if raw == SPDK_NVME_TRANSPORT_VFIOUSER {
        Some(TransportType::VFIOUSER)
    } else {
        None
    }
}

/// The SPDK name of the transport type `t`.
pub open spec fn spec_name(t: TransportType) -> &'static str {
    match t {
        TransportType::CUSTOM => "CUSTOM",
        TransportType::FC => "FC",
        TransportType::PCIE => "PCIE",
        TransportType::RDMA => "RDMA",
        TransportType::TCP => "TCP",
        TransportType::VFIOUSER => "VFIOUSER",
    }
}

impl TransportType {
    /// Returns the raw SPDK value of this transport type.
    pub fn value(self) -> (v: u32)
        ensures
            v == spec_value(self),
    {
        match self {
            TransportType::RDMA => SPDK_NVME_TRANSPORT_RDMA,
            TransportType::FC => SPDK_NVME_TRANSPORT_FC,
            TransportType::TCP => SPDK_NVME_TRANSPORT_TCP,
            TransportType::PCIE => SPDK_NVME_TRANSPORT_PCIE,
            TransportType::VFIOUSER => SPDK_NVME_TRANSPORT_VFIOUSER,
            TransportType::CUSTOM => SPDK_NVME_TRANSPORT_CUSTOM,
        }
    }

    /// Returns the transport type whose raw SPDK value is `raw`, or `None` when no type
    /// has that value.
    pub fn try_from_raw(raw: u32) -> (t: Option<Self>)
        ensures
            t == spec_from_raw(raw),
    {
        if raw == SPDK_NVME_TRANSPORT_CUSTOM {
            Some(TransportType::CUSTOM)
        } else if raw == SPDK_NVME_TRANSPORT_FC {
            Some(TransportType::FC)
        } else if raw == SPDK_NVME_TRANSPORT_PCIE {
            Some(TransportType::PCIE)
        } else if raw == SPDK_NVME_TRANSPORT_RDMA {
            Some(TransportType::RDMA)
        } else if raw == SPDK_NVME_TRANSPORT_TCP {
            Some(TransportType::TCP)
        } else if raw == SPDK_NVME_TRANSPORT_VFIOUSER {
            Some(TransportType::VFIOUSER)
        } else {
            None
        }
    }

    /// Returns the transport type whose raw SPDK value is `raw`.
    ///
    /// `raw` must be the value of a transport type; the conversion panics otherwise, which
    /// the precondition refuses.
    pub fn from_raw(raw: u32) -> (t: Self)
        requires
            spec_from_raw(raw) is Some,
        ensures
            Some(t) == spec_from_raw(raw),
    {
        match Self::try_from_raw(raw) {
            Some(t) => t,
            None => vstd::pervasive::unreached(),
        }
    }

    /// Returns the SPDK name of this transport type.
    pub fn name(self) -> (s: &'static str)
        ensures
            s == spec_name(self),
    {
        match self {
            TransportType::CUSTOM => "CUSTOM",
            TransportType::FC => "FC",
            TransportType::PCIE => "PCIE",
            TransportType::RDMA => "RDMA",
            TransportType::TCP => "TCP",
            TransportType::VFIOUSER => "VFIOUSER",
        }
    }

    /// Renders the SPDK name of this transport type.
    pub fn to_string(self) -> (s: String)
        ensures
            s@ == spec_name(self)@,
    {
        String::from_str(self.name())
    }
}

/// Converting a transport type to its raw value and back gives the same type, and a raw
/// value that converts to a type is that type's value.
pub proof fn lemma_raw_round_trip(t: TransportType, raw: u32)
    ensures
        spec_from_raw(spec_value(t)) == Some(t),
        spec_from_raw(raw) matches Some(u) ==> spec_value(u) == raw,
{
}

} // verus!
