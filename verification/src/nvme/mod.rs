//! Support for NVMe devices: transport identifiers and status information.
use vstd::prelude::*;

pub mod status;
pub mod transport;

pub use status::NvmeStatus;
pub use transport::FibreChannelAddr;

verus! {

/// A value used to indicate a command applies to all namespaces or to retrieve
/// global log pages.
pub const SPDK_NVME_GLOBAL_NS_TAG: u32 = 0xffffffff;

} // verus!
