//! Support for SCSI status information.
pub mod status;

pub use status::ScsiStatus;
