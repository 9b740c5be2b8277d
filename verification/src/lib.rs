//! Verified core logic of an asynchronous runtime binding for the Storage
//! Performance Development Kit.
pub mod errors;
pub mod text;
pub mod time;
pub mod uuid;
pub mod net;
pub mod nvme;
pub mod nvmf;
pub mod runtime;
pub mod scsi;
pub mod task;
pub mod thread;
