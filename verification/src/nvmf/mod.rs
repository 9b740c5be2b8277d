//! Support for the NVMe over Fabrics (NVMe-oF) target: transport and subsystem types, and
//! the rules for results and ownership of targets and transports.
pub mod ownership;
pub mod subsystem;
pub mod target_builder;
pub mod transport;
pub mod transport_builder;

pub use ownership::Ownership;
pub use subsystem::SubsystemType;
pub use transport::TransportType;
pub use target_builder::Builder as TargetBuilder;
pub use transport_builder::{Builder as TransportBuilder, TransportOptions};
