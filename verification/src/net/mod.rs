//! Networking support: socket addresses, address lookup and socket readiness.
pub mod addr;
pub mod lookup;
pub mod socket_state;

pub use addr::{SocketAddr, SocketAddrV4, SocketAddrV6};
