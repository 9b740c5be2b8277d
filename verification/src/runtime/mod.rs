//! Runtime support: the dedicated CPU cores and the reactors running on them.
pub mod cpu_core;
pub mod cpu_set;
pub mod reactor;

pub use cpu_core::{CpuCore, CpuCores};
pub use cpu_set::CpuSet;
pub use reactor::{reactors, Reactor};
