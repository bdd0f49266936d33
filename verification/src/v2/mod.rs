//! The alternative interface: hazard pointers with a configurable
//! number of reserved entries, operation counting by kind and retire
//! strategies that own their global state.

pub mod config;
pub mod hazard;
pub mod retire;

pub use crate::local::inner::RecycleError;
pub use crate::queue::RawQueue;
