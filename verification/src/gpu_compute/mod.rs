//! Compute backends.
pub mod device;
