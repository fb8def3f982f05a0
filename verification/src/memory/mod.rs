//! Memory management: object pools.
pub mod aligned;
pub mod arena;
pub mod pool;
