//! Shared solver vocabulary.
use vstd::prelude::*;

verus! {

/// Floating-point precision a simulation runs with.
#[derive(Debug, Clone, Copy, PartialEq, Eq)]
pub enum PrecisionMode {
    FP64,
    FP32,
}

impl Default for PrecisionMode {
    /// Double precision.
    fn default() -> (r: Self)
        ensures
            r == PrecisionMode::FP64,
    {
        PrecisionMode::FP64
    }
}

/// A step was requested from a solver that is not initialised.
#[derive(Debug, Clone, Copy, PartialEq, Eq)]
pub struct NotInitialized;

} // verus!
