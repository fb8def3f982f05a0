//! Values exchanged across the C interface, with their C codes.
use crate::solvers::traits::PrecisionMode;
use vstd::prelude::*;

verus! {

/// Precision mode as seen from C: `FP64 = 0`, `FP32 = 1`.
#[derive(Debug, Clone, Copy, PartialEq, Eq)]
pub enum FfiPrecisionMode {
    FP64,
    FP32,
}

/// Simulation state as seen from C, coded 0 to 6 in declaration order.
#[derive(Debug, Clone, Copy, PartialEq, Eq)]
pub enum FfiSimulationState {
    Idle,
    Initializing,
    Running,
    Paused,
    Converged,
    Diverged,
    Error,
}

impl FfiPrecisionMode {
    /// The C precision mode of a solver precision mode.
    pub fn from_rust(mode: PrecisionMode) -> (r: Self)
        ensures
            mode == PrecisionMode::FP64 ==> r == FfiPrecisionMode::FP64,
            mode == PrecisionMode::FP32 ==> r == FfiPrecisionMode::FP32,
    {
        match mode {
            PrecisionMode::FP64 => FfiPrecisionMode::FP64,
            PrecisionMode::FP32 => FfiPrecisionMode::FP32,
        }
    }

    /// The C code of the mode.
    pub fn code(&self) -> (r: u32)
        ensures
            r == (if *self == FfiPrecisionMode::FP64 { 0u32 } else { 1u32 }),
    {
        match self {
            FfiPrecisionMode::FP64 => 0,
            FfiPrecisionMode::FP32 => 1,
        }
    }
}

/// The C code of a simulation state.
pub open spec fn state_code(s: FfiSimulationState) -> u32 {
    match s {
        FfiSimulationState::Idle => 0,
        FfiSimulationState::Initializing => 1,
        FfiSimulationState::Running => 2,
        FfiSimulationState::Paused => 3,
        FfiSimulationState::Converged => 4,
        FfiSimulationState::Diverged => 5,
        FfiSimulationState::Error => 6,
    }
}

impl FfiSimulationState {
    /// The C code of the state.
    pub fn code(&self) -> (r: u32)
        ensures
            r == state_code(*self),
    {
        match self {
            FfiSimulationState::Idle => 0,
            FfiSimulationState::Initializing => 1,
            FfiSimulationState::Running => 2,
            FfiSimulationState::Paused => 3,
            FfiSimulationState::Converged => 4,
            FfiSimulationState::Diverged => 5,
            FfiSimulationState::Error => 6,
        }
    }
}

/// Distinct states have distinct C codes.
pub proof fn lemma_state_codes_distinct(a: FfiSimulationState, b: FfiSimulationState)
    ensures
        state_code(a) == state_code(b) ==> a == b,
        state_code(a) <= 6,
{
}

} // verus!
