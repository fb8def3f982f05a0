//! Boundary condition kinds of the lattice Boltzmann solvers.
use vstd::prelude::*;

verus! {

/// LBM boundary condition type.
#[derive(Debug, Clone, Copy, PartialEq, Eq)]
pub enum LbmBoundaryType {
    /// Half-way bounce-back (no-slip wall).
    BounceBack,
    /// Zou-He velocity boundary (inlet).
    ZouHeVelocity,
    /// Zou-He pressure boundary (outlet).
    ZouHePressure,
    /// Periodic boundary (wraps around the domain).
    Periodic,
    /// Moving wall (e.g. a moving ground plane).
    MovingWall,
}

} // verus!
