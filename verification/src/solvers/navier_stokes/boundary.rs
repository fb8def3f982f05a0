//! Boundary condition kinds of the Navier-Stokes solver.
use vstd::prelude::*;

verus! {

/// Boundary condition type for the Navier-Stokes solver.
#[derive(Debug, Clone, Copy, PartialEq, Eq)]
pub enum NsBoundaryType {
    /// No-slip wall (zero velocity at the surface).
    NoSlipWall,
    /// Moving wall (prescribed wall velocity).
    MovingWall,
    /// Far-field / freestream (characteristic-based).
    FarField,
    /// Pressure outlet (fixed static pressure).
    PressureOutlet,
    /// Symmetry plane (zero normal gradient).
    Symmetry,
}

} // verus!
