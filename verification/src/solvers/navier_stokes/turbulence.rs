//! Turbulence models for RANS.
use vstd::prelude::*;

verus! {

/// Available turbulence models.
#[derive(Debug, Clone, Copy, PartialEq, Eq)]
pub enum TurbulenceModel {
    /// No turbulence model (laminar flow).
    Laminar,
    /// Standard k-ε model.
    KEpsilon,
    /// k-ω SST model, recommended for aerodynamic flows.
    KOmegaSST,
    /// Spalart-Allmaras one-equation model.
    SpalartAllmaras,
}

impl Default for TurbulenceModel {
    /// k-ω SST.
    fn default() -> (r: Self)
        ensures
            r == TurbulenceModel::KOmegaSST,
    {
        TurbulenceModel::KOmegaSST
    }
}

} // verus!
