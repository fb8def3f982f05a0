//! Collision operator kinds of the lattice Boltzmann solvers.
use vstd::prelude::*;

verus! {

/// Collision operator type.
#[derive(Debug, Clone, Copy, PartialEq, Eq)]
pub enum CollisionOperator {
    /// Single relaxation time (Bhatnagar-Gross-Krook).
    BGK,
    /// Multiple relaxation time.
    MRT,
}

impl Default for CollisionOperator {
    /// BGK.
    fn default() -> (r: Self)
        ensures
            r == CollisionOperator::BGK,
    {
        CollisionOperator::BGK
    }
}

} // verus!
