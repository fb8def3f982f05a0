//! Streaming scheme kinds of the lattice Boltzmann solvers.
use vstd::prelude::*;

verus! {

/// Streaming boundary handling strategy.
#[derive(Debug, Clone, Copy, PartialEq, Eq)]
pub enum StreamingScheme {
    /// Pull scheme: `f_new(x) = f_old(x - e_i)`.
    Pull,
    /// Push scheme: `f_new(x + e_i) = f_old(x)`.
    Push,
    /// Esotwist (swap) scheme.
    EsoTwist,
}

impl Default for StreamingScheme {
    /// Pull.
    fn default() -> (r: Self)
        ensures
            r == StreamingScheme::Pull,
    {
        StreamingScheme::Pull
    }
}

} // verus!
