//! Compressible Navier-Stokes solver state.
//!
//! The solver does not compute a flow yet: it keeps the initialised flag and
//! the step counter that its step and finalisation act on.
use crate::solvers::traits::NotInitialized;
use vstd::prelude::*;

verus! {

/// Compressible Navier-Stokes solver (RANS k-ω SST, future LES), for
/// Mach 0.3 to 5.0.
#[derive(Debug)]
pub struct CompressibleNsSolver {
    initialized: bool,
    timestep: u64,
}

impl CompressibleNsSolver {
    /// Whether the solver is initialised.
    pub closed spec fn is_ready(&self) -> bool {
        self.initialized
    }

    /// Number of completed steps.
    pub closed spec fn step_count(&self) -> u64 {
        self.timestep
    }

    /// A solver that is not initialised, at step zero.
    pub fn new() -> (r: Self)
        ensures
            !r.is_ready(),
            r.step_count() == 0,
    {
        CompressibleNsSolver { initialized: false, timestep: 0 }
    }

    /// Initialises the solver and resets the step counter.
    pub fn init(&mut self)
        ensures
            final(self).is_ready(),
            final(self).step_count() == 0,
    {
        self.initialized = true;
        self.timestep = 0;
    }

    /// Advances one step and returns the new step count; refused with
    /// `NotInitialized` before `init`.
    pub fn step(&mut self) -> (r: Result<u64, NotInitialized>)
        requires
            old(self).step_count() < u64::MAX,
        ensures
            r is Err <==> !old(self).is_ready(),
            r is Err ==> *final(self) == *old(self),
            r is Ok ==> {
                &&& r == Ok::<u64, NotInitialized>((old(self).step_count() + 1) as u64)
                &&& final(self).step_count() == old(self).step_count() + 1
                &&& final(self).is_ready()
            },
    {
        if !self.initialized {
            return Err(NotInitialized);
        }
        self.timestep = self.timestep + 1;
        Ok(self.timestep)
    }

    /// Number of completed steps.
    pub fn timestep(&self) -> (r: u64)
        ensures
            r == self.step_count(),
    {
        self.timestep
    }

    /// Whether the solver is initialised.
    pub fn is_initialized(&self) -> (r: bool)
        ensures
            r == self.is_ready(),
    {
        self.initialized
    }

    /// Leaves the initialised state and resets the step counter.
    pub fn finalize(&mut self)
        ensures
            !final(self).is_ready(),
            final(self).step_count() == 0,
    {
        self.initialized = false;
        self.timestep = 0;
    }

    /// Solver name.
    pub fn name(&self) -> (r: &'static str)
        ensures
            r@ == "Compressible Navier-Stokes (Roe/HLLC)"@,
    {
        "Compressible Navier-Stokes (Roe/HLLC)"
    }
}

impl Default for CompressibleNsSolver {
    /// Same as `new`.
    fn default() -> (r: Self)
        ensures
            !r.is_ready(),
            r.step_count() == 0,
    {
        Self::new()
    }
}

} // verus!
