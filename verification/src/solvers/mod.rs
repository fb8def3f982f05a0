//! Solvers: lattice Boltzmann and compressible Navier-Stokes.
pub mod lbm;
pub mod navier_stokes;
pub mod traits;
