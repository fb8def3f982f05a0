//! Compressible Navier-Stokes solver for aeronautical flows.
pub mod boundary;
pub mod compressible;
pub mod turbulence;
