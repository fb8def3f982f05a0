//! AeroCore CFD engine core library.
//!
//! Memory primitives, lattice models, generic linear algebra, binary mesh
//! parsing and the solver bookkeeping of the lattice Boltzmann and
//! compressible Navier-Stokes engines, each stated and proved with Verus.
pub mod math_core;
pub mod solvers;
pub mod gpu_compute;
pub mod io_mesh;
pub mod memory;
pub mod ffi;
