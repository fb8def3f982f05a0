# aerocore

Core of the AeroCore computational fluid dynamics engine, written in Verus.

`src/` is the verified library:

- `math_core` — 3-vectors, 3x3 matrices and symmetric tensors, generic over
  the scalar type. Each result is specified as the composition of the scalar
  type's own operator specifications, in evaluation order. The algebraic
  laws (a deviatoric part has no trace and is idempotent, a pure pressure has
  no von Mises stress, a matrix times its inverse is the identity, ...) are
  proved for scalar types with exact arithmetic, expressed as a faithful map
  into the reals (`math_core::real_model`).
- `solvers::lbm` — the D2Q9 and D3Q19 lattice models (exact rational
  weights, with their moment identities proved), the D3Q19 solver and its
  three BGK collide-and-stream steps (periodic, moving lid, body force),
  each specified operation by operation; the streaming routes of every step
  variant, with the proof that streaming fills each population slot of the
  fluid at most once and that, on an all-fluid grid, a step delivers every
  post-collision population intact to its slot; the 2D lid-driven cavity
  solver (D2Q9), its routes and step, with the same delivery proof.
- `solvers::navier_stokes`, `solvers::traits` — solver bookkeeping and
  shared vocabulary.
- `memory` — object pool with stable handles (its own slot vector with a
  free list, reusing the most recently released slot first; the pool is
  generic over its objects, and the contents of an outside collection can be
  named only for a fixed element type), bump arena that refuses slices beyond
  what is left of its capacity, vector storage with a declared (not
  enforced) alignment.
- `gpu_compute` — the compute backend interface and its CPU fallback.
- `io_mesh` — mesh formats and errors, binary STL triangle records, the
  ray-parity rule of the voxeliser.
- `ffi` — values exchanged with C and their codes.

`app/` holds the program and what Verus does not take: floating-point
field summaries, ray/triangle intersection, mesh geometry, CSV output, the
C entry points.
