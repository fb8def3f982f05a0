//! Mesh input: formats, errors, the binary STL triangle parser and the
//! parity rule of the voxeliser.
pub mod mesh;
pub mod stl;
pub mod voxelize;
