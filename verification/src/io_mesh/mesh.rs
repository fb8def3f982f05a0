//! Mesh formats and mesh errors.
use vstd::prelude::*;

verus! {

#[verifier::external_type_specification]
#[verifier::external_body]
pub struct ExIoError(std::io::Error);

/// Supported mesh file formats.
#[derive(Debug, Clone, Copy, PartialEq, Eq)]
pub enum MeshFormat {
    /// STL ASCII format.
    StlAscii,
    /// STL binary format.
    StlBinary,
    /// CGNS (CFD General Notation System).
    Cgns,
}

/// Mesh errors.
#[derive(Debug)]
pub enum MeshError {
    /// File not found at path.
    FileNotFound(String),
    /// Parse error at a location.
    ParseError { line: usize, message: String },
    /// File format not supported.
    UnsupportedFormat(String),
    /// I/O error while reading.
    IoError(std::io::Error),
}

impl From<std::io::Error> for MeshError {
    /// Wraps an I/O error.
    fn from(e: std::io::Error) -> (r: Self) {
        MeshError::IoError(e)
    }
}

impl vstd::std_specs::convert::FromSpecImpl<std::io::Error> for MeshError {
    open spec fn obeys_from_spec() -> bool {
        true
    }

    open spec fn from_spec(e: std::io::Error) -> Self {
        MeshError::IoError(e)
    }
}

} // verus!
