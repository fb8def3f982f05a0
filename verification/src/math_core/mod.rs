//! Scalar abstraction, 3-vectors, 3x3 matrices and symmetric tensors.
pub mod precision;
pub mod vector;
pub mod matrix;
pub mod tensor;
pub mod real_model;
pub mod matrix_laws;
