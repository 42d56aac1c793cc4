//! A minimal generic 2-D array container over a flat backing vector.
//!
//! The matrix owns a contiguous row-major sequence of elements plus a stored
//! row-length attribute; the other extent is derived by integer division.
//! It offers indexed access, element swap, bulk construction from owned or
//! borrowed data, and element-wise (Hadamard) arithmetic with scalar and
//! matrix-matrix variants, plus in-place compound forms for a subset.
//!
//! Rather than passing the whole backing-vector interface through, the
//! container keeps a deliberately narrow surface: shape queries, cell access,
//! swap, length, and conversion back to the flat vector.

pub mod laws;
pub mod matrix;

pub use crate::matrix::IntoVecMatrix;
pub use crate::matrix::Matrix;
pub use crate::matrix::VecMatrix;
