//! Assembly of a stack of cross-sectional image slices into one dense volume.
//!
//! Every real number that passes through this crate is a single-precision
//! value carried as its 32-bit pattern (see [`scalar::Scalar`]). The crate
//! orders, validates and concatenates; arithmetic on the numbers themselves is
//! left to the caller, who hands its results back in.

pub mod scalar;
pub mod geometry;
pub mod order;
pub mod error;
pub mod slice;
pub mod assemble;
pub mod dataset;
pub mod reader;
