//! A procedurally generated 2D heightmap: several octaves of coherent noise
//! are summed into one scalar field, which is then rendered as an aligned
//! text grid, a grayscale pixel buffer, or an encoded image string.
//!
//! Scalar samples are IEEE 754 single-precision values; verified code carries
//! them as their 32-bit patterns and hands every arithmetic step to a small
//! set of trusted wrappers around the machine's own operations.

pub mod field;
pub mod noise;
pub mod render;
pub mod rng;
pub mod scalar;
