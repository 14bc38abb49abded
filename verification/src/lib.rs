//! A minimal 3-dimensional vector value type for physics and graphics
//! callers: construction, component-wise arithmetic, scalar product,
//! cross product, Euclidean magnitude and guarded in-place normalization.
//!
//! Components are IEEE-754 double-precision values, carried everywhere as
//! their 64-bit encodings so that every operation has an exact contract:
//! `scalar` models the encoded doubles and wraps the rounded arithmetic,
//! `vector` builds the vector operations on top of it.

pub mod scalar;
pub mod vector;
