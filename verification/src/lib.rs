//! Exact 3D vector algebra.
//!
//! The library provides a three-component vector type over an exact rational
//! scalar. Construction, addition, negation, scaling, dot and cross products,
//! and projection are all computed exactly, and each operation carries a
//! contract that pins its result down to the rational value it denotes.
//! The algebraic laws of the operations (commutativity of the dot product,
//! anticommutativity of the cross product, projection of a vector onto
//! itself) are stated and proved in `laws`.

pub mod laws;
pub mod scalar;
pub mod vector;
