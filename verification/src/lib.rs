//! A catalog of implicit-solid primitives and combinators that build signed
//! distance functions as symbolic expression trees over the three spatial
//! coordinates.

pub mod laws;
pub mod scalar;
pub mod semantics;
pub mod shapes;
pub mod tree;
