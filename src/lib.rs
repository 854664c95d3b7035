//! Points and triangles in three dimensions, generic over the number type.
//!
//! Every operation is stated, in its contract, as the exact composition of the
//! number type's own operations that it performs; see [`Scalar`].
pub mod laws;
pub mod point;
pub mod scalar;
pub mod triangle;

pub use point::Point;
pub use scalar::{Arithmetic, Binary, Constant, Relation, Scalar, Unary};
pub use triangle::Triangle;
