//! Deterministic fixed-point scalars and 2D / 3D vectors.
//!
//! Every value is a plain integer underneath, so results are identical on all
//! platforms. Operations that could overflow, divide by zero or take the square
//! root of a negative value carry a precondition that rules those inputs out.

pub mod scalar;
pub mod vector;

pub use scalar::SignedFractional;
pub use vector::{Vec2, Vec3};
