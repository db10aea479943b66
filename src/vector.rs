//! Vector types built on [`crate::SignedFractional`].

pub mod vector2;
pub mod vector3;

pub use vector2::Vec2;
pub use vector3::Vec3;
