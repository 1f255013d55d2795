//! Generic 2D/3D geometry primitives: vectors (free displacements) and
//! points (affine positions), parameterized over a caller-supplied scalar
//! type with fine-grained capability bounds per operation.

pub mod point2;
pub mod point3;
pub mod vector2;
pub mod vector3;

pub use point2::Point2;
pub use point3::Point3;
pub use vector2::Vector2;
pub use vector3::Vector3;
