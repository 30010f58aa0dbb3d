//! Exact vector and ray algebra for a ray tracer's geometric core.
//!
//! `Vec3` is a three-component vector over exact integer scalars, addressed
//! either as spatial axes (x, y, z) or as color channels (r, g, b), with
//! componentwise arithmetic, scalar scaling, a cross product, and a squared
//! length. `Ray` is a parametric line built from an origin and a direction,
//! evaluated as origin + t * direction.

pub mod ray;
pub mod vec3;

pub use ray::Ray;
pub use vec3::IndexOutOfRange;
pub use vec3::Vec3;
