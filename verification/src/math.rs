//! Mathematical primitives: vector algebra, rays, and ray-shape intersection.

pub mod fixed;
pub mod intersections;
pub mod ray;
pub mod vec;
