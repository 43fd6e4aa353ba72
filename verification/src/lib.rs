//! Geometric core of a minimal ray tracer: a generic three-component vector
//! algebra, a parametric ray primitive, a ray-intersection capability with one
//! concrete shape (a sphere), and the per-pixel render loop that turns a
//! virtual camera and a scene into a flat color buffer.
//!
//! All types are generic over a scalar capability set (`math::vec::Number`);
//! `math::fixed::Fix` is the crate's own exact scalar, a fixed-point number
//! counted in millionths.

pub mod math;
pub mod render;
