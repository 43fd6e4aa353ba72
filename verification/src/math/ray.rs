//! The ray primitive: a parametric half-line `origin + t * direction`.

use vstd::prelude::*;

use crate::math::vec::{Number, Vec3};

verus! {

/// An origin point and a direction vector over the same scalar. The
/// direction is not required to be unit length: the parameter `t` is
/// measured in multiples of the direction's actual magnitude.
#[derive(Clone, Copy, Debug)]
pub struct Ray<T: Number> {
    pub origin: Vec3<T>,
    pub direction: Vec3<T>,
}

impl<T: Number> Ray<T> {
    /// A ray from its origin and direction, both stored verbatim (no
    /// normalization side effect).
    pub fn new(origin: Vec3<T>, direction: Vec3<T>) -> (r: Self)
        ensures
            r.origin == origin,
            r.direction == direction,
    {
        Ray { origin, direction }
    }

    /// Inputs on which the evaluation at `t` is defined.
    pub open spec fn at_ok(self, t: T) -> bool {
        self.direction.mul_ok(t) && self.origin.add_ok(self.direction.mul_spec(t))
    }

    /// The point `origin + direction * t`.
    pub open spec fn at_spec(self, t: T) -> Vec3<T> {
        self.origin.add_spec(self.direction.mul_spec(t))
    }

    /// The point the ray reaches at parameter `t`: a pure affine evaluation,
    /// valid for any `t`, negative values included; callers restrict `t` to
    /// a window themselves where they need to.
    pub fn at(&self, t: T) -> (r: Vec3<T>)
        requires
            self.at_ok(t),
        ensures
            r == self.at_spec(t),
    {
        self.origin.add(self.direction.mul(t))
    }
}

} // verus!
