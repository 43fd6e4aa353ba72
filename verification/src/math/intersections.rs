//! Ray-shape intersection: the `Hittable` capability, the structured hit
//! record, and the one concrete shape, a sphere intersected in closed form
//! through the quadratic formula.

use vstd::prelude::*;

use crate::math::ray::Ray;
use crate::math::vec::{dot, dot_ok, dot_spec, Number, Vec3};

verus! {

/// The result of a successful intersection: the hit point, the unit surface
/// normal oriented to oppose the incoming ray, the ray parameter of the hit,
/// and whether the ray approached from the outward-facing side (`front_face`;
/// when it did not, the stored normal is the flipped outward normal).
#[derive(Clone, Copy, Debug)]
pub struct HitRecord<T: Number> {
    pub point: Vec3<T>,
    pub normal: Vec3<T>,
    pub t: T,
    pub front_face: bool,
}

impl<T: Number> HitRecord<T> {
    /// Inputs on which a record can be built from an outward normal.
    pub open spec fn new_ok(point: Vec3<T>, normal: Vec3<T>, t: T, ray: Ray<T>) -> bool {
        &&& dot_ok(normal, ray.direction)
        &&& (!dot_spec(normal, ray.direction).lt_spec(T::zero_spec()) ==> normal.neg_ok())
    }

    /// The record that `new` builds: front face exactly when the outward
    /// normal opposes the ray direction, and the stored normal flipped when
    /// it does not.
    pub open spec fn new_spec(point: Vec3<T>, normal: Vec3<T>, t: T, ray: Ray<T>) -> HitRecord<
        T,
    > {
        let front_face = dot_spec(normal, ray.direction).lt_spec(T::zero_spec());
        HitRecord {
            point,
            normal: if front_face {
                normal
            } else {
                normal.neg_spec()
            },
            t,
            front_face,
        }
    }

    /// Builds the record for a hit at `point` with outward normal `normal`
    /// at parameter `t`, classifying the face and orienting the stored
    /// normal against the incoming ray.
    pub fn new(point: Vec3<T>, normal: Vec3<T>, t: T, ray: &Ray<T>) -> (r: HitRecord<T>)
        requires
            Self::new_ok(point, normal, t, *ray),
        ensures
            r == Self::new_spec(point, normal, t, *ray),
    {
        let front_face = dot(normal, ray.direction).lt(T::zero());
        let oriented = if front_face {
            normal
        } else {
            normal.neg()
        };
        HitRecord { point, normal: oriented, t, front_face }
    }
}

/// The intersection capability: any geometric primitive that can report the
/// closest valid intersection with a ray inside an inclusive parameter
/// window `[t_min, t_max]`, or report that there is none.
///
/// An implementer names its admissible inputs in `hit_ok` and the record (or
/// absence) it returns in `hit_spec`; `hit` must return exactly that.
pub trait Hittable<T: Number> {
    /// Inputs on which `hit` may be called.
    spec fn hit_ok(&self, ray: Ray<T>, t_min: T, t_max: T) -> bool;

    /// What `hit` returns.
    spec fn hit_spec(&self, ray: Ray<T>, t_min: T, t_max: T) -> Option<HitRecord<T>>;

    /// The closest valid intersection of `ray` with this primitive inside
    /// `[t_min, t_max]`, or nothing.
    fn hit(&self, ray: &Ray<T>, t_min: T, t_max: T) -> (r: Option<HitRecord<T>>)
        requires
            self.hit_ok(*ray, t_min, t_max),
        ensures
            r == self.hit_spec(*ray, t_min, t_max),
    ;
}

/// One rigid geometric primitive: a center point and a scalar radius.
#[derive(Clone, Copy, Debug)]
pub struct Sphere<T: Number> {
    pub center: Vec3<T>,
    pub radius: T,
}

impl<T: Number> Sphere<T> {
    /// A sphere from its center and radius.
    pub fn new(center: Vec3<T>, radius: T) -> (r: Sphere<T>)
        ensures
            r.center == center,
            r.radius == radius,
    {
        Sphere { center, radius }
    }

    /// The vector from the sphere's center to the ray's origin.
    pub open spec fn oc_spec(self, ray: Ray<T>) -> Vec3<T> {
        ray.origin.sub_spec(self.center)
    }

    /// The quadratic's leading coefficient: the squared magnitude of the ray
    /// direction (not assumed to be one).
    pub open spec fn qa_spec(self, ray: Ray<T>) -> T {
        ray.direction.len_squared_spec()
    }

    /// Half the quadratic's linear coefficient.
    pub open spec fn half_b_spec(self, ray: Ray<T>) -> T {
        dot_spec(self.oc_spec(ray), ray.direction)
    }

    /// The quadratic's constant coefficient.
    pub open spec fn qc_spec(self, ray: Ray<T>) -> T {
        self.oc_spec(ray).len_squared_spec().sub_spec(self.radius.mul_spec(self.radius))
    }

    /// The discriminant `half_b * half_b - a * c` whose sign decides how
    /// many intersection candidates exist.
    pub open spec fn discriminant_spec(self, ray: Ray<T>) -> T {
        self.half_b_spec(ray).mul_spec(self.half_b_spec(ray)).sub_spec(
            self.qa_spec(ray).mul_spec(self.qc_spec(ray)),
        )
    }

    /// The nearer root `(-half_b - sqrt(discriminant)) / a`.
    pub open spec fn near_root_spec(self, ray: Ray<T>) -> T {
        self.half_b_spec(ray).neg_spec().sub_spec(self.discriminant_spec(ray).sqrt_spec())
            .div_spec(self.qa_spec(ray))
    }

    /// The farther root `(-half_b + sqrt(discriminant)) / a`.
    pub open spec fn far_root_spec(self, ray: Ray<T>) -> T {
        self.half_b_spec(ray).neg_spec().add_spec(self.discriminant_spec(ray).sqrt_spec())
            .div_spec(self.qa_spec(ray))
    }

    /// The candidate parameter: the nearer root first; the farther root only
    /// where the nearer one falls strictly outside `[t_min, t_max]`.
    pub open spec fn candidate_spec(self, ray: Ray<T>, t_min: T, t_max: T) -> T {
        let near = self.near_root_spec(ray);
        if t_max.lt_spec(near) || near.lt_spec(t_min) {
            self.far_root_spec(ray)
        } else {
            near
        }
    }

    /// The outward unit normal at `point`: `(point - center) / radius`.
    pub open spec fn outward_normal_spec(self, point: Vec3<T>) -> Vec3<T> {
        point.sub_spec(self.center).div_spec(self.radius)
    }
}

impl<T: Number> Hittable<T> for Sphere<T> {
    /// Every scalar operation along the intersection's data flow must be
    /// defined, branch by branch as the algorithm reaches it.
    open spec fn hit_ok(&self, ray: Ray<T>, t_min: T, t_max: T) -> bool {
        let oc = self.oc_spec(ray);
        let qa = self.qa_spec(ray);
        let half_b = self.half_b_spec(ray);
        let qc = self.qc_spec(ray);
        let disc = self.discriminant_spec(ray);
        let root = disc.sqrt_spec();
        let near = self.near_root_spec(ray);
        let t = self.candidate_spec(ray, t_min, t_max);
        let point = ray.at_spec(t);
        &&& ray.origin.sub_ok(self.center)
        &&& ray.direction.len_squared_ok()
        &&& dot_ok(oc, ray.direction)
        &&& oc.len_squared_ok()
        &&& self.radius.mul_ok(self.radius)
        &&& oc.len_squared_spec().sub_ok(self.radius.mul_spec(self.radius))
        &&& half_b.mul_ok(half_b)
        &&& qa.mul_ok(qc)
        &&& half_b.mul_spec(half_b).sub_ok(qa.mul_spec(qc))
        &&& (T::zero_spec().lt_spec(disc) ==> {
            &&& disc.sqrt_ok()
            &&& half_b.neg_ok()
            &&& half_b.neg_spec().sub_ok(root)
            &&& half_b.neg_spec().sub_spec(root).div_ok(qa)
            &&& ((t_max.lt_spec(near) || near.lt_spec(t_min)) ==> {
                &&& half_b.neg_spec().add_ok(root)
                &&& half_b.neg_spec().add_spec(root).div_ok(qa)
            })
            &&& ((t.le_spec(t_max) && t_min.le_spec(t)) ==> {
                &&& ray.at_ok(t)
                &&& point.sub_ok(self.center)
                &&& point.sub_spec(self.center).div_ok(self.radius)
                &&& HitRecord::new_ok(point, self.outward_normal_spec(point), t, ray)
            })
        })
    }

    /// The nearest-root-first, tangent-is-miss, inclusive-bound, normal-flip
    /// intersection policy, stated in full: a positive discriminant yields
    /// the candidate parameter, and a record is returned exactly where that
    /// candidate lies inside the window.
    open spec fn hit_spec(&self, ray: Ray<T>, t_min: T, t_max: T) -> Option<HitRecord<T>> {
        let disc = self.discriminant_spec(ray);
        let t = self.candidate_spec(ray, t_min, t_max);
        let point = ray.at_spec(t);
        if T::zero_spec().lt_spec(disc) {
            if t.le_spec(t_max) && t_min.le_spec(t) {
                Some(HitRecord::new_spec(point, self.outward_normal_spec(point), t, ray))
            } else {
                None
            }
        } else {
            None
        }
    }

    /// Closed-form ray-sphere intersection via the quadratic formula: the
    /// nearer root is tried first, the farther root only where the nearer
    /// one leaves the window; a tangent ray (discriminant exactly zero) is a
    /// miss by design.
    fn hit(&self, ray: &Ray<T>, t_min: T, t_max: T) -> (r: Option<HitRecord<T>>) {
        let origin_to_center = ray.origin.sub(self.center);
        let qa = ray.direction.len_squared();
        let half_b = dot(origin_to_center, ray.direction);
        let qc = origin_to_center.len_squared().sub(self.radius.mul(self.radius));
        let discriminant = half_b.mul(half_b).sub(qa.mul(qc));
        if T::zero().lt(discriminant) {
            let root = discriminant.sqrt();
            let mut t = half_b.neg().sub(root).div(qa);
            if t_max.lt(t) || t.lt(t_min) {
                t = half_b.neg().add(root).div(qa);
            }
            if t.le(t_max) && t_min.le(t) {
                let point = ray.at(t);
                let normal = point.sub(self.center).div(self.radius);
                let rec = HitRecord::new(point, normal, t, ray);
                return Some(rec);
            }
        }
        None
    }
}

/// Law: a tangent ray, whose discriminant is exactly zero, is a miss: the
/// boundary case is deliberately classified with the strict `>` test.
pub proof fn lemma_tangent_ray_misses<T: Number>(s: Sphere<T>, ray: Ray<T>, t_min: T, t_max: T)
    requires
        s.discriminant_spec(ray) == T::zero_spec(),
    ensures
        s.hit_spec(ray, t_min, t_max) is None,
{
    T::lemma_lt_asym(T::zero_spec(), T::zero_spec());
}

/// Law: a ray whose discriminant is negative misses the sphere entirely.
pub proof fn lemma_negative_discriminant_misses<T: Number>(
    s: Sphere<T>,
    ray: Ray<T>,
    t_min: T,
    t_max: T,
)
    requires
        s.discriminant_spec(ray).lt_spec(T::zero_spec()),
    ensures
        s.hit_spec(ray, t_min, t_max) is None,
{
    T::lemma_lt_asym(s.discriminant_spec(ray), T::zero_spec());
}

} // verus!
