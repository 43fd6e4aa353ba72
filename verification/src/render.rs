//! The render loop: maps every pixel of a fixed grid to a camera ray,
//! shades it against the scene's single sphere (or the sky gradient), and
//! encodes the linear color into a flat, row-major RGB byte buffer.

use vstd::prelude::*;

use crate::math::intersections::{Hittable, Sphere};
use crate::math::ray::Ray;
use crate::math::vec::{Number, Vec3};

verus! {

/// A pinhole camera: a viewpoint and a rectangular viewport one focal
/// length in front of it, spanned by a horizontal and a vertical basis
/// vector from its upper-left corner.
#[derive(Clone, Copy, Debug)]
pub struct Camera<T: Number> {
    pub origin: Vec3<T>,
    pub horizontal: Vec3<T>,
    pub vertical: Vec3<T>,
    pub upper_left: Vec3<T>,
}

impl<T: Number> Camera<T> {
    /// Inputs on which the camera derivation is defined.
    pub open spec fn new_ok(origin: Vec3<T>, viewport_width: T, viewport_height: T, focal_length: T) -> bool {
        let two = T::ratio_spec(2, 1);
        let horizontal = Vec3 { x: viewport_width, y: T::zero_spec(), z: T::zero_spec() };
        let vertical = Vec3 { x: T::zero_spec(), y: viewport_height.neg_spec(), z: T::zero_spec() };
        let half_h = horizontal.div_spec(two);
        let half_v = vertical.div_spec(two);
        let focal = Vec3 { x: T::zero_spec(), y: T::zero_spec(), z: focal_length };
        &&& viewport_height.neg_ok()
        &&& T::ratio_ok(2, 1)
        &&& horizontal.div_ok(two)
        &&& vertical.div_ok(two)
        &&& origin.sub_ok(half_h)
        &&& origin.sub_spec(half_h).sub_ok(half_v)
        &&& origin.sub_spec(half_h).sub_spec(half_v).sub_ok(focal)
    }

    /// The camera `new` builds: `horizontal = (w, 0, 0)`,
    /// `vertical = (0, -h, 0)` (rows run downward), and the upper-left
    /// corner `origin - horizontal/2 - vertical/2 - (0, 0, focal_length)`.
    pub open spec fn new_spec(origin: Vec3<T>, viewport_width: T, viewport_height: T, focal_length: T) -> Camera<T> {
        let two = T::ratio_spec(2, 1);
        let horizontal = Vec3 { x: viewport_width, y: T::zero_spec(), z: T::zero_spec() };
        let vertical = Vec3 { x: T::zero_spec(), y: viewport_height.neg_spec(), z: T::zero_spec() };
        let focal = Vec3 { x: T::zero_spec(), y: T::zero_spec(), z: focal_length };
        Camera {
            origin,
            horizontal,
            vertical,
            upper_left: origin.sub_spec(horizontal.div_spec(two)).sub_spec(
                vertical.div_spec(two),
            ).sub_spec(focal),
        }
    }

    /// A camera from its viewpoint, the world-space viewport size, and the
    /// focal length.
    pub fn new(origin: Vec3<T>, viewport_width: T, viewport_height: T, focal_length: T) -> (r: Camera<T>)
        requires
            Self::new_ok(origin, viewport_width, viewport_height, focal_length),
        ensures
            r == Self::new_spec(origin, viewport_width, viewport_height, focal_length),
    {
        let zero = T::zero();
        let two = T::ratio(2, 1);
        let horizontal = Vec3::new(viewport_width, zero, zero);
        let vertical = Vec3::new(zero, viewport_height.neg(), zero);
        let focal = Vec3::new(zero, zero, focal_length);
        let upper_left = origin.sub(horizontal.div(two)).sub(vertical.div(two)).sub(focal);
        Camera { origin, horizontal, vertical, upper_left }
    }
}

/// Inputs on which a pixel index maps to a normalized coordinate.
pub open spec fn pixel_frac_ok<T: Number>(i: usize, limit: usize) -> bool {
    &&& T::from_usize_ok(i)
    &&& T::from_usize_ok((limit - 1) as usize)
    &&& T::from_usize_spec(i).div_ok(T::from_usize_spec((limit - 1) as usize))
}

/// The normalized coordinate `i / (limit - 1)` of a pixel index.
pub open spec fn pixel_frac_spec<T: Number>(i: usize, limit: usize) -> T {
    T::from_usize_spec(i).div_spec(T::from_usize_spec((limit - 1) as usize))
}

/// Inputs on which pixel `(x, y)` yields a camera ray.
pub open spec fn pixel_ray_ok<T: Number>(
    cam: Camera<T>,
    x: usize,
    y: usize,
    width: usize,
    height: usize,
) -> bool {
    let u = pixel_frac_spec::<T>(x, width);
    let v = pixel_frac_spec::<T>(y, height);
    &&& pixel_frac_ok::<T>(x, width)
    &&& pixel_frac_ok::<T>(y, height)
    &&& cam.horizontal.mul_ok(u)
    &&& cam.vertical.mul_ok(v)
    &&& cam.upper_left.add_ok(cam.horizontal.mul_spec(u))
    &&& cam.upper_left.add_spec(cam.horizontal.mul_spec(u)).add_ok(cam.vertical.mul_spec(v))
    &&& cam.upper_left.add_spec(cam.horizontal.mul_spec(u)).add_spec(
        cam.vertical.mul_spec(v),
    ).sub_ok(cam.origin)
}

/// The camera ray of pixel `(x, y)`: from the camera origin toward
/// `upper_left + u*horizontal + v*vertical - origin`.
pub open spec fn pixel_ray_spec<T: Number>(
    cam: Camera<T>,
    x: usize,
    y: usize,
    width: usize,
    height: usize,
) -> Ray<T> {
    let u = pixel_frac_spec::<T>(x, width);
    let v = pixel_frac_spec::<T>(y, height);
    Ray {
        origin: cam.origin,
        direction: cam.upper_left.add_spec(cam.horizontal.mul_spec(u)).add_spec(
            cam.vertical.mul_spec(v),
        ).sub_spec(cam.origin),
    }
}

/// Inputs on which the shading of a ray is defined, branch by branch: the
/// intersection query must be admissible, and whichever branch the query
/// selects must keep every scalar operation defined.
pub open spec fn ray_color_ok<T: Number>(ray: Ray<T>, sphere: Sphere<T>) -> bool {
    let one = T::ratio_spec(1, 1);
    let half = T::ratio_spec(1, 2);
    let white = Vec3 { x: one, y: one, z: one };
    let sky = Vec3 { x: T::ratio_spec(1, 2), y: T::ratio_spec(7, 10), z: one };
    &&& T::ratio_ok(1, 1)
    &&& T::ratio_ok(1, 2)
    &&& T::ratio_ok(7, 10)
    &&& sphere.hit_ok(ray, T::zero_spec(), T::max_value_spec())
    &&& (match sphere.hit_spec(ray, T::zero_spec(), T::max_value_spec()) {
        Some(rec) => {
            &&& rec.normal.add_ok(white)
            &&& rec.normal.add_spec(white).mul_ok(half)
        },
        None => {
            let unit_dir = ray.direction.normalize_spec();
            let t = unit_dir.y.add_spec(one).mul_spec(half);
            &&& ray.direction.normalize_ok()
            &&& unit_dir.y.add_ok(one)
            &&& unit_dir.y.add_spec(one).mul_ok(half)
            &&& one.sub_ok(t)
            &&& white.mul_ok(one.sub_spec(t))
            &&& sky.mul_ok(t)
            &&& white.mul_spec(one.sub_spec(t)).add_ok(sky.mul_spec(t))
        },
    })
}

/// The shading policy: on a hit inside `[0, largest value]`, half of the
/// oriented unit normal shifted by `(1, 1, 1)` (each component remapped from
/// `[-1, 1]` to `[0, 1]`); on a miss, the white-to-sky-blue gradient driven
/// by the vertical component of the normalized direction.
pub open spec fn ray_color_spec<T: Number>(ray: Ray<T>, sphere: Sphere<T>) -> Vec3<T> {
    let one = T::ratio_spec(1, 1);
    let half = T::ratio_spec(1, 2);
    let white = Vec3 { x: one, y: one, z: one };
    let sky = Vec3 { x: T::ratio_spec(1, 2), y: T::ratio_spec(7, 10), z: one };
    match sphere.hit_spec(ray, T::zero_spec(), T::max_value_spec()) {
        Some(rec) => rec.normal.add_spec(white).mul_spec(half),
        None => {
            let unit_dir = ray.direction.normalize_spec();
            let t = unit_dir.y.add_spec(one).mul_spec(half);
            white.mul_spec(one.sub_spec(t)).add_spec(sky.mul_spec(t))
        },
    }
}

/// Shades one camera ray: the sphere-hit branch where the intersection
/// query reports a record, the sky gradient otherwise.
pub fn ray_color<T: Number>(ray: &Ray<T>, sphere: &Sphere<T>) -> (r: Vec3<T>)
    requires
        ray_color_ok(*ray, *sphere),
    ensures
        r == ray_color_spec(*ray, *sphere),
{
    let one = T::ratio(1, 1);
    let half = T::ratio(1, 2);
    let white = Vec3::new(one, one, one);
    if let Some(rec) = sphere.hit(ray, T::zero(), T::max_value()) {
        return rec.normal.add(white).mul(half);
    }
    let unit_dir = ray.direction.get_normalized();
    let t = unit_dir.y.add(one).mul(half);
    let sky = Vec3::new(T::ratio(1, 2), T::ratio(7, 10), one);
    white.mul(one.sub(t)).add(sky.mul(t))
}

/// Inputs on which pixel `(x, y)` can be rendered.
pub open spec fn pixel_ok<T: Number>(
    cam: Camera<T>,
    sphere: Sphere<T>,
    x: usize,
    y: usize,
    width: usize,
    height: usize,
) -> bool {
    &&& pixel_ray_ok::<T>(cam, x, y, width, height)
    &&& ray_color_ok(pixel_ray_spec::<T>(cam, x, y, width, height), sphere)
}

/// The linear color of pixel `(x, y)`.
pub open spec fn pixel_color_spec<T: Number>(
    cam: Camera<T>,
    sphere: Sphere<T>,
    x: usize,
    y: usize,
    width: usize,
    height: usize,
) -> Vec3<T> {
    ray_color_spec(pixel_ray_spec::<T>(cam, x, y, width, height), sphere)
}

/// The three bytes of pixel `(x, y)` stand encoded at the pixel's row-major
/// offset in `data`.
pub open spec fn pixel_bytes_ok<T: Number>(
    data: Seq<u8>,
    cam: Camera<T>,
    sphere: Sphere<T>,
    x: usize,
    y: usize,
    width: usize,
    height: usize,
) -> bool {
    let base: int = (y * width + x) * 3;
    let color = pixel_color_spec::<T>(cam, sphere, x, y, width, height);
    &&& data[base] == color.x.to_byte_spec()
    &&& data[base + 1] == color.y.to_byte_spec()
    &&& data[base + 2] == color.z.to_byte_spec()
}

/// The byte offset of a finished pixel lies inside the rows written so far.
proof fn lemma_pixel_offset_bound(px: int, py: int, width: int, y: int)
    requires
        0 <= px < width,
        0 <= py < y,
    ensures
        (py * width + px) * 3 + 3 <= y * width * 3,
{
    assert((py * width + px) * 3 + 3 <= y * width * 3) by (nonlinear_arith)
        requires
            0 <= px < width,
            0 <= py < y,
    ;
}

/// Renders the full frame: one camera ray per pixel, shaded and encoded
/// into a flat, row-major, top-to-bottom, left-to-right RGB buffer of
/// exactly `width * height * 3` bytes, three bytes per pixel.
pub fn render<T: Number>(
    camera: &Camera<T>,
    sphere: &Sphere<T>,
    width: usize,
    height: usize,
) -> (data: Vec<u8>)
    requires
        2 <= width,
        2 <= height,
        width * height * 3 <= usize::MAX,
        forall|x: usize, y: usize|
            x < width && y < height ==> #[trigger] pixel_ok(*camera, *sphere, x, y, width, height),
    ensures
        data.len() == width * height * 3,
        forall|x: usize, y: usize|
            x < width && y < height ==> #[trigger] pixel_bytes_ok(
                data@,
                *camera,
                *sphere,
                x,
                y,
                width,
                height,
            ),
{
    let mut data: Vec<u8> = Vec::new();
    let mut y: usize = 0;
    while y < height
        invariant
            y <= height,
            2 <= width,
            2 <= height,
            width * height * 3 <= usize::MAX,
            data.len() == y * width * 3,
            forall|px: usize, py: usize|
                px < width && py < height ==> #[trigger] pixel_ok(
                    *camera,
                    *sphere,
                    px,
                    py,
                    width,
                    height,
                ),
            forall|px: usize, py: usize|
                px < width && py < y ==> #[trigger] pixel_bytes_ok(
                    data@,
                    *camera,
                    *sphere,
                    px,
                    py,
                    width,
                    height,
                ),
        decreases height - y,
    {
        let mut x: usize = 0;
        while x < width
            invariant
                x <= width,
                y < height,
                2 <= width,
                2 <= height,
                width * height * 3 <= usize::MAX,
                data.len() == (y * width + x) * 3,
                forall|px: usize, py: usize|
                    px < width && py < height ==> #[trigger] pixel_ok(
                        *camera,
                        *sphere,
                        px,
                        py,
                        width,
                        height,
                    ),
                forall|px: usize, py: usize|
                    px < width && py < y ==> #[trigger] pixel_bytes_ok(
                        data@,
                        *camera,
                        *sphere,
                        px,
                        py,
                        width,
                        height,
                    ),
                forall|px: usize|
                    px < x ==> #[trigger] pixel_bytes_ok(
                        data@,
                        *camera,
                        *sphere,
                        px,
                        y,
                        width,
                        height,
                    ),
            decreases width - x,
        {
            proof {
                assert(pixel_ok(*camera, *sphere, x, y, width, height));
            }
            let u = T::from_usize(x).div(T::from_usize(width - 1));
            let v = T::from_usize(y).div(T::from_usize(height - 1));
            let dir = camera.upper_left.add(camera.horizontal.mul(u)).add(
                camera.vertical.mul(v),
            ).sub(camera.origin);
            let ray = Ray::new(camera.origin, dir);
            let color = ray_color(&ray, sphere);
            proof {
                assert(ray == pixel_ray_spec::<T>(*camera, x, y, width, height));
            }
            let ghost prev: Seq<u8> = data@;
            data.push(color.x.to_byte());
            data.push(color.y.to_byte());
            data.push(color.z.to_byte());
            proof {
                assert forall|px: usize, py: usize| px < width && py < y implies #[trigger] pixel_bytes_ok(
                    data@,
                    *camera,
                    *sphere,
                    px,
                    py,
                    width,
                    height,
                ) by {
                    let base: int = (py * width + px) * 3;
                    lemma_pixel_offset_bound(px as int, py as int, width as int, y as int);
                    assert(pixel_bytes_ok::<T>(prev, *camera, *sphere, px, py, width, height));
                    assert(data@[base] == prev[base]);
                    assert(data@[base + 1] == prev[base + 1]);
                    assert(data@[base + 2] == prev[base + 2]);
                }
                assert forall|px: usize| px < x + 1 implies #[trigger] pixel_bytes_ok(
                    data@,
                    *camera,
                    *sphere,
                    px,
                    y,
                    width,
                    height,
                ) by {
                    let base: int = (y * width + px) * 3;
                    if px < x {
                        assert(pixel_bytes_ok::<T>(prev, *camera, *sphere, px, y, width, height));
                        assert(base + 3 <= prev.len());
                        assert(data@[base] == prev[base]);
                        assert(data@[base + 1] == prev[base + 1]);
                        assert(data@[base + 2] == prev[base + 2]);
                    } else {
                        assert(px == x);
                        assert(base == prev.len());
                        assert(data@[base] == color.x.to_byte_spec());
                        assert(data@[base + 1] == color.y.to_byte_spec());
                        assert(data@[base + 2] == color.z.to_byte_spec());
                        assert(color == pixel_color_spec::<T>(*camera, *sphere, px, y, width, height));
                    }
                }
            }
            x = x + 1;
        }
        proof {
            assert((y * width + width) * 3 == (y + 1) * width * 3) by (nonlinear_arith);
        }
        y = y + 1;
    }
    proof {
        assert(y == height);
        assert(height * width * 3 == width * height * 3) by (nonlinear_arith);
    }
    data
}

} // verus!
