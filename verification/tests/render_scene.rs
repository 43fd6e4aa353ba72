// End-to-end scenario: a 384x216 frame, camera at the origin, viewport
// height 2, aspect ratio 16/9, focal length 1, one sphere at (0, 0, -1) of
// radius 0.5. The center pixel is shaded by the sphere-hit branch, a corner
// pixel by the sky-gradient branch, and every pixel's bytes sit at the
// row-major offset the renderer promises.

use raybert::math::fixed::Fix;
use raybert::math::intersections::{Hittable, Sphere};
use raybert::math::ray::Ray;
use raybert::math::vec::{Number, Vec3};
use raybert::render::{ray_color, render, Camera};

const WIDTH: usize = 384;
const HEIGHT: usize = 216;

fn fx(micros: i64) -> Fix {
    Fix::from_micros(micros)
}

fn scene_camera() -> Camera<Fix> {
    let origin = Vec3::new(fx(0), fx(0), fx(0));
    let viewport_height = fx(2_000_000);
    let aspect_ratio = Fix::ratio(16, 9);
    let viewport_width = viewport_height.mul(aspect_ratio);
    Camera::new(origin, viewport_width, viewport_height, fx(1_000_000))
}

fn scene_sphere() -> Sphere<Fix> {
    Sphere::new(Vec3::new(fx(0), fx(0), fx(-1_000_000)), fx(500_000))
}

fn pixel_ray(camera: &Camera<Fix>, x: usize, y: usize) -> Ray<Fix> {
    let u = Fix::from_usize(x).div(Fix::from_usize(WIDTH - 1));
    let v = Fix::from_usize(y).div(Fix::from_usize(HEIGHT - 1));
    let dir = camera
        .upper_left
        .add(camera.horizontal.mul(u))
        .add(camera.vertical.mul(v))
        .sub(camera.origin);
    Ray::new(camera.origin, dir)
}

#[test]
fn frame_has_row_major_rgb_layout() {
    let camera = scene_camera();
    let sphere = scene_sphere();
    let data = render(&camera, &sphere, WIDTH, HEIGHT);

    assert_eq!(data.len(), WIDTH * HEIGHT * 3);

    for &(x, y) in &[(0usize, 0usize), (WIDTH / 2, HEIGHT / 2), (WIDTH - 1, HEIGHT - 1)] {
        let ray = pixel_ray(&camera, x, y);
        let color = ray_color(&ray, &sphere);
        let base = (y * WIDTH + x) * 3;
        assert_eq!(data[base], color.x.to_byte());
        assert_eq!(data[base + 1], color.y.to_byte());
        assert_eq!(data[base + 2], color.z.to_byte());
    }
}

#[test]
fn center_pixel_comes_from_sphere_branch() {
    let camera = scene_camera();
    let sphere = scene_sphere();
    let ray = pixel_ray(&camera, WIDTH / 2, HEIGHT / 2);

    let rec = sphere.hit(&ray, Fix::zero(), Fix::max_value());
    assert!(rec.is_some());

    let data = render(&camera, &sphere, WIDTH, HEIGHT);
    let color = ray_color(&ray, &sphere);
    let base = ((HEIGHT / 2) * WIDTH + WIDTH / 2) * 3;
    assert_eq!(data[base], color.x.to_byte());
    assert_eq!(data[base + 1], color.y.to_byte());
    assert_eq!(data[base + 2], color.z.to_byte());
}

#[test]
fn corner_pixel_comes_from_sky_gradient() {
    let camera = scene_camera();
    let sphere = scene_sphere();
    let ray = pixel_ray(&camera, 0, 0);

    // The corner ray misses the sphere entirely ...
    assert!(sphere.hit(&ray, Fix::zero(), Fix::max_value()).is_none());

    // ... so its color is the white-to-sky-blue blend for its computed t.
    let one = Fix::ratio(1, 1);
    let half = Fix::ratio(1, 2);
    let white = Vec3::new(one, one, one);
    let sky = Vec3::new(Fix::ratio(1, 2), Fix::ratio(7, 10), one);
    let unit_dir = ray.direction.get_normalized();
    let t = unit_dir.y.add(one).mul(half);
    let expected = white.mul(one.sub(t)).add(sky.mul(t));

    let color = ray_color(&ray, &sphere);
    assert_eq!(color.x, expected.x);
    assert_eq!(color.y, expected.y);
    assert_eq!(color.z, expected.z);
}
