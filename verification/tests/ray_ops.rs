use raybert::math::fixed::Fix;
use raybert::math::ray::Ray;
use raybert::math::vec::{Abs, Epsilon, Number, Vec3};

fn fx(micros: i64) -> Fix {
    Fix::from_micros(micros)
}

fn eq_helper(lhs: Fix, rhs: Fix) {
    assert!(lhs.sub(rhs).abs().lt(Fix::epsilon()));
}

fn eq_helper_vec3(lhs: Vec3<Fix>, rhs: Vec3<Fix>) {
    eq_helper(lhs.x, rhs.x);
    eq_helper(lhs.y, rhs.y);
    eq_helper(lhs.z, rhs.z);
}

#[test]
fn at() {
    let r1 = Ray::new(
        Vec3::new(fx(0), fx(0), fx(0)),
        Vec3::new(fx(1_000_000), fx(0), fx(0)),
    );

    eq_helper_vec3(r1.at(fx(3_450_000)), Vec3::new(fx(3_450_000), fx(0), fx(0)));

    let r2 = Ray::new(
        Vec3::new(fx(1_000_000), fx(2_000_000), fx(3_000_000)),
        Vec3::new(fx(2_000_000), fx(1_000_000), fx(0)),
    );

    eq_helper_vec3(
        r2.at(fx(500_000)),
        Vec3::new(fx(2_000_000), fx(2_500_000), fx(3_000_000)),
    );
}
