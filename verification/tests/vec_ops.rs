use raybert::math::fixed::Fix;
use raybert::math::vec::{Abs, Epsilon, Number, Sqrt, Vec3};

fn fx(micros: i64) -> Fix {
    Fix::from_micros(micros)
}

fn eq_helper(lhs: Fix, rhs: Fix) {
    assert!(lhs.sub(rhs).abs().lt(Fix::epsilon()));
}

fn eq_helper_vec3(lhs: Vec3<Fix>, rhs: Vec3<Fix>) {
    eq_helper(lhs.x, rhs.x);
    eq_helper(lhs.y, rhs.y);
    eq_helper(lhs.z, rhs.z);
}

#[test]
fn add() {
    let v1 = Vec3::new(fx(1_230_000), fx(4_560_000), fx(7_890_000));
    let v2 = Vec3::new(fx(6_540_000), fx(3_120_000), fx(8_970_000));

    let expected = Vec3::new(v1.x.add(v2.x), v1.y.add(v2.y), v1.z.add(v2.z));

    let result = v1.add(v2);
    eq_helper_vec3(result, expected);
}

#[test]
fn sub() {
    let v1 = Vec3::new(fx(1_230_000), fx(4_560_000), fx(7_890_000));
    let v2 = Vec3::new(fx(6_540_000), fx(3_120_000), fx(8_970_000));

    let expected = Vec3::new(v1.x.sub(v2.x), v1.y.sub(v2.y), v1.z.sub(v2.z));

    let result = v1.sub(v2);
    eq_helper_vec3(result, expected);
}

#[test]
fn add_assign() {
    let mut v1 = Vec3::new(fx(1_230_000), fx(4_560_000), fx(7_890_000));
    let v2 = Vec3::new(fx(6_540_000), fx(3_120_000), fx(8_970_000));

    let expected = Vec3::new(v1.x.add(v2.x), v1.y.add(v2.y), v1.z.add(v2.z));

    v1.add_assign(v2);
    eq_helper_vec3(v1, expected);
}

#[test]
fn sub_assign() {
    let mut v1 = Vec3::new(fx(1_230_000), fx(4_560_000), fx(7_890_000));
    let v2 = Vec3::new(fx(6_540_000), fx(3_120_000), fx(8_970_000));

    let expected = Vec3::new(v1.x.sub(v2.x), v1.y.sub(v2.y), v1.z.sub(v2.z));

    v1.sub_assign(v2);
    eq_helper_vec3(v1, expected);
}

#[test]
fn mul() {
    let v1 = Vec3::new(fx(1_000_000), fx(2_000_000), fx(3_000_000));
    let s1 = fx(2_000_000);

    let expected = Vec3::new(v1.x.mul(s1), v1.y.mul(s1), v1.z.mul(s1));

    let result = v1.mul(s1);
    eq_helper_vec3(result, expected);
}

#[test]
fn mul_assign() {
    let mut v1 = Vec3::new(fx(1_000_000), fx(2_000_000), fx(3_000_000));
    let s1 = fx(2_000_000);

    let expected = Vec3::new(v1.x.mul(s1), v1.y.mul(s1), v1.z.mul(s1));

    v1.mul_assign(s1);
    eq_helper_vec3(v1, expected);
}

#[test]
fn div() {
    let v1 = Vec3::new(fx(1_000_000), fx(2_000_000), fx(3_000_000));
    let s1 = fx(2_000_000);

    let expected = Vec3::new(v1.x.div(s1), v1.y.div(s1), v1.z.div(s1));

    let result = v1.div(s1);
    eq_helper_vec3(result, expected);
}

#[test]
fn div_assign() {
    let mut v1 = Vec3::new(fx(1_000_000), fx(2_000_000), fx(3_000_000));
    let s1 = fx(2_000_000);

    let expected = Vec3::new(v1.x.div(s1), v1.y.div(s1), v1.z.div(s1));

    v1.div_assign(s1);
    eq_helper_vec3(v1, expected);
}

#[test]
fn len() {
    let v1 = Vec3::new(fx(1_000_000), fx(2_000_000), fx(3_000_000));
    let expected = v1.x.mul(v1.x).add(v1.y.mul(v1.y)).add(v1.z.mul(v1.z)).sqrt();
    eq_helper(v1.len(), expected);

    let v2 = Vec3::new(fx(5_000_000), fx(0), fx(0));
    eq_helper(v2.len(), fx(5_000_000));

    let v3 = Vec3::new(fx(1_000_000), fx(1_000_000), fx(0));
    eq_helper(v3.len(), fx(2_000_000).sqrt());
}

#[test]
fn len_squared() {
    let v1 = Vec3::new(fx(1_000_000), fx(2_000_000), fx(3_000_000));
    let expected = v1.x.mul(v1.x).add(v1.y.mul(v1.y)).add(v1.z.mul(v1.z));
    eq_helper(v1.len_squared(), expected);

    let v2 = Vec3::new(fx(5_000_000), fx(0), fx(0));
    eq_helper(v2.len_squared(), fx(25_000_000));

    let v3 = Vec3::new(fx(1_000_000), fx(1_000_000), fx(0));
    eq_helper(v3.len_squared(), fx(4_000_000).sqrt());
}

#[test]
fn normalize() {
    let mut v1 = Vec3::new(fx(5_000_000), fx(0), fx(0));
    v1.normalize();

    let expected = Vec3::new(fx(1_000_000), fx(0), fx(0));
    eq_helper_vec3(v1, expected);

    let mut v2 = Vec3::new(fx(5_000_000), fx(5_000_000), fx(0));
    v2.normalize();

    let expected2 = Vec3::new(fx(500_000).sqrt(), fx(500_000).sqrt(), fx(0));
    eq_helper_vec3(v2, expected2);
}

#[test]
fn dot() {
    let v1 = Vec3::new(fx(5_000_000), fx(0), fx(0));
    let v2 = Vec3::new(fx(0), fx(4_000_000), fx(0));
    eq_helper(raybert::math::vec::dot(v1, v2), fx(0));
    eq_helper(raybert::math::vec::dot(v1, v1), v1.len_squared());
}
