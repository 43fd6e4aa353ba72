// Concrete instances of the algebraic vector laws that are proved
// generically in the library (commutativity and associativity of addition,
// subtraction as addition of the negation, commutativity of the dot product,
// the dot of a vector with itself as its squared length), plus the
// approximate laws that only make sense on chosen values for an exact
// truncating scalar: the multiply-then-divide round trip and the length of a
// normalized vector.

use raybert::math::fixed::Fix;
use raybert::math::vec::{dot, Abs, Epsilon, Number, Sqrt, Vec3};

fn fx(micros: i64) -> Fix {
    Fix::from_micros(micros)
}

fn eq_helper(lhs: Fix, rhs: Fix) {
    assert!(lhs.sub(rhs).abs().lt(Fix::epsilon()));
}

fn eq_helper_vec3(lhs: Vec3<Fix>, rhs: Vec3<Fix>) {
    eq_helper(lhs.x, rhs.x);
    eq_helper(lhs.y, rhs.y);
    eq_helper(lhs.z, rhs.z);
}

#[test]
fn add_commutes() {
    let a = Vec3::new(fx(1_230_000), fx(-4_560_000), fx(7_890_000));
    let b = Vec3::new(fx(6_540_000), fx(3_120_000), fx(-8_970_000));
    eq_helper_vec3(a.add(b), b.add(a));
}

#[test]
fn add_associates() {
    let a = Vec3::new(fx(1_230_000), fx(-4_560_000), fx(7_890_000));
    let b = Vec3::new(fx(6_540_000), fx(3_120_000), fx(-8_970_000));
    let c = Vec3::new(fx(-2_000_000), fx(500_000), fx(1_000_000));
    eq_helper_vec3(a.add(b).add(c), a.add(b.add(c)));
}

#[test]
fn sub_is_add_neg() {
    let a = Vec3::new(fx(1_230_000), fx(-4_560_000), fx(7_890_000));
    let b = Vec3::new(fx(6_540_000), fx(3_120_000), fx(-8_970_000));
    eq_helper_vec3(a.sub(b), a.add(b.neg()));
}

#[test]
fn mul_div_round_trip() {
    let a = Vec3::new(fx(1_000_000), fx(2_000_000), fx(3_000_000));
    let s = fx(2_000_000);
    eq_helper_vec3(a.mul(s).div(s), a);
}

#[test]
fn dot_commutes() {
    let a = Vec3::new(fx(1_230_000), fx(-4_560_000), fx(7_890_000));
    let b = Vec3::new(fx(6_540_000), fx(3_120_000), fx(-8_970_000));
    eq_helper(dot(a, b), dot(b, a));
}

#[test]
fn dot_self_is_len_squared() {
    let a = Vec3::new(fx(1_230_000), fx(-4_560_000), fx(7_890_000));
    eq_helper(dot(a, a), a.len_squared());
}

#[test]
fn normalized_has_unit_len() {
    let a = Vec3::new(fx(5_000_000), fx(0), fx(0));
    let n = a.get_normalized();
    eq_helper(n.len(), fx(1_000_000));

    let b = Vec3::new(fx(3_000_000), fx(4_000_000), fx(0));
    let m = b.get_normalized();
    eq_helper(m.len(), fx(1_000_000));
}
