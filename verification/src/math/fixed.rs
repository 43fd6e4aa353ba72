//! `Fix`: the crate's own exact scalar, a fixed-point number stored as a
//! signed count of millionths.
//!
//! `Fix` implements the full [`Number`](crate::math::vec::Number) capability
//! set with exact contracts: addition and subtraction are the integer
//! operations on the underlying counts, guarded against overflow;
//! multiplication, division and the rational constants round toward zero;
//! the square root is the exact floor square root. Every algebraic law the
//! trait demands is proved here.

use vstd::prelude::*;

use crate::math::vec::{Abs, Epsilon, Number, Sqrt, Vec3};

verus! {

/// How many raw units make one: `Fix` counts millionths.
pub const SCALE: i64 = 1_000_000;

/// Integer division truncated toward zero (the rounding of `Fix`'s
/// multiplication and division), defined from Verus's Euclidean `/`.
/// Meaningful only for `b != 0`.
pub open spec fn tdiv(a: int, b: int) -> int {
    if a >= 0 {
        if b >= 0 {
            a / b
        } else {
            -(a / -b)
        }
    } else {
        if b >= 0 {
            -(-a / b)
        } else {
            -a / -b
        }
    }
}

/// Whether `x` is a value an `i64` can hold.
pub open spec fn fits_i64(x: int) -> bool {
    i64::MIN <= x <= i64::MAX
}

/// The floor of the square root of `n` (meaningful for `n >= 0`).
pub open spec fn sqrt_floor(n: int) -> int {
    choose|r: int| 0 <= r && #[trigger] (r * r) <= n && n < (r + 1) * (r + 1)
}

/// A nonnegative `r` whose square is at most `n`, while the next square is
/// beyond `n`, is the floor square root of `n`: there is exactly one such
/// integer.
pub proof fn lemma_sqrt_floor_unique(n: int, r: int)
    requires
        0 <= r,
        r * r <= n,
        n < (r + 1) * (r + 1),
    ensures
        sqrt_floor(n) == r,
{
    let q = sqrt_floor(n);
    assert(0 <= q && q * q <= n && n < (q + 1) * (q + 1)) by {
        assert(0 <= r && r * r <= n && n < (r + 1) * (r + 1));
    }
    if q < r {
        assert(false) by (nonlinear_arith)
            requires
                0 <= q,
                q < r,
                r * r <= n,
                n < (q + 1) * (q + 1),
        ;
    }
    if r < q {
        assert(false) by (nonlinear_arith)
            requires
                0 <= r,
                r < q,
                q * q <= n,
                n < (r + 1) * (r + 1),
        ;
    }
}

/// Floor square root of a `u128`, by binary search on the answer.
fn isqrt_u128(n: u128) -> (r: u128)
    ensures
        r * r <= n < (r + 1) * (r + 1),
{
    let mut lo: u128 = 0;
    let mut hi: u128 = 0x1_0000_0000_0000_0000;
    proof {
        assert((n as int) < 0x1_0000_0000_0000_0000 * 0x1_0000_0000_0000_0000);
    }
    while lo + 1 < hi
        invariant
            lo < hi <= 0x1_0000_0000_0000_0000,
            lo * lo <= n,
            (n as int) < (hi as int) * (hi as int),
        decreases hi - lo,
    {
        let mid: u128 = lo + (hi - lo) / 2;
        proof {
            assert(mid * mid < 0x1_0000_0000_0000_0000 * 0x1_0000_0000_0000_0000)
                by (nonlinear_arith)
                requires
                    mid < 0x1_0000_0000_0000_0000,
            ;
        }
        if mid * mid <= n {
            lo = mid;
        } else {
            hi = mid;
        }
    }
    lo
}

/// Truncated (toward zero) division on `i128`, computed through unsigned
/// division of the magnitudes.
fn tdiv_i128(a: i128, b: i128) -> (q: i128)
    requires
        b != 0,
        a != i128::MIN,
        b != i128::MIN,
    ensures
        q == tdiv(a as int, b as int),
{
    let an: u128 = if a >= 0 {
        a as u128
    } else {
        (-a) as u128
    };
    let bn: u128 = if b >= 0 {
        b as u128
    } else {
        (-b) as u128
    };
    let qn: u128 = an / bn;
    proof {
        assert(qn <= an) by (nonlinear_arith)
            requires
                bn >= 1,
                qn == an as int / bn as int,
        ;
    }
    if (a >= 0) == (b >= 0) {
        qn as i128
    } else {
        -(qn as i128)
    }
}

/// A fixed-point scalar: `raw` millionths.
#[derive(Clone, Copy, Debug, PartialEq, Eq, Structural)]
pub struct Fix {
    pub raw: i64,
}

impl Fix {
    /// The scalar worth `raw` millionths.
    pub fn from_micros(raw: i64) -> (r: Self)
        ensures
            r.raw == raw,
    {
        Fix { raw }
    }

    /// The count of millionths this scalar stands for.
    pub fn micros(self) -> (r: i64)
        ensures
            r == self.raw,
    {
        self.raw
    }
}

impl Sqrt for Fix {
    /// The square root is defined on nonnegative values.
    open spec fn sqrt_ok(self) -> bool {
        self.raw >= 0
    }

    /// The floor square root in fixed-point: the root of `v` millionths is
    /// `floor(sqrt(v * SCALE))` millionths.
    open spec fn sqrt_spec(self) -> Self {
        Fix { raw: sqrt_floor(self.raw * SCALE) as i64 }
    }

    fn sqrt(self) -> (r: Self) {
        proof {
            assert(self.raw * (SCALE as int) <= i64::MAX * (SCALE as int)) by (nonlinear_arith)
                requires
                    self.raw <= i64::MAX,
                    SCALE > 0,
            ;
        }
        let n: u128 = (self.raw as u128) * (SCALE as u128);
        let root: u128 = isqrt_u128(n);
        proof {
            assert(root <= 0xffff_ffff_ffff_ffff) by (nonlinear_arith)
                requires
                    root * root <= n,
                    n <= 0xffff_ffff_ffff_ffff * 0xffff_ffff_ffff_ffff,
            ;
            lemma_sqrt_floor_unique(n as int, root as int);
        }
        Fix { raw: root as i64 }
    }
}

impl Abs for Fix {
    /// Defined wherever the magnitude itself is representable.
    open spec fn abs_ok(self) -> bool {
        self.raw != i64::MIN
    }

    /// The magnitude, as a count of millionths.
    open spec fn abs_spec(self) -> Self {
        if self.raw < 0 {
            Fix { raw: (-self.raw) as i64 }
        } else {
            self
        }
    }

    fn abs(self) -> (r: Self) {
        if self.raw < 0 {
            Fix { raw: -self.raw }
        } else {
            self
        }
    }
}

impl Epsilon for Fix {
    /// One millionth: the smallest positive `Fix`, so that two values within
    /// `epsilon` of each other are equal.
    open spec fn epsilon_spec() -> Self {
        Fix { raw: 1 }
    }

    fn epsilon() -> (r: Self) {
        Fix { raw: 1 }
    }
}

impl Number for Fix {
    /// Addition is defined wherever the exact sum is representable.
    open spec fn add_ok(self, rhs: Self) -> bool {
        fits_i64(self.raw + rhs.raw)
    }

    /// The exact sum of the two counts.
    open spec fn add_spec(self, rhs: Self) -> Self {
        Fix { raw: (self.raw + rhs.raw) as i64 }
    }

    /// Subtraction is defined wherever the exact difference is representable.
    open spec fn sub_ok(self, rhs: Self) -> bool {
        fits_i64(self.raw - rhs.raw)
    }

    /// The exact difference of the two counts.
    open spec fn sub_spec(self, rhs: Self) -> Self {
        Fix { raw: (self.raw - rhs.raw) as i64 }
    }

    /// Multiplication is defined wherever the rounded product is
    /// representable.
    open spec fn mul_ok(self, rhs: Self) -> bool {
        fits_i64(tdiv(self.raw * rhs.raw, SCALE as int))
    }

    /// The product, rounded toward zero to the nearest millionth.
    open spec fn mul_spec(self, rhs: Self) -> Self {
        Fix { raw: tdiv(self.raw * rhs.raw, SCALE as int) as i64 }
    }

    /// Division is defined for a nonzero divisor wherever the rounded
    /// quotient is representable.
    open spec fn div_ok(self, rhs: Self) -> bool {
        rhs.raw != 0 && fits_i64(tdiv(self.raw * SCALE, rhs.raw as int))
    }

    /// The quotient, rounded toward zero to the nearest millionth.
    open spec fn div_spec(self, rhs: Self) -> Self {
        Fix { raw: tdiv(self.raw * SCALE, rhs.raw as int) as i64 }
    }

    /// Negation is defined wherever the negated value is representable.
    open spec fn neg_ok(self) -> bool {
        self.raw != i64::MIN
    }

    /// The exact negation.
    open spec fn neg_spec(self) -> Self {
        Fix { raw: (-self.raw) as i64 }
    }

    /// The strict order of the underlying counts.
    open spec fn lt_spec(self, rhs: Self) -> bool {
        self.raw < rhs.raw
    }

    /// The non-strict order of the underlying counts.
    open spec fn le_spec(self, rhs: Self) -> bool {
        self.raw <= rhs.raw
    }

    open spec fn zero_spec() -> Self {
        Fix { raw: 0 }
    }

    open spec fn max_value_spec() -> Self {
        Fix { raw: i64::MAX }
    }

    /// The rational is representable when the divisor is nonzero and the
    /// rounded value fits.
    open spec fn ratio_ok(num: i64, den: i64) -> bool {
        den != 0 && fits_i64(tdiv(num * SCALE, den as int))
    }

    /// `num / den`, rounded toward zero to the nearest millionth.
    open spec fn ratio_spec(num: i64, den: i64) -> Self {
        Fix { raw: tdiv(num * SCALE, den as int) as i64 }
    }

    /// The integer is representable when its count of millionths fits.
    open spec fn from_usize_ok(n: usize) -> bool {
        n * SCALE <= i64::MAX
    }

    /// The exact fixed-point value of the integer.
    open spec fn from_usize_spec(n: usize) -> Self {
        Fix { raw: (n * SCALE) as i64 }
    }

    /// The byte is `floor(v * 255.99999)` for the value `v` this scalar
    /// stands for, saturated into `0 ..= 255` as a float-to-byte cast would
    /// be (legitimate shading output never leaves `[0, 1]`, so the
    /// saturation is never exercised by it).
    open spec fn to_byte_spec(self) -> u8 {
        if self.raw < 0 {
            0u8
        } else if self.raw * 25599999 / 100000000000 > 255 {
            255u8
        } else {
            (self.raw * 25599999 / 100000000000) as u8
        }
    }

    fn add(self, rhs: Self) -> (r: Self) {
        Fix { raw: self.raw + rhs.raw }
    }

    fn sub(self, rhs: Self) -> (r: Self) {
        Fix { raw: self.raw - rhs.raw }
    }

    fn mul(self, rhs: Self) -> (r: Self) {
        proof {
            assert(self.raw * rhs.raw < i128::MAX && self.raw * rhs.raw > i128::MIN)
                by (nonlinear_arith)
                requires
                    i64::MIN <= self.raw <= i64::MAX,
                    i64::MIN <= rhs.raw <= i64::MAX,
            ;
        }
        let p: i128 = (self.raw as i128) * (rhs.raw as i128);
        let q: i128 = tdiv_i128(p, SCALE as i128);
        Fix { raw: q as i64 }
    }

    fn div(self, rhs: Self) -> (r: Self) {
        proof {
            assert(self.raw * (SCALE as int) < i128::MAX && self.raw * (SCALE as int) > i128::MIN)
                by (nonlinear_arith)
                requires
                    i64::MIN <= self.raw <= i64::MAX,
                    0 < SCALE <= 1000000,
            ;
        }
        let num: i128 = (self.raw as i128) * (SCALE as i128);
        let q: i128 = tdiv_i128(num, rhs.raw as i128);
        Fix { raw: q as i64 }
    }

    fn neg(self) -> (r: Self) {
        Fix { raw: -self.raw }
    }

    fn lt(self, rhs: Self) -> (r: bool) {
        self.raw < rhs.raw
    }

    fn le(self, rhs: Self) -> (r: bool) {
        self.raw <= rhs.raw
    }

    fn zero() -> (r: Self) {
        Fix { raw: 0 }
    }

    fn max_value() -> (r: Self) {
        Fix { raw: i64::MAX }
    }

    fn ratio(num: i64, den: i64) -> (r: Self) {
        proof {
            assert(num * (SCALE as int) < i128::MAX && num * (SCALE as int) > i128::MIN)
                by (nonlinear_arith)
                requires
                    i64::MIN <= num <= i64::MAX,
                    0 < SCALE <= 1000000,
            ;
        }
        let n: i128 = (num as i128) * (SCALE as i128);
        let q: i128 = tdiv_i128(n, den as i128);
        Fix { raw: q as i64 }
    }

    fn from_usize(n: usize) -> (r: Self) {
        proof {
            assert(n * SCALE >= 0) by (nonlinear_arith)
                requires
                    n >= 0,
                    SCALE > 0,
            ;
        }
        let m: i64 = n as i64;
        Fix { raw: m * SCALE }
    }

    fn to_byte(self) -> (r: u8) {
        if self.raw < 0 {
            0u8
        } else {
            proof {
                assert(self.raw * 25599999 <= i64::MAX * 25599999) by (nonlinear_arith)
                    requires
                        0 <= self.raw <= i64::MAX,
                ;
            }
            let p: u128 = (self.raw as u128) * 25599999u128;
            let v: u128 = p / 100000000000u128;
            if v > 255 {
                255u8
            } else {
                v as u8
            }
        }
    }

    proof fn lemma_add_comm(a: Self, b: Self) {
    }

    proof fn lemma_add_assoc(a: Self, b: Self, c: Self) {
    }

    proof fn lemma_sub_is_add_neg(a: Self, b: Self) {
    }

    proof fn lemma_mul_comm(a: Self, b: Self) {
        assert(a.raw * b.raw == b.raw * a.raw) by (nonlinear_arith);
    }

    proof fn lemma_lt_asym(a: Self, b: Self) {
    }
}

/// A square is never negative, and neither is its truncated rescaling.
proof fn lemma_square_nonneg(a: Fix)
    requires
        a.mul_ok(a),
    ensures
        0 <= a.mul_spec(a).raw,
{
    assert(0 <= a.raw * a.raw) by (nonlinear_arith);
    assert(0 <= (a.raw * a.raw) / (SCALE as int)) by (nonlinear_arith)
        requires
            0 <= a.raw * a.raw,
            0 < SCALE,
    ;
}

/// Law: the squared length of a vector is never negative (wherever it is
/// defined at all).
pub proof fn lemma_len_squared_nonneg(v: Vec3<Fix>)
    requires
        v.len_squared_ok(),
    ensures
        Fix::zero_spec().le_spec(v.len_squared_spec()),
{
    lemma_square_nonneg(v.x);
    lemma_square_nonneg(v.y);
    lemma_square_nonneg(v.z);
}

} // verus!
