//! Generic three-component vector algebra over an abstract numeric scalar.
//!
//! A scalar type provides its arithmetic through the [`Number`] trait (with
//! [`Sqrt`], [`Abs`] and [`Epsilon`] as separate capabilities). Every
//! executable operation carries an exact contract phrased over per-type
//! specification functions (`add_spec`, `mul_spec`, ...), and every scalar
//! type must prove the small algebraic laws (commutativity of addition and
//! multiplication, associativity of addition, subtraction as addition of the
//! negation, asymmetry of the order) from which the vector-level laws below
//! are derived once, generically.

use vstd::prelude::*;

verus! {

/// Square-root capability of a scalar.
///
/// `sqrt_ok` names the inputs on which the square root is defined (callers
/// must establish it); `sqrt_spec` names the value the operation returns.
pub trait Sqrt: Sized + Copy {
    /// Inputs on which `sqrt` may be called.
    spec fn sqrt_ok(self) -> bool;

    /// The value `sqrt` returns.
    spec fn sqrt_spec(self) -> Self;

    /// Square root of `self`.
    fn sqrt(self) -> (r: Self)
        requires
            self.sqrt_ok(),
        ensures
            r == self.sqrt_spec(),
    ;
}

/// Absolute-value capability of a scalar.
pub trait Abs: Sized + Copy {
    /// Inputs on which `abs` may be called.
    spec fn abs_ok(self) -> bool;

    /// The value `abs` returns.
    spec fn abs_spec(self) -> Self;

    /// Absolute value of `self`.
    fn abs(self) -> (r: Self)
        requires
            self.abs_ok(),
        ensures
            r == self.abs_spec(),
    ;
}

/// A per-type tolerance constant for approximate-equality tests.
pub trait Epsilon: Sized + Copy {
    /// The value `epsilon` returns.
    spec fn epsilon_spec() -> Self;

    /// The type's tolerance constant.
    fn epsilon() -> (r: Self)
        ensures
            r == Self::epsilon_spec(),
    ;
}

/// The full capability set a scalar needs to drive the vector algebra, the
/// ray primitive, the sphere intersection and the render loop: total-or-guarded
/// arithmetic, comparison, and a handful of constants.
///
/// Each operation `op` comes with a specification function `op_spec` naming
/// its result and, where the operation is partial for some scalar types, a
/// precondition `op_ok` naming the inputs on which it is defined. The
/// `lemma_*` obligations are the algebraic laws every implementation must
/// prove; the generic vector laws rest on them.
pub trait Number: Sqrt + Abs + Epsilon {
    /// Inputs on which `add` may be called.
    spec fn add_ok(self, rhs: Self) -> bool;

    /// The value `add` returns.
    spec fn add_spec(self, rhs: Self) -> Self;

    /// Inputs on which `sub` may be called.
    spec fn sub_ok(self, rhs: Self) -> bool;

    /// The value `sub` returns.
    spec fn sub_spec(self, rhs: Self) -> Self;

    /// Inputs on which `mul` may be called.
    spec fn mul_ok(self, rhs: Self) -> bool;

    /// The value `mul` returns.
    spec fn mul_spec(self, rhs: Self) -> Self;

    /// Inputs on which `div` may be called.
    spec fn div_ok(self, rhs: Self) -> bool;

    /// The value `div` returns.
    spec fn div_spec(self, rhs: Self) -> Self;

    /// Inputs on which `neg` may be called.
    spec fn neg_ok(self) -> bool;

    /// The value `neg` returns.
    spec fn neg_spec(self) -> Self;

    /// What `lt` returns: the strict order of the type.
    spec fn lt_spec(self, rhs: Self) -> bool;

    /// What `le` returns: the non-strict order of the type.
    spec fn le_spec(self, rhs: Self) -> bool;

    /// The value `zero` returns.
    spec fn zero_spec() -> Self;

    /// The value `max_value` returns.
    spec fn max_value_spec() -> Self;

    /// Inputs on which `ratio` may be called.
    spec fn ratio_ok(num: i64, den: i64) -> bool;

    /// The value `ratio` returns.
    spec fn ratio_spec(num: i64, den: i64) -> Self;

    /// Inputs on which `from_usize` may be called.
    spec fn from_usize_ok(n: usize) -> bool;

    /// The value `from_usize` returns.
    spec fn from_usize_spec(n: usize) -> Self;

    /// The value `to_byte` returns.
    spec fn to_byte_spec(self) -> u8;

    /// Sum of two scalars.
    fn add(self, rhs: Self) -> (r: Self)
        requires
            self.add_ok(rhs),
        ensures
            r == self.add_spec(rhs),
    ;

    /// Difference of two scalars.
    fn sub(self, rhs: Self) -> (r: Self)
        requires
            self.sub_ok(rhs),
        ensures
            r == self.sub_spec(rhs),
    ;

    /// Product of two scalars.
    fn mul(self, rhs: Self) -> (r: Self)
        requires
            self.mul_ok(rhs),
        ensures
            r == self.mul_spec(rhs),
    ;

    /// Quotient of two scalars.
    fn div(self, rhs: Self) -> (r: Self)
        requires
            self.div_ok(rhs),
        ensures
            r == self.div_spec(rhs),
    ;

    /// Negation of a scalar.
    fn neg(self) -> (r: Self)
        requires
            self.neg_ok(),
        ensures
            r == self.neg_spec(),
    ;

    /// Strict comparison: `self < rhs`.
    fn lt(self, rhs: Self) -> (r: bool)
        ensures
            r == self.lt_spec(rhs),
    ;

    /// Non-strict comparison: `self <= rhs`.
    fn le(self, rhs: Self) -> (r: bool)
        ensures
            r == self.le_spec(rhs),
    ;

    /// The additive identity of the type.
    fn zero() -> (r: Self)
        ensures
            r == Self::zero_spec(),
    ;

    /// The largest value of the type, used as an unbounded upper parameter
    /// window.
    fn max_value() -> (r: Self)
        ensures
            r == Self::max_value_spec(),
    ;

    /// The scalar closest to the rational `num / den` that the type can hold;
    /// how the rational is rounded is the type's own affair, named by
    /// `ratio_spec`.
    fn ratio(num: i64, den: i64) -> (r: Self)
        requires
            Self::ratio_ok(num, den),
        ensures
            r == Self::ratio_spec(num, den),
    ;

    /// The scalar standing for the integer `n`.
    fn from_usize(n: usize) -> (r: Self)
        requires
            Self::from_usize_ok(n),
        ensures
            r == Self::from_usize_spec(n),
    ;

    /// Encodes a linear color component (nominally in `[0, 1]`) into a byte;
    /// the exact mapping is the type's own affair, named by `to_byte_spec`.
    fn to_byte(self) -> (r: u8)
        ensures
            r == self.to_byte_spec(),
    ;

    /// Law: addition is commutative (where defined).
    proof fn lemma_add_comm(a: Self, b: Self)
        requires
            a.add_ok(b),
        ensures
            b.add_ok(a),
            a.add_spec(b) == b.add_spec(a),
    ;

    /// Law: addition is associative (where every intermediate sum is defined).
    proof fn lemma_add_assoc(a: Self, b: Self, c: Self)
        requires
            a.add_ok(b),
            a.add_spec(b).add_ok(c),
            b.add_ok(c),
            a.add_ok(b.add_spec(c)),
        ensures
            a.add_spec(b).add_spec(c) == a.add_spec(b.add_spec(c)),
    ;

    /// Law: subtraction is addition of the negation (where defined).
    proof fn lemma_sub_is_add_neg(a: Self, b: Self)
        requires
            a.sub_ok(b),
            b.neg_ok(),
            a.add_ok(b.neg_spec()),
        ensures
            a.sub_spec(b) == a.add_spec(b.neg_spec()),
    ;

    /// Law: multiplication is commutative (where defined).
    proof fn lemma_mul_comm(a: Self, b: Self)
        requires
            a.mul_ok(b),
        ensures
            b.mul_ok(a),
            a.mul_spec(b) == b.mul_spec(a),
    ;

    /// Law: the strict order is asymmetric.
    proof fn lemma_lt_asym(a: Self, b: Self)
        ensures
            a.lt_spec(b) ==> !b.lt_spec(a),
    ;
}

/// A three-component vector (or point: no distinction is enforced) over a
/// numeric scalar. Zero vectors and non-unit directions are legal values.
#[derive(Clone, Copy, Debug)]
pub struct Vec3<T: Number> {
    pub x: T,
    pub y: T,
    pub z: T,
}

impl<T: Number> Vec3<T> {
    /// A vector from its three components.
    pub fn new(x: T, y: T, z: T) -> (r: Self)
        ensures
            r.x == x,
            r.y == y,
            r.z == z,
    {
        Vec3 { x, y, z }
    }

    /// Inputs on which componentwise addition is defined.
    pub open spec fn add_ok(self, rhs: Self) -> bool {
        self.x.add_ok(rhs.x) && self.y.add_ok(rhs.y) && self.z.add_ok(rhs.z)
    }

    /// Componentwise sum.
    pub open spec fn add_spec(self, rhs: Self) -> Self {
        Vec3 { x: self.x.add_spec(rhs.x), y: self.y.add_spec(rhs.y), z: self.z.add_spec(rhs.z) }
    }

    /// Componentwise vector addition.
    pub fn add(self, rhs: Self) -> (r: Self)
        requires
            self.add_ok(rhs),
        ensures
            r == self.add_spec(rhs),
    {
        Vec3 { x: self.x.add(rhs.x), y: self.y.add(rhs.y), z: self.z.add(rhs.z) }
    }

    /// In-place componentwise vector addition.
    pub fn add_assign(&mut self, rhs: Self)
        requires
            old(self).add_ok(rhs),
        ensures
            *final(self) == old(self).add_spec(rhs),
    {
        self.x = self.x.add(rhs.x);
        self.y = self.y.add(rhs.y);
        self.z = self.z.add(rhs.z);
    }

    /// Inputs on which componentwise subtraction is defined.
    pub open spec fn sub_ok(self, rhs: Self) -> bool {
        self.x.sub_ok(rhs.x) && self.y.sub_ok(rhs.y) && self.z.sub_ok(rhs.z)
    }

    /// Componentwise difference.
    pub open spec fn sub_spec(self, rhs: Self) -> Self {
        Vec3 { x: self.x.sub_spec(rhs.x), y: self.y.sub_spec(rhs.y), z: self.z.sub_spec(rhs.z) }
    }

    /// Componentwise vector subtraction.
    pub fn sub(self, rhs: Self) -> (r: Self)
        requires
            self.sub_ok(rhs),
        ensures
            r == self.sub_spec(rhs),
    {
        Vec3 { x: self.x.sub(rhs.x), y: self.y.sub(rhs.y), z: self.z.sub(rhs.z) }
    }

    /// In-place componentwise vector subtraction.
    pub fn sub_assign(&mut self, rhs: Self)
        requires
            old(self).sub_ok(rhs),
        ensures
            *final(self) == old(self).sub_spec(rhs),
    {
        self.x = self.x.sub(rhs.x);
        self.y = self.y.sub(rhs.y);
        self.z = self.z.sub(rhs.z);
    }

    /// Inputs on which the scalar multiple is defined.
    pub open spec fn mul_ok(self, rhs: T) -> bool {
        self.x.mul_ok(rhs) && self.y.mul_ok(rhs) && self.z.mul_ok(rhs)
    }

    /// Componentwise scalar multiple.
    pub open spec fn mul_spec(self, rhs: T) -> Self {
        Vec3 { x: self.x.mul_spec(rhs), y: self.y.mul_spec(rhs), z: self.z.mul_spec(rhs) }
    }

    /// Multiplication of a vector by a scalar.
    pub fn mul(self, rhs: T) -> (r: Self)
        requires
            self.mul_ok(rhs),
        ensures
            r == self.mul_spec(rhs),
    {
        Vec3 { x: self.x.mul(rhs), y: self.y.mul(rhs), z: self.z.mul(rhs) }
    }

    /// In-place multiplication of a vector by a scalar.
    pub fn mul_assign(&mut self, rhs: T)
        requires
            old(self).mul_ok(rhs),
        ensures
            *final(self) == old(self).mul_spec(rhs),
    {
        self.x = self.x.mul(rhs);
        self.y = self.y.mul(rhs);
        self.z = self.z.mul(rhs);
    }

    /// Inputs on which division by the scalar is defined.
    pub open spec fn div_ok(self, rhs: T) -> bool {
        self.x.div_ok(rhs) && self.y.div_ok(rhs) && self.z.div_ok(rhs)
    }

    /// Componentwise quotient by a scalar.
    pub open spec fn div_spec(self, rhs: T) -> Self {
        Vec3 { x: self.x.div_spec(rhs), y: self.y.div_spec(rhs), z: self.z.div_spec(rhs) }
    }

    /// Division of a vector by a scalar.
    pub fn div(self, rhs: T) -> (r: Self)
        requires
            self.div_ok(rhs),
        ensures
            r == self.div_spec(rhs),
    {
        Vec3 { x: self.x.div(rhs), y: self.y.div(rhs), z: self.z.div(rhs) }
    }

    /// In-place division of a vector by a scalar.
    pub fn div_assign(&mut self, rhs: T)
        requires
            old(self).div_ok(rhs),
        ensures
            *final(self) == old(self).div_spec(rhs),
    {
        self.x = self.x.div(rhs);
        self.y = self.y.div(rhs);
        self.z = self.z.div(rhs);
    }

    /// Inputs on which negation is defined.
    pub open spec fn neg_ok(self) -> bool {
        self.x.neg_ok() && self.y.neg_ok() && self.z.neg_ok()
    }

    /// Componentwise negation.
    pub open spec fn neg_spec(self) -> Self {
        Vec3 { x: self.x.neg_spec(), y: self.y.neg_spec(), z: self.z.neg_spec() }
    }

    /// Componentwise vector negation.
    pub fn neg(self) -> (r: Self)
        requires
            self.neg_ok(),
        ensures
            r == self.neg_spec(),
    {
        Vec3 { x: self.x.neg(), y: self.y.neg(), z: self.z.neg() }
    }

    /// Inputs on which the squared length is defined.
    pub open spec fn len_squared_ok(self) -> bool {
        dot_ok(self, self)
    }

    /// The squared length: `x*x + y*y + z*z`, equal by definition to the dot
    /// product of the vector with itself.
    pub open spec fn len_squared_spec(self) -> T {
        dot_spec(self, self)
    }

    /// Squared length of the vector.
    pub fn len_squared(&self) -> (r: T)
        requires
            self.len_squared_ok(),
        ensures
            r == self.len_squared_spec(),
    {
        self.x.mul(self.x).add(self.y.mul(self.y)).add(self.z.mul(self.z))
    }

    /// Inputs on which the length is defined.
    pub open spec fn len_ok(self) -> bool {
        self.len_squared_ok() && self.len_squared_spec().sqrt_ok()
    }

    /// The length: square root of the squared length.
    pub open spec fn len_spec(self) -> T {
        self.len_squared_spec().sqrt_spec()
    }

    /// Length of the vector.
    pub fn len(&self) -> (r: T)
        requires
            self.len_ok(),
        ensures
            r == self.len_spec(),
    {
        self.len_squared().sqrt()
    }

    /// Inputs on which normalization is defined. Dividing by the length of a
    /// zero vector is a documented precondition of the caller, not guarded
    /// here: a scalar type's `div_ok` names exactly when the division is
    /// defined for it.
    pub open spec fn normalize_ok(self) -> bool {
        self.len_ok() && self.div_ok(self.len_spec())
    }

    /// The vector divided by its own length.
    pub open spec fn normalize_spec(self) -> Self {
        self.div_spec(self.len_spec())
    }

    /// Scales the vector in place by the reciprocal of its length.
    pub fn normalize(&mut self)
        requires
            old(self).normalize_ok(),
        ensures
            *final(self) == old(self).normalize_spec(),
    {
        let l = self.len();
        self.div_assign(l)
    }

    /// The normalized copy of the vector; the vector itself is untouched.
    pub fn get_normalized(&self) -> (r: Self)
        requires
            self.normalize_ok(),
        ensures
            r == self.normalize_spec(),
    {
        let mut copy = *self;
        copy.normalize();
        copy
    }
}

/// Inputs on which the dot product is defined.
pub open spec fn dot_ok<T: Number>(lhs: Vec3<T>, rhs: Vec3<T>) -> bool {
    &&& lhs.x.mul_ok(rhs.x)
    &&& lhs.y.mul_ok(rhs.y)
    &&& lhs.z.mul_ok(rhs.z)
    &&& lhs.x.mul_spec(rhs.x).add_ok(lhs.y.mul_spec(rhs.y))
    &&& lhs.x.mul_spec(rhs.x).add_spec(lhs.y.mul_spec(rhs.y)).add_ok(lhs.z.mul_spec(rhs.z))
}

/// The dot product: `lhs.x*rhs.x + lhs.y*rhs.y + lhs.z*rhs.z`.
pub open spec fn dot_spec<T: Number>(lhs: Vec3<T>, rhs: Vec3<T>) -> T {
    lhs.x.mul_spec(rhs.x).add_spec(lhs.y.mul_spec(rhs.y)).add_spec(lhs.z.mul_spec(rhs.z))
}

/// Dot product of two vectors.
pub fn dot<T: Number>(lhs: Vec3<T>, rhs: Vec3<T>) -> (r: T)
    requires
        dot_ok(lhs, rhs),
    ensures
        r == dot_spec(lhs, rhs),
{
    lhs.x.mul(rhs.x).add(lhs.y.mul(rhs.y)).add(lhs.z.mul(rhs.z))
}

/// Law: vector addition is commutative (where defined), for every scalar
/// type: `a + b == b + a`.
pub proof fn lemma_vec_add_comm<T: Number>(a: Vec3<T>, b: Vec3<T>)
    requires
        a.add_ok(b),
    ensures
        b.add_ok(a),
        a.add_spec(b) == b.add_spec(a),
{
    T::lemma_add_comm(a.x, b.x);
    T::lemma_add_comm(a.y, b.y);
    T::lemma_add_comm(a.z, b.z);
}

/// Law: vector addition is associative (where every intermediate sum is
/// defined): `(a + b) + c == a + (b + c)`.
pub proof fn lemma_vec_add_assoc<T: Number>(a: Vec3<T>, b: Vec3<T>, c: Vec3<T>)
    requires
        a.add_ok(b),
        a.add_spec(b).add_ok(c),
        b.add_ok(c),
        a.add_ok(b.add_spec(c)),
    ensures
        a.add_spec(b).add_spec(c) == a.add_spec(b.add_spec(c)),
{
    T::lemma_add_assoc(a.x, b.x, c.x);
    T::lemma_add_assoc(a.y, b.y, c.y);
    T::lemma_add_assoc(a.z, b.z, c.z);
}

/// Law: vector subtraction is addition of the negation (where defined):
/// `a - b == a + (-b)`.
pub proof fn lemma_vec_sub_is_add_neg<T: Number>(a: Vec3<T>, b: Vec3<T>)
    requires
        a.sub_ok(b),
        b.neg_ok(),
        a.add_ok(b.neg_spec()),
    ensures
        a.sub_spec(b) == a.add_spec(b.neg_spec()),
{
    T::lemma_sub_is_add_neg(a.x, b.x);
    T::lemma_sub_is_add_neg(a.y, b.y);
    T::lemma_sub_is_add_neg(a.z, b.z);
}

/// Law: the dot product is commutative (where defined):
/// `dot(a, b) == dot(b, a)`.
pub proof fn lemma_dot_comm<T: Number>(a: Vec3<T>, b: Vec3<T>)
    requires
        dot_ok(a, b),
    ensures
        dot_ok(b, a),
        dot_spec(a, b) == dot_spec(b, a),
{
    T::lemma_mul_comm(a.x, b.x);
    T::lemma_mul_comm(a.y, b.y);
    T::lemma_mul_comm(a.z, b.z);
}

/// Law: the dot product of a vector with itself is its squared length:
/// `dot(a, a) == a.len_squared()`.
pub proof fn lemma_dot_self_is_len_squared<T: Number>(a: Vec3<T>)
    requires
        dot_ok(a, a),
    ensures
        a.len_squared_ok(),
        dot_spec(a, a) == a.len_squared_spec(),
{
}

} // verus!
