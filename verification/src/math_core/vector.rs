//! 3D vector: velocity, position, force and gradient values.
use crate::math_core::precision::{
    abs_spec, comparable, diff, diff_ok, exact_arith, float_abs, float_max, float_min, float_sqrt, lit,
    less, literal, max_spec, min_spec, negated, negated_ok, ordered, prod, quot, sum, sum_ok, total_ops, FloatPrecision,
};
use crate::math_core::real_model::{lemma_same_image, lemma_square_sign, order_model, real_model};
use std::ops::{Add, Mul, Neg, Sub};
use vstd::prelude::*;

verus! {

/// 3D vector with components of the scalar type `T`.
#[derive(Debug, Clone, Copy, PartialEq)]
pub struct Vec3<T> {
    pub x: T,
    pub y: T,
    pub z: T,
}

/// `a · b = ax*bx + ay*by + az*bz`, evaluated left to right.
pub open spec fn dot_spec<T: FloatPrecision>(a: Vec3<T>, b: Vec3<T>) -> T {
    sum(sum(prod(a.x, b.x), prod(a.y, b.y)), prod(a.z, b.z))
}

/// `a × b`.
pub open spec fn cross_spec<T: FloatPrecision>(a: Vec3<T>, b: Vec3<T>) -> Vec3<T> {
    Vec3 {
        x: diff(prod(a.y, b.z), prod(a.z, b.y)),
        y: diff(prod(a.z, b.x), prod(a.x, b.z)),
        z: diff(prod(a.x, b.y), prod(a.y, b.x)),
    }
}

/// `v * s`, component by component.
pub open spec fn scale_spec<T: FloatPrecision>(v: Vec3<T>, s: T) -> Vec3<T> {
    Vec3 { x: prod(v.x, s), y: prod(v.y, s), z: prod(v.z, s) }
}

/// One component of `a + t*(b - a)`.
pub open spec fn lerp1<T: FloatPrecision>(a: T, b: T, t: T) -> T {
    sum(a, prod(t, diff(b, a)))
}

/// `a + b`, component by component.
pub open spec fn add_vec<T: FloatPrecision>(a: Vec3<T>, b: Vec3<T>) -> Vec3<T> {
    Vec3 { x: sum(a.x, b.x), y: sum(a.y, b.y), z: sum(a.z, b.z) }
}

/// `a - b`, component by component.
pub open spec fn sub_vec<T: FloatPrecision>(a: Vec3<T>, b: Vec3<T>) -> Vec3<T> {
    Vec3 { x: diff(a.x, b.x), y: diff(a.y, b.y), z: diff(a.z, b.z) }
}

/// `-a`, component by component.
pub open spec fn neg_vec<T: FloatPrecision>(a: Vec3<T>) -> Vec3<T> {
    Vec3 { x: negated(a.x), y: negated(a.y), z: negated(a.z) }
}

/// The vector of three literals.
pub open spec fn lit_vec<T: FloatPrecision>(x: i8, y: i8, z: i8) -> Vec3<T> {
    Vec3 { x: lit(x), y: lit(y), z: lit(z) }
}

impl<T: FloatPrecision> Vec3<T> {
    /// Creates a new vector from components.
    pub fn new(x: T, y: T, z: T) -> (r: Self)
        ensures
            r == (Vec3 { x, y, z }),
    {
        Vec3 { x, y, z }
    }

    /// Zero vector (0, 0, 0).
    pub fn zero() -> (r: Self)
        ensures
            exact_arith::<T>() ==> r == lit_vec::<T>(0, 0, 0),
    {
        Self::new(literal(0), literal(0), literal(0))
    }

    /// Unit vector along X (1, 0, 0).
    pub fn unit_x() -> (r: Self)
        ensures
            exact_arith::<T>() ==> r == lit_vec::<T>(1, 0, 0),
    {
        Self::new(literal(1), literal(0), literal(0))
    }

    /// Unit vector along Y (0, 1, 0).
    pub fn unit_y() -> (r: Self)
        ensures
            exact_arith::<T>() ==> r == lit_vec::<T>(0, 1, 0),
    {
        Self::new(literal(0), literal(1), literal(0))
    }

    /// Unit vector along Z (0, 0, 1).
    pub fn unit_z() -> (r: Self)
        ensures
            exact_arith::<T>() ==> r == lit_vec::<T>(0, 0, 1),
    {
        Self::new(literal(0), literal(0), literal(1))
    }

    /// Dot product `a · b = ax*bx + ay*by + az*bz`.
    pub fn dot(&self, other: &Self) -> (r: T)
        requires
            total_ops::<T>(),
        ensures
            exact_arith::<T>() ==> r == dot_spec(*self, *other),
    {
        self.x * other.x + self.y * other.y + self.z * other.z
    }

    /// Cross product `a × b`.
    pub fn cross(&self, other: &Self) -> (r: Self)
        requires
            total_ops::<T>(),
        ensures
            exact_arith::<T>() ==> r == cross_spec(*self, *other),
    {
        Vec3 {
            x: self.y * other.z - self.z * other.y,
            y: self.z * other.x - self.x * other.z,
            z: self.x * other.y - self.y * other.x,
        }
    }

    /// Squared magnitude `|v|² = v · v`.
    pub fn magnitude_squared(&self) -> (r: T)
        requires
            total_ops::<T>(),
        ensures
            exact_arith::<T>() ==> r == dot_spec(*self, *self),
    {
        self.dot(self)
    }

    /// Scalar multiplication `v * s`.
    pub fn scale(&self, scalar: T) -> (r: Self)
        requires
            total_ops::<T>(),
        ensures
            exact_arith::<T>() ==> r == scale_spec(*self, scalar),
    {
        Self::new(self.x * scalar, self.y * scalar, self.z * scalar)
    }

    /// Linear interpolation `a + t*(b - a)`.
    pub fn lerp(&self, other: &Self, t: T) -> (r: Self)
        requires
            total_ops::<T>(),
        ensures
            exact_arith::<T>() ==> r.x == lerp1(self.x, other.x, t),
            exact_arith::<T>() ==> r.y == lerp1(self.y, other.y, t),
            exact_arith::<T>() ==> r.z == lerp1(self.z, other.z, t),
    {
        Self::new(
            self.x + t * (other.x - self.x),
            self.y + t * (other.y - self.y),
            self.z + t * (other.z - self.z),
        )
    }
}

impl<T: FloatPrecision> Vec3<T> {
    /// `self` divided by its magnitude `mag`, or the zero vector when
    /// `mag < epsilon`.
    pub fn normalize_with(&self, mag: T, epsilon: T) -> (r: Self)
        requires
            total_ops::<T>(),
        ensures
            exact_arith::<T>() ==> (less(mag, epsilon) ==> r == lit_vec::<T>(0, 0, 0)),
            exact_arith::<T>() ==> (!less(mag, epsilon) ==> r == (Vec3 {
                x: quot(self.x, mag),
                y: quot(self.y, mag),
                z: quot(self.z, mag),
            })),
    {
        if mag < epsilon {
            Self::zero()
        } else {
            Self::new(self.x / mag, self.y / mag, self.z / mag)
        }
    }
}

impl<T: FloatPrecision + num_traits::Float> Vec3<T> {
    /// Magnitude `|v| = √(v · v)`; the square root is that of `num_traits`.
    /// It is zero exactly where `v · v` is zero and positive where `v · v` is
    /// positive (see [`lemma_dot_self_positive`] for when that is).
    pub fn magnitude(&self) -> (r: T)
        requires
            total_ops::<T>(),
        ensures
            exact_arith::<T>() ==> (dot_spec(*self, *self) == lit::<T>(0) ==> r == lit::<T>(0)),
            exact_arith::<T>() ==> (less(lit::<T>(0), dot_spec(*self, *self)) ==> less(lit::<T>(0), r)),
    {
        float_sqrt(self.dot(self))
    }

    /// Unit vector in the direction of `self`, or the zero vector when the
    /// magnitude is below `epsilon` (the scalar type's machine epsilon, such
    /// as `f64::EPSILON`): the decision and the division are
    /// [`Vec3::normalize_with`]'s on the magnitude and `epsilon`, where the
    /// magnitude is zero for `v · v = 0` and positive for `v · v > 0`.
    pub fn normalized(&self, epsilon: T) -> (r: Self)
        requires
            total_ops::<T>(),
        ensures
            exact_arith::<T>() ==> r == lit_vec::<T>(0, 0, 0) || exists|m: T|
                r == (Vec3 { x: quot(self.x, m), y: quot(self.y, m), z: quot(self.z, m) }),
            exact_arith::<T>() ==> exists|m: T|
                {
                    &&& (dot_spec(*self, *self) == lit::<T>(0) ==> m == lit::<T>(0))
                    &&& (less(lit::<T>(0), dot_spec(*self, *self)) ==> less(lit::<T>(0), m))
                    &&& (less(m, epsilon) ==> r == lit_vec::<T>(0, 0, 0))
                    &&& (!less(m, epsilon) ==> r == (Vec3 {
                        x: quot(self.x, m),
                        y: quot(self.y, m),
                        z: quot(self.z, m),
                    }))
                },
    {
        let mag = self.magnitude();
        let r = self.normalize_with(mag, epsilon);
        proof {
            if exact_arith::<T>() {
                assert({
                    &&& (dot_spec(*self, *self) == lit::<T>(0) ==> mag == lit::<T>(0))
                    &&& (less(lit::<T>(0), dot_spec(*self, *self)) ==> less(lit::<T>(0), mag))
                    &&& (less(mag, epsilon) ==> r == lit_vec::<T>(0, 0, 0))
                    &&& (!less(mag, epsilon) ==> r == (Vec3 {
                        x: quot(self.x, mag),
                        y: quot(self.y, mag),
                        z: quot(self.z, mag),
                    }))
                });
            }
        }
        r
    }

    /// Component-wise absolute value (`num_traits::Float::abs`).
    pub fn abs(&self) -> (r: Self)
        ensures
            exact_arith::<T>() ==> (ordered(self.x) ==> r.x == abs_spec(self.x)),
            exact_arith::<T>() ==> (ordered(self.y) ==> r.y == abs_spec(self.y)),
            exact_arith::<T>() ==> (ordered(self.z) ==> r.z == abs_spec(self.z)),
    {
        Self::new(float_abs(self.x), float_abs(self.y), float_abs(self.z))
    }

    /// Largest component: `max(max(x, y), z)` (`num_traits::Float::max`).
    pub fn max_component(&self) -> (r: T)
        ensures
            exact_arith::<T>() ==> (comparable(self.x, self.y) && comparable(
                max_spec(self.x, self.y),
                self.z,
            ) ==> r == max_spec(max_spec(self.x, self.y), self.z)),
    {
        float_max(float_max(self.x, self.y), self.z)
    }

    /// Smallest component: `min(min(x, y), z)` (`num_traits::Float::min`).
    pub fn min_component(&self) -> (r: T)
        ensures
            exact_arith::<T>() ==> (comparable(self.x, self.y) && comparable(
                min_spec(self.x, self.y),
                self.z,
            ) ==> r == min_spec(min_spec(self.x, self.y), self.z)),
    {
        float_min(float_min(self.x, self.y), self.z)
    }
}

impl<T: FloatPrecision> Default for Vec3<T> {
    /// The zero vector.
    fn default() -> (r: Self)
        ensures
            exact_arith::<T>() ==> r == lit_vec::<T>(0, 0, 0),
    {
        Self::zero()
    }
}

impl<T: FloatPrecision> Add for Vec3<T> {
    type Output = Self;

    fn add(self, rhs: Self) -> (r: Self) {
        Self::new(self.x + rhs.x, self.y + rhs.y, self.z + rhs.z)
    }
}

impl<T: FloatPrecision> vstd::std_specs::ops::AddSpecImpl for Vec3<T> {
    open spec fn obeys_add_spec() -> bool {
        exact_arith::<T>()
    }

    open spec fn add_req(self, rhs: Self) -> bool {
        &&& sum_ok(self.x, rhs.x)
        &&& sum_ok(self.y, rhs.y)
        &&& sum_ok(self.z, rhs.z)
    }

    open spec fn add_spec(self, rhs: Self) -> Self {
        add_vec(self, rhs)
    }
}

impl<T: FloatPrecision> Sub for Vec3<T> {
    type Output = Self;

    fn sub(self, rhs: Self) -> (r: Self) {
        Self::new(self.x - rhs.x, self.y - rhs.y, self.z - rhs.z)
    }
}

impl<T: FloatPrecision> vstd::std_specs::ops::SubSpecImpl for Vec3<T> {
    open spec fn obeys_sub_spec() -> bool {
        exact_arith::<T>()
    }

    open spec fn sub_req(self, rhs: Self) -> bool {
        &&& diff_ok(self.x, rhs.x)
        &&& diff_ok(self.y, rhs.y)
        &&& diff_ok(self.z, rhs.z)
    }

    open spec fn sub_spec(self, rhs: Self) -> Self {
        sub_vec(self, rhs)
    }
}

impl<T: FloatPrecision> Mul<T> for Vec3<T> {
    type Output = Self;

    fn mul(self, scalar: T) -> (r: Self) {
        self.scale(scalar)
    }
}

impl<T: FloatPrecision> vstd::std_specs::ops::MulSpecImpl<T> for Vec3<T> {
    open spec fn obeys_mul_spec() -> bool {
        exact_arith::<T>()
    }

    open spec fn mul_req(self, rhs: T) -> bool {
        total_ops::<T>()
    }

    open spec fn mul_spec(self, rhs: T) -> Self {
        scale_spec(self, rhs)
    }
}

impl<T: FloatPrecision> Neg for Vec3<T> {
    type Output = Self;

    fn neg(self) -> (r: Self) {
        Self::new(self.x.neg(), self.y.neg(), self.z.neg())
    }
}

impl<T: FloatPrecision> vstd::std_specs::ops::NegSpecImpl for Vec3<T> {
    open spec fn obeys_neg_spec() -> bool {
        exact_arith::<T>()
    }

    open spec fn neg_req(self) -> bool {
        &&& negated_ok(self.x)
        &&& negated_ok(self.y)
        &&& negated_ok(self.z)
    }

    open spec fn neg_spec(self) -> Self {
        neg_vec(self)
    }
}

/// In exact arithmetic `v · v` is zero for the zero vector and positive for
/// every other vector, and negating any component of `v` leaves it
/// unchanged: the length of a vector depends on the size of its components,
/// not on their signs.
pub proof fn lemma_dot_self_positive<T: FloatPrecision>(a: Vec3<T>, v: spec_fn(T) -> real)
    requires
        real_model(v),
        order_model(v),
    ensures
        a == lit_vec::<T>(0, 0, 0) ==> dot_spec(a, a) == lit::<T>(0),
        a != lit_vec::<T>(0, 0, 0) ==> less(lit::<T>(0), dot_spec(a, a)),
        dot_spec(Vec3 { x: negated(a.x), ..a }, Vec3 { x: negated(a.x), ..a }) == dot_spec(a, a),
        dot_spec(Vec3 { y: negated(a.y), ..a }, Vec3 { y: negated(a.y), ..a }) == dot_spec(a, a),
        dot_spec(Vec3 { z: negated(a.z), ..a }, Vec3 { z: negated(a.z), ..a }) == dot_spec(a, a),
{
    reveal(real_model);
    let z = lit::<T>(0);
    assert(v(z) == 0real);
    lemma_square_sign(v(a.x));
    lemma_square_sign(v(a.y));
    lemma_square_sign(v(a.z));
    let s = v(a.x) * v(a.x) + v(a.y) * v(a.y) + v(a.z) * v(a.z);
    assert(v(dot_spec(a, a)) == s);
    if a == lit_vec::<T>(0, 0, 0) {
        assert(v(dot_spec(a, a)) == v(z));
        lemma_same_image(v, dot_spec(a, a), z);
    } else {
        if v(a.x) == v(z) && v(a.y) == v(z) && v(a.z) == v(z) {
            lemma_same_image(v, a.x, z);
            lemma_same_image(v, a.y, z);
            lemma_same_image(v, a.z, z);
        }
        assert(v(z) < v(dot_spec(a, a)));
    }
    let nx = Vec3 { x: negated(a.x), ..a };
    let ny = Vec3 { y: negated(a.y), ..a };
    let nz = Vec3 { z: negated(a.z), ..a };
    lemma_neg_square(v(a.x));
    lemma_neg_square(v(a.y));
    lemma_neg_square(v(a.z));
    assert(v(dot_spec(nx, nx)) == v(dot_spec(a, a)));
    assert(v(dot_spec(ny, ny)) == v(dot_spec(a, a)));
    assert(v(dot_spec(nz, nz)) == v(dot_spec(a, a)));
    lemma_same_image(v, dot_spec(nx, nx), dot_spec(a, a));
    lemma_same_image(v, dot_spec(ny, ny), dot_spec(a, a));
    lemma_same_image(v, dot_spec(nz, nz), dot_spec(a, a));
}

/// `(-x)·(-x) = x·x`.
proof fn lemma_neg_square(x: real)
    by (nonlinear_arith)
    ensures
        (-x) * (-x) == x * x,
{
}

} // verus!
