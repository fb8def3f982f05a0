//! Scalar abstraction shared by the whole solver stack.
//!
//! Every numeric kernel is generic over a scalar `T: FloatPrecision`.  The
//! contracts describe each result as the composition of the scalar type's own
//! operator specifications (`add_spec`, `mul_spec`, ...).  For scalar types
//! whose operators are specified exactly (`exact_arith`), the contracts pin the
//! result down completely, including the order of evaluation.
use std::ops::{Add, Div, Mul, Neg, Sub};
use vstd::prelude::*;
use vstd::std_specs::convert::FromSpec;
use vstd::std_specs::ops::{AddSpec, DivSpec, MulSpec, NegSpec, SubSpec};
use vstd::std_specs::cmp::PartialOrdSpec;
use core::cmp::Ordering;

verus! {

/// Numeric precision used by the solver stack: any copyable scalar with the
/// four arithmetic operators, negation, a partial order and a conversion
/// from small integer literals.
pub trait FloatPrecision:
    Copy + Add<Output = Self> + Sub<Output = Self> + Mul<Output = Self> + Div<Output = Self> + Neg<
        Output = Self,
    > + PartialOrd + From<i8> {

}

impl<
    T: Copy + Add<Output = T> + Sub<Output = T> + Mul<Output = T> + Div<Output = T> + Neg<
        Output = T,
    > + PartialOrd + From<i8>,
> FloatPrecision for T {

}

/// The scalar's operators behave exactly as their specifications say.
pub open spec fn exact_arith<T: FloatPrecision>() -> bool {
    &&& T::obeys_add_spec()
    &&& T::obeys_sub_spec()
    &&& T::obeys_mul_spec()
    &&& T::obeys_div_spec()
    &&& T::obeys_neg_spec()
    &&& literals_exact::<T>()
    &&& order_exact::<T>()
}

/// Conversions from integer literals behave as specified.
pub open spec fn literals_exact<T: FloatPrecision>() -> bool {
    <T as FromSpec<i8>>::obeys_from_spec()
}

/// The partial order behaves as specified.
pub open spec fn order_exact<T: FloatPrecision>() -> bool {
    T::obeys_partial_cmp_spec()
}

/// `a + b`
pub open spec fn sum<T: FloatPrecision>(a: T, b: T) -> T {
    a.add_spec(b)
}

/// `a - b`
pub open spec fn diff<T: FloatPrecision>(a: T, b: T) -> T {
    a.sub_spec(b)
}

/// `a * b`
pub open spec fn prod<T: FloatPrecision>(a: T, b: T) -> T {
    a.mul_spec(b)
}

/// `a / b`
pub open spec fn quot<T: FloatPrecision>(a: T, b: T) -> T {
    a.div_spec(b)
}

/// `-a`
pub open spec fn negated<T: FloatPrecision>(a: T) -> T {
    a.neg_spec()
}

/// The scalar written by the integer literal `n`.
pub open spec fn lit<T: FloatPrecision>(n: i8) -> T {
    <T as FromSpec<i8>>::from_spec(n)
}

/// `a + b` is defined (no overflow for bounded scalars).
pub open spec fn sum_ok<T: FloatPrecision>(a: T, b: T) -> bool {
    a.add_req(b)
}

/// `a - b` is defined.
pub open spec fn diff_ok<T: FloatPrecision>(a: T, b: T) -> bool {
    a.sub_req(b)
}

/// `-a` is defined.
pub open spec fn negated_ok<T: FloatPrecision>(a: T) -> bool {
    a.neg_req()
}

/// The scalar's arithmetic never fails: sums, differences, products and
/// quotients are defined for all operands, as they are for floating-point
/// types (a division by zero gives an infinity or a NaN, not a panic).
pub open spec fn total_ops<T: FloatPrecision>() -> bool {
    &&& forall|a: T, b: T| #[trigger] a.add_req(b)
    &&& forall|a: T, b: T| #[trigger] a.sub_req(b)
    &&& forall|a: T, b: T| #[trigger] a.mul_req(b)
    &&& forall|a: T, b: T| #[trigger] a.div_req(b)
}

/// `a < b` under the scalar's partial order.
pub open spec fn less<T: FloatPrecision>(a: T, b: T) -> bool {
    a.partial_cmp_spec(&b) == Some(Ordering::Less)
}

/// The literal `n` of the scalar type.
pub fn literal<T: FloatPrecision>(n: i8) -> (r: T)
    ensures
        exact_arith::<T>() ==> r == lit::<T>(n),
{
    <T as From<i8>>::from(n)
}

/// Square root, computed by `num_traits::Float::sqrt`, which its
/// documentation describes as the square root of the argument.
///
/// Claimed, for a scalar whose operators and order behave as specified: the
/// square root of zero is zero, and that of a positive value is positive.
/// Nothing more is claimed: the result is a rounding of the real square
/// root, which has no statement over the scalar's operators.
#[verifier::external_body]
pub(crate) fn float_sqrt<T: FloatPrecision + num_traits::Float>(v: T) -> (r: T)
    ensures
        exact_arith::<T>() ==> (v == lit::<T>(0) ==> r == lit::<T>(0)),
        exact_arith::<T>() ==> (less(lit::<T>(0), v) ==> less(lit::<T>(0), r)),
{
    v.sqrt()
}

/// `v` is comparable with zero under the scalar's order (it is not a NaN).
pub open spec fn ordered<T: FloatPrecision>(v: T) -> bool {
    less(lit::<T>(0), v) || less(v, lit::<T>(0)) || v == lit::<T>(0)
}

/// `a` and `b` are comparable under the scalar's order (neither is a NaN).
pub open spec fn comparable<T: FloatPrecision>(a: T, b: T) -> bool {
    less(a, b) || less(b, a) || a == b
}

/// `|v|`: `-v` below zero, `v` otherwise.
pub open spec fn abs_spec<T: FloatPrecision>(v: T) -> T {
    if less(v, lit::<T>(0)) {
        negated(v)
    } else {
        v
    }
}

/// The larger of `a` and `b` (`a` when they are equal).
pub open spec fn max_spec<T: FloatPrecision>(a: T, b: T) -> T {
    if less(a, b) {
        b
    } else {
        a
    }
}

/// The smaller of `a` and `b` (`a` when they are equal).
pub open spec fn min_spec<T: FloatPrecision>(a: T, b: T) -> T {
    if less(b, a) {
        b
    } else {
        a
    }
}

/// Absolute value, computed by `num_traits::Float::abs`, which its
/// documentation describes as the absolute value of the argument.
///
/// Claimed, for a scalar whose operators and order behave as specified and
/// an argument comparable with zero: `-v` below zero, `v` otherwise.  Nothing
/// is claimed for a NaN (whose sign bit `abs` clears).
#[verifier::external_body]
pub(crate) fn float_abs<T: FloatPrecision + num_traits::Float>(v: T) -> (r: T)
    ensures
        exact_arith::<T>() ==> (ordered(v) ==> r == abs_spec(v)),
{
    v.abs()
}

/// Larger of two values, computed by `num_traits::Float::max`, which its
/// documentation describes as the maximum of the two numbers.
///
/// Claimed, for a scalar whose operators and order behave as specified and
/// comparable arguments: the larger one (either, when they are equal).
/// Nothing is claimed when an argument is a NaN (`max` then returns the
/// other argument, which the scalar's partial order cannot express).
#[verifier::external_body]
pub(crate) fn float_max<T: FloatPrecision + num_traits::Float>(a: T, b: T) -> (r: T)
    ensures
        exact_arith::<T>() ==> (comparable(a, b) ==> r == max_spec(a, b)),
{
    a.max(b)
}

/// Smaller of two values, computed by `num_traits::Float::min`, which its
/// documentation describes as the minimum of the two numbers.
///
/// Claimed, for a scalar whose operators and order behave as specified and
/// comparable arguments: the smaller one (either, when they are equal).
/// Nothing is claimed when an argument is a NaN.
#[verifier::external_body]
pub(crate) fn float_min<T: FloatPrecision + num_traits::Float>(a: T, b: T) -> (r: T)
    ensures
        exact_arith::<T>() ==> (comparable(a, b) ==> r == min_spec(a, b)),
{
    a.min(b)
}

} // verus!
