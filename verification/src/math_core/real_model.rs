//! Exact arithmetic as a property of a scalar type: a faithful map of its
//! values into the real numbers that carries each operator to the real one.
//!
//! The algebraic laws of the library (a deviatoric tensor has no trace, a
//! matrix times its inverse is the identity, ...) hold of exact arithmetic.
//! They are stated for scalar types that have such a map; floating-point
//! types satisfy them only up to rounding.
use crate::math_core::precision::{diff, less, lit, negated, prod, quot, sum, FloatPrecision};
use vstd::prelude::*;

verus! {

/// `v` maps the scalar type `T` into the reals without loss: sums,
/// differences, products, negations, quotients by a non-zero value and the
/// integer literals of `T` go to their real counterparts (a quotient `a / b`
/// goes to the real that gives `a` when multiplied by `b`), and distinct
/// scalars go to distinct reals.
///
/// The definition is opaque: proofs `reveal` it where they reason through
/// the map.
#[verifier::opaque]
pub open spec fn real_model<T: FloatPrecision>(v: spec_fn(T) -> real) -> bool {
    &&& forall|a: T, b: T| #[trigger] v(sum(a, b)) == v(a) + v(b)
    &&& forall|a: T, b: T| #[trigger] v(diff(a, b)) == v(a) - v(b)
    &&& forall|a: T, b: T| #[trigger] v(prod(a, b)) == v(a) * v(b)
    &&& forall|a: T, b: T| v(b) != 0real ==> #[trigger] v(quot(a, b)) * v(b) == v(a)
    &&& forall|a: T| #[trigger] v(negated(a)) == -v(a)
    &&& forall|n: i8| #[trigger] v(lit::<T>(n)) == n as real
    &&& faithful(v)
}

/// Distinct scalars have distinct images under `v`.
pub closed spec fn faithful<T>(v: spec_fn(T) -> real) -> bool {
    forall|a: T, b: T| #![trigger v(a), v(b)] v(a) == v(b) ==> a == b
}

/// `v` also carries the scalar's order: `a < b` exactly when `v(a) < v(b)`.
pub open spec fn order_model<T: FloatPrecision>(v: spec_fn(T) -> real) -> bool {
    forall|a: T, b: T| #[trigger] less(a, b) <==> v(a) < v(b)
}

/// Two scalars with the same image under a faithful map are equal.
pub proof fn lemma_same_image<T: FloatPrecision>(v: spec_fn(T) -> real, a: T, b: T)
    requires
        real_model(v),
        v(a) == v(b),
    ensures
        a == b,
{
    reveal(real_model);
}

/// A real square is never negative, is zero when its root is zero, and is
/// positive otherwise.
pub proof fn lemma_square_sign(x: real)
    by (nonlinear_arith)
    ensures
        x * x >= 0real,
        x == 0real ==> x * x == 0real,
        x != 0real ==> x * x > 0real,
{
}

} // verus!
