//! 3x3 matrix for velocity gradients, rotations and coordinate transforms.
//!
//! Row-major storage in a flat array of nine entries.
use crate::math_core::precision::{
    abs_spec, diff, exact_arith, float_abs, ordered, float_sqrt, less, lit, literal, prod, quot, sum,
    sum_ok, total_ops, FloatPrecision,
};
use crate::math_core::vector::Vec3;
use std::ops::{Add, Mul};
use vstd::prelude::*;

verus! {

/// 3x3 matrix stored in row-major order:
/// `[m00, m01, m02, m10, m11, m12, m20, m21, m22]`.
#[derive(Debug, Clone, Copy, PartialEq)]
pub struct Mat3x3<T> {
    pub data: [T; 9],
}

/// Entry `(row, col)` of `m`.
pub open spec fn entry<T>(m: Mat3x3<T>, row: int, col: int) -> T {
    m.data@[row * 3 + col]
}

/// The matrix with the nine given entries in row-major order.
pub open spec fn mat_of<T>(
    m00: T, m01: T, m02: T,
    m10: T, m11: T, m12: T,
    m20: T, m21: T, m22: T,
) -> Mat3x3<T> {
    Mat3x3 { data: [m00, m01, m02, m10, m11, m12, m20, m21, m22] }
}

/// `a*x + b*y + c*z`, evaluated left to right.
pub open spec fn dot3<T: FloatPrecision>(a: T, b: T, c: T, x: T, y: T, z: T) -> T {
    sum(sum(prod(a, x), prod(b, y)), prod(c, z))
}

/// Row `row` of `m` dotted with `v`.
pub open spec fn row_dot<T: FloatPrecision>(m: Mat3x3<T>, row: int, v: Vec3<T>) -> T {
    dot3(entry(m, row, 0), entry(m, row, 1), entry(m, row, 2), v.x, v.y, v.z)
}

/// `p*q - r*s`
pub open spec fn cross2<T: FloatPrecision>(p: T, q: T, r: T, s: T) -> T {
    diff(prod(p, q), prod(r, s))
}

/// Cofactor expansion along the first row:
/// `a*(e*i - f*h) - b*(d*i - f*g) + c*(d*h - e*g)`.
pub open spec fn det_spec<T: FloatPrecision>(m: Mat3x3<T>) -> T {
    let (a, b, c) = (m.data@[0], m.data@[1], m.data@[2]);
    let (d, e, f) = (m.data@[3], m.data@[4], m.data@[5]);
    let (g, h, i) = (m.data@[6], m.data@[7], m.data@[8]);
    sum(
        diff(prod(a, cross2(e, i, f, h)), prod(b, cross2(d, i, f, g))),
        prod(c, cross2(d, h, e, g)),
    )
}

/// `m00 + m11 + m22`.
pub open spec fn trace_spec<T: FloatPrecision>(m: Mat3x3<T>) -> T {
    sum(sum(m.data@[0], m.data@[4]), m.data@[8])
}

/// The adjugate of `m` scaled by `k`: the inverse when `k = 1/det(m)`.
pub open spec fn adjugate_scaled<T: FloatPrecision>(m: Mat3x3<T>, k: T) -> Mat3x3<T> {
    let (a, b, c) = (m.data@[0], m.data@[1], m.data@[2]);
    let (d, e, f) = (m.data@[3], m.data@[4], m.data@[5]);
    let (g, h, i) = (m.data@[6], m.data@[7], m.data@[8]);
    mat_of(
        prod(cross2(e, i, f, h), k), prod(cross2(c, h, b, i), k), prod(cross2(b, f, c, e), k),
        prod(cross2(f, g, d, i), k), prod(cross2(a, i, c, g), k), prod(cross2(c, d, a, f), k),
        prod(cross2(d, h, e, g), k), prod(cross2(b, g, a, h), k), prod(cross2(a, e, b, d), k),
    )
}

/// The inverse as the adjugate divided by the determinant.
pub open spec fn inverse_spec<T: FloatPrecision>(m: Mat3x3<T>) -> Mat3x3<T> {
    adjugate_scaled(m, quot(lit::<T>(1), det_spec(m)))
}

/// `a + b`, entry by entry.
pub open spec fn add_mat<T: FloatPrecision>(a: Mat3x3<T>, b: Mat3x3<T>) -> Mat3x3<T> {
    let (x, y) = (a.data@, b.data@);
    mat_of(
        sum(x[0], y[0]), sum(x[1], y[1]), sum(x[2], y[2]),
        sum(x[3], y[3]), sum(x[4], y[4]), sum(x[5], y[5]),
        sum(x[6], y[6]), sum(x[7], y[7]), sum(x[8], y[8]),
    )
}

/// Entry `(i, j)` of the product `a * b`: `((0 + a_i0*b_0j) + a_i1*b_1j) + a_i2*b_2j`.
pub open spec fn mul_entry<T: FloatPrecision>(a: Mat3x3<T>, b: Mat3x3<T>, i: int, j: int) -> T {
    sum(
        sum(sum(lit::<T>(0), prod(entry(a, i, 0), entry(b, 0, j))), prod(entry(a, i, 1), entry(b, 1, j))),
        prod(entry(a, i, 2), entry(b, 2, j)),
    )
}

/// The transpose of `m`.
pub open spec fn transpose_spec<T>(m: Mat3x3<T>) -> Mat3x3<T> {
    mat_of(
        m.data@[0], m.data@[3], m.data@[6],
        m.data@[1], m.data@[4], m.data@[7],
        m.data@[2], m.data@[5], m.data@[8],
    )
}

impl<T: FloatPrecision> Mat3x3<T> {
    /// Creates a matrix from nine entries in row-major order.
    pub fn new(
        m00: T, m01: T, m02: T,
        m10: T, m11: T, m12: T,
        m20: T, m21: T, m22: T,
    ) -> (r: Self)
        ensures
            r == mat_of(m00, m01, m02, m10, m11, m12, m20, m21, m22),
    {
        Mat3x3 { data: [m00, m01, m02, m10, m11, m12, m20, m21, m22] }
    }

    /// Identity matrix.
    pub fn identity() -> (r: Self)
        ensures
            exact_arith::<T>() ==> r == mat_of::<T>(
                lit(1), lit(0), lit(0),
                lit(0), lit(1), lit(0),
                lit(0), lit(0), lit(1),
            ),
    {
        let o: T = literal(1);
        let z: T = literal(0);
        Self::new(o, z, z, z, o, z, z, z, o)
    }

    /// Zero matrix.
    pub fn zero() -> (r: Self)
        ensures
            exact_arith::<T>() ==> r == mat_of::<T>(
                lit(0), lit(0), lit(0),
                lit(0), lit(0), lit(0),
                lit(0), lit(0), lit(0),
            ),
    {
        let z: T = literal(0);
        Self::new(z, z, z, z, z, z, z, z, z)
    }

    /// Entry at `(row, col)`, zero-indexed; the flat index `row*3 + col`
    /// must lie inside the nine entries.
    pub fn at(&self, row: usize, col: usize) -> (r: T)
        requires
            row * 3 + col < 9,
        ensures
            r == self.data@[row * 3 + col],
    {
        self.data[row * 3 + col]
    }

    /// Mutable access to the entry at `(row, col)`.
    pub fn at_mut(&mut self, row: usize, col: usize) -> (r: &mut T)
        requires
            row * 3 + col < 9,
        ensures
            *r == old(self).data@[row * 3 + col],
            final(self).data@ == old(self).data@.update(row * 3 + col, *final(r)),
    {
        &mut self.data[row * 3 + col]
    }

    /// Matrix-vector product `M × v`.
    pub fn mul_vec(&self, v: &Vec3<T>) -> (r: Vec3<T>)
        requires
            total_ops::<T>(),
        ensures
            exact_arith::<T>() ==> r == (Vec3 { x: row_dot(*self, 0, *v), y: row_dot(*self, 1, *v), z: row_dot(*self, 2, *v) }),
    {
        Vec3::new(
            self.at(0, 0) * v.x + self.at(0, 1) * v.y + self.at(0, 2) * v.z,
            self.at(1, 0) * v.x + self.at(1, 1) * v.y + self.at(1, 2) * v.z,
            self.at(2, 0) * v.x + self.at(2, 1) * v.y + self.at(2, 2) * v.z,
        )
    }

    /// Transpose `Mᵀ`.
    pub fn transpose(&self) -> (r: Self)
        ensures
            r == transpose_spec(*self),
            forall|i: int, j: int| 0 <= i < 3 && 0 <= j < 3 ==> entry(r, i, j) == entry(*self, j, i),
    {
        Self::new(
            self.at(0, 0), self.at(1, 0), self.at(2, 0),
            self.at(0, 1), self.at(1, 1), self.at(2, 1),
            self.at(0, 2), self.at(1, 2), self.at(2, 2),
        )
    }

    /// Determinant by cofactor expansion along the first row.
    pub fn determinant(&self) -> (r: T)
        requires
            total_ops::<T>(),
        ensures
            exact_arith::<T>() ==> r == det_spec(*self),
    {
        let a = self.at(0, 0);
        let b = self.at(0, 1);
        let c = self.at(0, 2);
        let d = self.at(1, 0);
        let e = self.at(1, 1);
        let f = self.at(1, 2);
        let g = self.at(2, 0);
        let h = self.at(2, 1);
        let i = self.at(2, 2);
        a * (e * i - f * h) - b * (d * i - f * g) + c * (d * h - e * g)
    }

    /// Trace `m00 + m11 + m22`.
    pub fn trace(&self) -> (r: T)
        requires
            total_ops::<T>(),
        ensures
            exact_arith::<T>() ==> r == trace_spec(*self),
    {
        self.at(0, 0) + self.at(1, 1) + self.at(2, 2)
    }

    /// Scalar multiplication `s × M`.
    pub fn scale(&self, scalar: T) -> (r: Self)
        requires
            total_ops::<T>(),
        ensures
            exact_arith::<T>() ==> forall|k: int| 0 <= k < 9 ==> #[trigger] r.data@[k] == prod(self.data@[k], scalar),
    {
        let mut result = *self;
        let mut k: usize = 0;
        while k < 9
            invariant
                k <= 9,
                total_ops::<T>(),
                exact_arith::<T>() ==> forall|j: int| 0 <= j < k ==> #[trigger] result.data@[j] == prod(self.data@[j], scalar),
                forall|j: int| k <= j < 9 ==> #[trigger] result.data@[j] == self.data@[j],
            decreases 9 - k,
        {
            let v = result.data[k];
            result.data[k] = v * scalar;
            k = k + 1;
        }
        result
    }

    /// Entry `(i, j)` of the product `self * rhs`, summed from zero.
    fn product_entry(&self, rhs: &Self, i: usize, j: usize) -> (r: T)
        requires
            i < 3,
            j < 3,
            total_ops::<T>(),
        ensures
            exact_arith::<T>() ==> r == mul_entry(*self, *rhs, i as int, j as int),
    {
        let z: T = literal(0);
        z + self.at(i, 0) * rhs.at(0, j) + self.at(i, 1) * rhs.at(1, j) + self.at(i, 2) * rhs.at(2, j)
    }
}

impl<T: FloatPrecision> Mat3x3<T> {
    /// Inverse `M⁻¹` as the adjugate divided by the determinant, given the
    /// magnitude of the determinant and the threshold below which the matrix
    /// counts as singular: `None` when `det_magnitude < epsilon`.
    pub fn inverse_from(&self, det_magnitude: T, epsilon: T) -> (r: Option<Self>)
        requires
            total_ops::<T>(),
        ensures
            exact_arith::<T>() ==> (r is None <==> less(det_magnitude, epsilon)),
            exact_arith::<T>() ==> (r is Some ==> r == Some(inverse_spec(*self))),
    {
        if det_magnitude < epsilon {
            return None;
        }
        let det = self.determinant();
        let inv_det = literal::<T>(1) / det;
        let a = self.at(0, 0);
        let b = self.at(0, 1);
        let c = self.at(0, 2);
        let d = self.at(1, 0);
        let e = self.at(1, 1);
        let f = self.at(1, 2);
        let g = self.at(2, 0);
        let h = self.at(2, 1);
        let i = self.at(2, 2);
        Some(Self::new(
            (e * i - f * h) * inv_det,
            (c * h - b * i) * inv_det,
            (b * f - c * e) * inv_det,
            (f * g - d * i) * inv_det,
            (a * i - c * g) * inv_det,
            (c * d - a * f) * inv_det,
            (d * h - e * g) * inv_det,
            (b * g - a * h) * inv_det,
            (a * e - b * d) * inv_det,
        ))
    }
}

impl<T: FloatPrecision + num_traits::Float> Mat3x3<T> {
    /// Inverse `M⁻¹` as the adjugate divided by the determinant, or `None`
    /// when `|det|` (`num_traits::Float::abs`) is below `epsilon` (the scalar
    /// type's machine epsilon, such as `f64::EPSILON`); the decision is
    /// [`Mat3x3::inverse_from`]'s on those two values.
    pub fn inverse(&self, epsilon: T) -> (r: Option<Self>)
        requires
            total_ops::<T>(),
        ensures
            exact_arith::<T>() ==> (ordered(det_spec(*self)) ==> (r is None <==> less(
                abs_spec(det_spec(*self)),
                epsilon,
            ))),
            exact_arith::<T>() ==> (r is Some ==> r == Some(inverse_spec(*self))),
    {
        let det = self.determinant();
        self.inverse_from(float_abs(det), epsilon)
    }

    /// Frobenius norm `√(Σ mij²)`: the square root (`num_traits`) of
    /// [`Mat3x3::frobenius_norm_squared`].
    /// It is zero where that sum is zero and positive where it is positive.
    pub fn frobenius_norm(&self) -> (r: T)
        requires
            total_ops::<T>(),
        ensures
            exact_arith::<T>() ==> (squares_sum(self.data@, 9) == lit::<T>(0) ==> r == lit::<T>(0)),
            exact_arith::<T>() ==> (less(lit::<T>(0), squares_sum(self.data@, 9)) ==> less(
                lit::<T>(0),
                r,
            )),
    {
        float_sqrt(self.frobenius_norm_squared())
    }
}

impl<T: FloatPrecision> Mat3x3<T> {
    /// `Σ mij²`, the squares summed from zero in storage order.
    pub fn frobenius_norm_squared(&self) -> (r: T)
        requires
            total_ops::<T>(),
        ensures
            exact_arith::<T>() ==> r == squares_sum(self.data@, 9),
    {
        let mut acc: T = literal(0);
        let mut k: usize = 0;
        while k < 9
            invariant
                k <= 9,
                total_ops::<T>(),
                exact_arith::<T>() ==> acc == squares_sum(self.data@, k as int),
            decreases 9 - k,
        {
            let v = self.data[k];
            acc = acc + v * v;
            k = k + 1;
        }
        acc
    }
}

/// `0 + s[0]² + ... + s[n-1]²`, summed left to right.
pub open spec fn squares_sum<T: FloatPrecision>(s: Seq<T>, n: int) -> T
    decreases n,
{
    if n <= 0 {
        lit::<T>(0)
    } else {
        sum(squares_sum(s, n - 1), prod(s[n - 1], s[n - 1]))
    }
}

impl<T: FloatPrecision> Default for Mat3x3<T> {
    /// The identity matrix.
    fn default() -> (r: Self)
        ensures
            exact_arith::<T>() ==> r == mat_of::<T>(
                lit(1), lit(0), lit(0),
                lit(0), lit(1), lit(0),
                lit(0), lit(0), lit(1),
            ),
    {
        Self::identity()
    }
}

impl<T: FloatPrecision> Mul for Mat3x3<T> {
    type Output = Self;

    fn mul(self, rhs: Self) -> (r: Self) {
        Self::new(
            self.product_entry(&rhs, 0, 0), self.product_entry(&rhs, 0, 1), self.product_entry(&rhs, 0, 2),
            self.product_entry(&rhs, 1, 0), self.product_entry(&rhs, 1, 1), self.product_entry(&rhs, 1, 2),
            self.product_entry(&rhs, 2, 0), self.product_entry(&rhs, 2, 1), self.product_entry(&rhs, 2, 2),
        )
    }
}

impl<T: FloatPrecision> vstd::std_specs::ops::MulSpecImpl for Mat3x3<T> {
    open spec fn obeys_mul_spec() -> bool {
        exact_arith::<T>()
    }

    open spec fn mul_req(self, rhs: Self) -> bool {
        total_ops::<T>()
    }

    open spec fn mul_spec(self, rhs: Self) -> Self {
        mat_of(
            mul_entry(self, rhs, 0, 0), mul_entry(self, rhs, 0, 1), mul_entry(self, rhs, 0, 2),
            mul_entry(self, rhs, 1, 0), mul_entry(self, rhs, 1, 1), mul_entry(self, rhs, 1, 2),
            mul_entry(self, rhs, 2, 0), mul_entry(self, rhs, 2, 1), mul_entry(self, rhs, 2, 2),
        )
    }
}

impl<T: FloatPrecision> Add for Mat3x3<T> {
    type Output = Self;

    fn add(self, rhs: Self) -> (r: Self) {
        let (x, y) = (&self.data, &rhs.data);
        Self::new(
            x[0] + y[0], x[1] + y[1], x[2] + y[2],
            x[3] + y[3], x[4] + y[4], x[5] + y[5],
            x[6] + y[6], x[7] + y[7], x[8] + y[8],
        )
    }
}

impl<T: FloatPrecision> vstd::std_specs::ops::AddSpecImpl for Mat3x3<T> {
    open spec fn obeys_add_spec() -> bool {
        exact_arith::<T>()
    }

    open spec fn add_req(self, rhs: Self) -> bool {
        forall|k: int| 0 <= k < 9 ==> sum_ok(#[trigger] self.data@[k], rhs.data@[k])
    }

    open spec fn add_spec(self, rhs: Self) -> Self {
        add_mat(self, rhs)
    }
}

/// Transposing twice gives back the matrix.
pub proof fn lemma_transpose_involution<T>(m: Mat3x3<T>)
    ensures
        transpose_spec(transpose_spec(m)) == m,
{
    broadcast use vstd::array::axiom_array_ext_equal;
    assert(transpose_spec(transpose_spec(m)).data =~= m.data);
}

/// The identity matrix, with entries the literals 1 and 0.
pub open spec fn identity_spec<T: FloatPrecision>() -> Mat3x3<T> {
    mat_of(lit(1), lit(0), lit(0), lit(0), lit(1), lit(0), lit(0), lit(0), lit(1))
}

/// `x` meets 0 and 1 as a real number does (as every finite float does):
/// `x·1 = 1·x = x`, `x·0 = 0·x = 0`, `0 + x = x + 0 = x`.
pub open spec fn acts_finite<T: FloatPrecision>(x: T) -> bool {
    &&& prod(x, lit::<T>(1)) == x
    &&& prod(lit::<T>(1), x) == x
    &&& prod(x, lit::<T>(0)) == lit::<T>(0)
    &&& prod(lit::<T>(0), x) == lit::<T>(0)
    &&& sum(lit::<T>(0), x) == x
    &&& sum(x, lit::<T>(0)) == x
}

/// A matrix whose entries meet 0 and 1 as real numbers do (0 itself
/// included) is left unchanged by multiplication with the identity, on
/// either side.
pub proof fn lemma_identity_is_neutral<T: FloatPrecision>(a: Mat3x3<T>)
    requires
        acts_finite(lit::<T>(0)),
        forall|k: int| 0 <= k < 9 ==> acts_finite(#[trigger] a.data@[k]),
    ensures
        forall|i: int, j: int|
            0 <= i < 3 && 0 <= j < 3 ==> #[trigger] mul_entry(a, identity_spec::<T>(), i, j) == entry(a, i, j),
        forall|i: int, j: int|
            0 <= i < 3 && 0 <= j < 3 ==> #[trigger] mul_entry(identity_spec::<T>(), a, i, j) == entry(a, i, j),
{
    let id = identity_spec::<T>();
    assert(id.data@ =~= seq![
        lit::<T>(1), lit::<T>(0), lit::<T>(0),
        lit::<T>(0), lit::<T>(1), lit::<T>(0),
        lit::<T>(0), lit::<T>(0), lit::<T>(1),
    ]);
    assert forall|i: int, j: int| 0 <= i < 3 && 0 <= j < 3 implies #[trigger] mul_entry(a, id, i, j)
        == entry(a, i, j) by {
        assert(acts_finite(a.data@[i * 3 + 0]));
        assert(acts_finite(a.data@[i * 3 + 1]));
        assert(acts_finite(a.data@[i * 3 + 2]));
        if j == 0 {
            assert(entry(id, 0, j) == lit::<T>(1) && entry(id, 1, j) == lit::<T>(0) && entry(id, 2, j) == lit::<T>(0));
        } else if j == 1 {
            assert(entry(id, 0, j) == lit::<T>(0) && entry(id, 1, j) == lit::<T>(1) && entry(id, 2, j) == lit::<T>(0));
        } else {
            assert(entry(id, 0, j) == lit::<T>(0) && entry(id, 1, j) == lit::<T>(0) && entry(id, 2, j) == lit::<T>(1));
        }
    }
    assert forall|i: int, j: int| 0 <= i < 3 && 0 <= j < 3 implies #[trigger] mul_entry(id, a, i, j)
        == entry(a, i, j) by {
        assert(acts_finite(a.data@[0 * 3 + j]));
        assert(acts_finite(a.data@[1 * 3 + j]));
        assert(acts_finite(a.data@[2 * 3 + j]));
        if i == 0 {
            assert(entry(id, i, 0) == lit::<T>(1) && entry(id, i, 1) == lit::<T>(0) && entry(id, i, 2) == lit::<T>(0));
        } else if i == 1 {
            assert(entry(id, i, 0) == lit::<T>(0) && entry(id, i, 1) == lit::<T>(1) && entry(id, i, 2) == lit::<T>(0));
        } else {
            assert(entry(id, i, 0) == lit::<T>(0) && entry(id, i, 1) == lit::<T>(0) && entry(id, i, 2) == lit::<T>(1));
        }
    }
}
} // verus!
