//! Symmetric 3x3 tensor in Voigt notation for stress, strain-rate and
//! Reynolds-stress fields: six stored components `[xx, yy, zz, xy, xz, yz]`.
use crate::math_core::matrix::{entry, mat_of, transpose_spec, Mat3x3};
use crate::math_core::precision::{
    diff, exact_arith, float_sqrt, less, lit, literal, prod, quot, sum, total_ops, FloatPrecision,
};
use crate::math_core::real_model::{lemma_same_image, lemma_square_sign, order_model, real_model};
use vstd::prelude::*;

verus! {

/// Symmetric tensor
/// ```text
/// | xx  xy  xz |
/// | xy  yy  yz |
/// | xz  yz  zz |
/// ```
#[derive(Debug, Clone, Copy, PartialEq)]
pub struct SymmetricTensor3<T> {
    pub xx: T,
    pub yy: T,
    pub zz: T,
    pub xy: T,
    pub xz: T,
    pub yz: T,
}

/// The tensor with the given six components.
pub open spec fn tensor_of<T>(xx: T, yy: T, zz: T, xy: T, xz: T, yz: T) -> SymmetricTensor3<T> {
    SymmetricTensor3 { xx, yy, zz, xy, xz, yz }
}

/// `xx + yy + zz`.
pub open spec fn trace_of<T: FloatPrecision>(t: SymmetricTensor3<T>) -> T {
    sum(sum(t.xx, t.yy), t.zz)
}

/// `tr(t) / 3`, with `1/3` computed as `1 / (1 + 1 + 1)`.
pub open spec fn mean_normal<T: FloatPrecision>(t: SymmetricTensor3<T>) -> T {
    prod(trace_of(t), quot(lit::<T>(1), sum(sum(lit::<T>(1), lit::<T>(1)), lit::<T>(1))))
}

/// The deviatoric part `t - (tr(t)/3) I`.
pub open spec fn deviatoric_spec<T: FloatPrecision>(t: SymmetricTensor3<T>) -> SymmetricTensor3<T> {
    let p = mean_normal(t);
    tensor_of(diff(t.xx, p), diff(t.yy, p), diff(t.zz, p), t.xy, t.xz, t.yz)
}

/// `A:B = xx*xx' + yy*yy' + zz*zz' + 2*(xy*xy' + xz*xz' + yz*yz')`.
pub open spec fn contraction<T: FloatPrecision>(a: SymmetricTensor3<T>, b: SymmetricTensor3<T>) -> T {
    sum(
        sum(sum(prod(a.xx, b.xx), prod(a.yy, b.yy)), prod(a.zz, b.zz)),
        prod(lit::<T>(2), sum(sum(prod(a.xy, b.xy), prod(a.xz, b.xz)), prod(a.yz, b.yz))),
    )
}

/// The full matrix with the symmetry expanded.
pub open spec fn expanded<T>(t: SymmetricTensor3<T>) -> Mat3x3<T> {
    mat_of(t.xx, t.xy, t.xz, t.xy, t.yy, t.yz, t.xz, t.yz, t.zz)
}

/// `half * (p + q)` with `half = 1 / 2`.
pub open spec fn average<T: FloatPrecision>(p: T, q: T) -> T {
    prod(quot(lit::<T>(1), lit::<T>(2)), sum(p, q))
}

/// The symmetric part `(M + Mᵀ)/2` of a matrix.
pub open spec fn symmetric_part<T: FloatPrecision>(m: Mat3x3<T>) -> SymmetricTensor3<T> {
    tensor_of(
        entry(m, 0, 0),
        entry(m, 1, 1),
        entry(m, 2, 2),
        average(entry(m, 0, 1), entry(m, 1, 0)),
        average(entry(m, 0, 2), entry(m, 2, 0)),
        average(entry(m, 1, 2), entry(m, 2, 1)),
    )
}

/// `3/2 · S:S` for the deviatoric part `S` of `t`, with `3/2` computed as
/// `(1 + 1 + 1) / 2`: the square of the von Mises stress.
pub open spec fn von_mises_squared_spec<T: FloatPrecision>(t: SymmetricTensor3<T>) -> T {
    prod(
        quot(sum(sum(lit::<T>(1), lit::<T>(1)), lit::<T>(1)), lit::<T>(2)),
        contraction(deviatoric_spec(t), deviatoric_spec(t)),
    )
}

/// `t + q I`: `q` added to each normal component.
pub open spec fn shifted<T: FloatPrecision>(t: SymmetricTensor3<T>, q: T) -> SymmetricTensor3<T> {
    tensor_of(sum(t.xx, q), sum(t.yy, q), sum(t.zz, q), t.xy, t.xz, t.yz)
}

/// Every component multiplied by `s`.
pub open spec fn scale_tensor<T: FloatPrecision>(t: SymmetricTensor3<T>, s: T) -> SymmetricTensor3<T> {
    tensor_of(prod(t.xx, s), prod(t.yy, s), prod(t.zz, s), prod(t.xy, s), prod(t.xz, s), prod(t.yz, s))
}

impl<T: FloatPrecision> SymmetricTensor3<T> {
    /// Creates a tensor from its six independent components.
    pub fn new(xx: T, yy: T, zz: T, xy: T, xz: T, yz: T) -> (r: Self)
        ensures
            r == tensor_of(xx, yy, zz, xy, xz, yz),
    {
        SymmetricTensor3 { xx, yy, zz, xy, xz, yz }
    }

    /// Zero tensor.
    pub fn zero() -> (r: Self)
        ensures
            exact_arith::<T>() ==> r == tensor_of::<T>(lit(0), lit(0), lit(0), lit(0), lit(0), lit(0)),
    {
        let z: T = literal(0);
        Self::new(z, z, z, z, z, z)
    }

    /// Isotropic tensor `p I`.
    pub fn isotropic(p: T) -> (r: Self)
        ensures
            exact_arith::<T>() ==> r == tensor_of::<T>(p, p, p, lit(0), lit(0), lit(0)),
    {
        let z: T = literal(0);
        Self::new(p, p, p, z, z, z)
    }

    /// Trace `xx + yy + zz`.
    pub fn trace(&self) -> (r: T)
        requires
            total_ops::<T>(),
        ensures
            exact_arith::<T>() ==> r == trace_of(*self),
    {
        self.xx + self.yy + self.zz
    }

    /// Deviatoric part `σ - (tr(σ)/3) I`.
    pub fn deviatoric(&self) -> (r: Self)
        requires
            total_ops::<T>(),
        ensures
            exact_arith::<T>() ==> r == deviatoric_spec(*self),
    {
        let one: T = literal(1);
        let third = one / (one + one + one);
        let p = self.trace() * third;
        Self::new(self.xx - p, self.yy - p, self.zz - p, self.xy, self.xz, self.yz)
    }

    /// Double contraction `A:B`.
    pub fn double_contraction(&self, other: &Self) -> (r: T)
        requires
            total_ops::<T>(),
        ensures
            exact_arith::<T>() ==> r == contraction(*self, *other),
    {
        let two: T = literal(2);
        self.xx * other.xx + self.yy * other.yy + self.zz * other.zz + two * (self.xy * other.xy
            + self.xz * other.xz + self.yz * other.yz)
    }

    /// Full 3x3 matrix with the symmetry expanded.
    pub fn to_mat3x3(&self) -> (r: Mat3x3<T>)
        ensures
            r == expanded(*self),
    {
        Mat3x3::new(self.xx, self.xy, self.xz, self.xy, self.yy, self.yz, self.xz, self.yz, self.zz)
    }

    /// Symmetric part `S = ½(M + Mᵀ)` of a matrix (the strain rate when `M = ∇u`).
    pub fn from_mat3x3_symmetric(m: &Mat3x3<T>) -> (r: Self)
        requires
            total_ops::<T>(),
        ensures
            exact_arith::<T>() ==> r == symmetric_part(*m),
    {
        let half = literal::<T>(1) / literal::<T>(2);
        Self::new(
            m.at(0, 0),
            m.at(1, 1),
            m.at(2, 2),
            half * (m.at(0, 1) + m.at(1, 0)),
            half * (m.at(0, 2) + m.at(2, 0)),
            half * (m.at(1, 2) + m.at(2, 1)),
        )
    }

    /// Every component multiplied by `s`.
    pub fn scale(&self, s: T) -> (r: Self)
        requires
            total_ops::<T>(),
        ensures
            exact_arith::<T>() ==> r == scale_tensor(*self, s),
    {
        Self::new(self.xx * s, self.yy * s, self.zz * s, self.xy * s, self.xz * s, self.yz * s)
    }
}

impl<T: FloatPrecision> SymmetricTensor3<T> {
    /// `3/2 · S:S` with `S` the deviatoric part and `3/2` computed as
    /// `(1 + 1 + 1) / 2`: the square of the von Mises stress.
    pub fn von_mises_squared(&self) -> (r: T)
        requires
            total_ops::<T>(),
        ensures
            exact_arith::<T>() ==> r == von_mises_squared_spec(*self),
    {
        let dev = self.deviatoric();
        let s_s = dev.double_contraction(&dev);
        let one: T = literal(1);
        let three_half = (one + one + one) / literal(2);
        three_half * s_s
    }
}

impl<T: FloatPrecision + num_traits::Float> SymmetricTensor3<T> {
    /// Von Mises equivalent stress: the square root (`num_traits`) of
    /// [`SymmetricTensor3::von_mises_squared`].  It is zero where that square
    /// is zero and positive where it is positive (see
    /// [`lemma_von_mises_vanishes_only_without_deviator`] for when that is).
    pub fn von_mises(&self) -> (r: T)
        requires
            total_ops::<T>(),
        ensures
            exact_arith::<T>() ==> (von_mises_squared_spec(*self) == lit::<T>(0) ==> r == lit::<T>(0)),
            exact_arith::<T>() ==> (less(lit::<T>(0), von_mises_squared_spec(*self)) ==> less(
                lit::<T>(0),
                r,
            )),
    {
        float_sqrt(self.von_mises_squared())
    }
}

impl<T: FloatPrecision> Default for SymmetricTensor3<T> {
    /// The zero tensor.
    fn default() -> (r: Self)
        ensures
            exact_arith::<T>() ==> r == tensor_of::<T>(lit(0), lit(0), lit(0), lit(0), lit(0), lit(0)),
    {
        Self::zero()
    }
}

/// The expanded matrix of a symmetric tensor is its own transpose.
pub proof fn lemma_expanded_is_symmetric<T>(t: SymmetricTensor3<T>)
    ensures
        transpose_spec(expanded(t)) == expanded(t),
{
    broadcast use vstd::array::axiom_array_ext_equal;
    assert(transpose_spec(expanded(t)).data =~= expanded(t).data);
}

/// Symmetrising the expanded matrix keeps the diagonal exactly and gives
/// each off-diagonal component as the average of it with itself.
pub proof fn lemma_symmetric_part_of_expanded<T: FloatPrecision>(t: SymmetricTensor3<T>)
    ensures
        symmetric_part(expanded(t)) == tensor_of(
            t.xx,
            t.yy,
            t.zz,
            average(t.xy, t.xy),
            average(t.xz, t.xz),
            average(t.yz, t.yz),
        ),
{
}

/// The deviatoric part keeps the shear components.
pub proof fn lemma_deviatoric_keeps_shear<T: FloatPrecision>(t: SymmetricTensor3<T>)
    ensures
        deviatoric_spec(t).xy == t.xy,
        deviatoric_spec(t).xz == t.xz,
        deviatoric_spec(t).yz == t.yz,
{
}

/// When the products of corresponding components commute (as they do for
/// floats), the double contraction is symmetric: `a : b == b : a`.
pub proof fn lemma_contraction_symmetric<T: FloatPrecision>(a: SymmetricTensor3<T>, b: SymmetricTensor3<T>)
    requires
        prod(a.xx, b.xx) == prod(b.xx, a.xx),
        prod(a.yy, b.yy) == prod(b.yy, a.yy),
        prod(a.zz, b.zz) == prod(b.zz, a.zz),
        prod(a.xy, b.xy) == prod(b.xy, a.xy),
        prod(a.xz, b.xz) == prod(b.xz, a.xz),
        prod(a.yz, b.yz) == prod(b.yz, a.yz),
    ensures
        contraction(a, b) == contraction(b, a),
{
}

/// In exact arithmetic the deviatoric part of every tensor has zero trace:
/// `tr(σ - tr(σ)/3 · I) = 0`.
pub proof fn lemma_deviatoric_trace_zero<T: FloatPrecision>(
    t: SymmetricTensor3<T>,
    v: spec_fn(T) -> real,
)
    requires
        real_model(v),
    ensures
        trace_of(deviatoric_spec(t)) == lit::<T>(0),
{
    reveal(real_model);
    let one = lit::<T>(1);
    let three = sum(sum(one, one), one);
    assert(v(three) == 3real);
    assert(v(quot(one, three)) == (1real) / (3real));
    assert(v(trace_of(deviatoric_spec(t))) == v(lit::<T>(0)));
    lemma_same_image(v, trace_of(deviatoric_spec(t)), lit::<T>(0));
}

/// Images of `1/3`, `1/2` and small literals, shared by the laws below.
proof fn lemma_third<T: FloatPrecision>(v: spec_fn(T) -> real)
    requires
        real_model(v),
    ensures
        v(sum(sum(lit::<T>(1), lit::<T>(1)), lit::<T>(1))) == 3real,
        v(quot(lit::<T>(1), sum(sum(lit::<T>(1), lit::<T>(1)), lit::<T>(1)))) == (1real) / (
        3real),
        v(lit::<T>(0)) == 0real,
        v(lit::<T>(2)) == 2real,
        v(quot(lit::<T>(1), lit::<T>(2))) == 1real / 2real,
{
    reveal(real_model);
}

/// In exact arithmetic taking the deviatoric part twice changes nothing:
/// the deviatoric part has no trace left to remove.
pub proof fn lemma_deviatoric_idempotent<T: FloatPrecision>(
    t: SymmetricTensor3<T>,
    v: spec_fn(T) -> real,
)
    requires
        real_model(v),
    ensures
        deviatoric_spec(deviatoric_spec(t)) == deviatoric_spec(t),
{
    reveal(real_model);
    lemma_third(v);
    let d = deviatoric_spec(t);
    let dd = deviatoric_spec(d);
    assert(v(dd.xx) == v(d.xx));
    assert(v(dd.yy) == v(d.yy));
    assert(v(dd.zz) == v(d.zz));
    lemma_same_image(v, dd.xx, d.xx);
    lemma_same_image(v, dd.yy, d.yy);
    lemma_same_image(v, dd.zz, d.zz);
}

/// In exact arithmetic the deviatoric part of an isotropic tensor `q I` is
/// the zero tensor.
pub proof fn lemma_isotropic_deviatoric_zero<T: FloatPrecision>(q: T, v: spec_fn(T) -> real)
    requires
        real_model(v),
    ensures
        deviatoric_spec(tensor_of(q, q, q, lit::<T>(0), lit::<T>(0), lit::<T>(0))) == tensor_of::<T>(
            lit(0),
            lit(0),
            lit(0),
            lit(0),
            lit(0),
            lit(0),
        ),
{
    reveal(real_model);
    lemma_third(v);
    let d = deviatoric_spec(tensor_of(q, q, q, lit::<T>(0), lit::<T>(0), lit::<T>(0)));
    assert(v(d.xx) == v(lit::<T>(0)));
    lemma_same_image(v, d.xx, lit::<T>(0));
}

/// In exact arithmetic an isotropic tensor `q I` (a pure pressure) has no
/// von Mises stress.
pub proof fn lemma_isotropic_von_mises_zero<T: FloatPrecision>(q: T, v: spec_fn(T) -> real)
    requires
        real_model(v),
    ensures
        von_mises_squared_spec(tensor_of(q, q, q, lit::<T>(0), lit::<T>(0), lit::<T>(0))) == lit::<T>(0),
{
    reveal(real_model);
    lemma_isotropic_deviatoric_zero(q, v);
    lemma_third(v);
    let t = tensor_of(q, q, q, lit::<T>(0), lit::<T>(0), lit::<T>(0));
    let z = lit::<T>(0);
    assert(v(prod(z, z)) == 0real);
    assert(v(contraction(deviatoric_spec(t), deviatoric_spec(t))) == 0real);
    assert(v(von_mises_squared_spec(t)) == v(lit::<T>(0)));
    lemma_same_image(v, von_mises_squared_spec(t), lit::<T>(0));
}

/// In exact arithmetic adding the same pressure `q` to the three normal
/// components leaves the von Mises stress unchanged: it sees only the
/// deviatoric part, and that part is unchanged.
pub proof fn lemma_von_mises_shift_invariant<T: FloatPrecision>(
    t: SymmetricTensor3<T>,
    q: T,
    v: spec_fn(T) -> real,
)
    requires
        real_model(v),
    ensures
        deviatoric_spec(shifted(t, q)) == deviatoric_spec(t),
        von_mises_squared_spec(shifted(t, q)) == von_mises_squared_spec(t),
{
    reveal(real_model);
    lemma_third(v);
    let d = deviatoric_spec(t);
    let ds = deviatoric_spec(shifted(t, q));
    assert(v(ds.xx) == v(d.xx));
    assert(v(ds.yy) == v(d.yy));
    assert(v(ds.zz) == v(d.zz));
    lemma_same_image(v, ds.xx, d.xx);
    lemma_same_image(v, ds.yy, d.yy);
    lemma_same_image(v, ds.zz, d.zz);
}

/// In exact arithmetic the symmetric part of the expanded matrix of a tensor
/// is the tensor itself.
pub proof fn lemma_symmetric_part_round_trip<T: FloatPrecision>(
    t: SymmetricTensor3<T>,
    v: spec_fn(T) -> real,
)
    requires
        real_model(v),
    ensures
        symmetric_part(expanded(t)) == t,
{
    reveal(real_model);
    lemma_third(v);
    lemma_symmetric_part_of_expanded(t);
    let s = symmetric_part(expanded(t));
    assert(v(s.xy) == v(t.xy));
    assert(v(s.xz) == v(t.xz));
    assert(v(s.yz) == v(t.yz));
    lemma_same_image(v, s.xy, t.xy);
    lemma_same_image(v, s.xz, t.xz);
    lemma_same_image(v, s.yz, t.yz);
}

/// In exact arithmetic a matrix and its transpose have the same symmetric
/// part.
pub proof fn lemma_symmetric_part_of_transpose<T: FloatPrecision>(
    m: Mat3x3<T>,
    v: spec_fn(T) -> real,
)
    requires
        real_model(v),
    ensures
        symmetric_part(transpose_spec(m)) == symmetric_part(m),
{
    reveal(real_model);
    let s = symmetric_part(m);
    let st = symmetric_part(transpose_spec(m));
    assert(v(st.xy) == v(s.xy));
    assert(v(st.xz) == v(s.xz));
    assert(v(st.yz) == v(s.yz));
    lemma_same_image(v, st.xy, s.xy);
    lemma_same_image(v, st.xz, s.xz);
    lemma_same_image(v, st.yz, s.yz);
}

/// The zero tensor.
pub open spec fn zero_tensor<T: FloatPrecision>() -> SymmetricTensor3<T> {
    tensor_of(lit(0), lit(0), lit(0), lit(0), lit(0), lit(0))
}

/// In exact arithmetic the squared von Mises stress is zero for a tensor
/// whose deviatoric part is zero (a pure pressure) and positive for every
/// other tensor: any shear, or any difference between normal components,
/// gives a positive von Mises stress.
pub proof fn lemma_von_mises_vanishes_only_without_deviator<T: FloatPrecision>(
    t: SymmetricTensor3<T>,
    v: spec_fn(T) -> real,
)
    requires
        real_model(v),
        order_model(v),
    ensures
        deviatoric_spec(t) == zero_tensor::<T>() ==> von_mises_squared_spec(t) == lit::<T>(0),
        deviatoric_spec(t) != zero_tensor::<T>() ==> less(lit::<T>(0), von_mises_squared_spec(t)),
{
    reveal(real_model);
    lemma_third(v);
    let d = deviatoric_spec(t);
    let z = lit::<T>(0);
    lemma_square_sign(v(d.xx));
    lemma_square_sign(v(d.yy));
    lemma_square_sign(v(d.zz));
    lemma_square_sign(v(d.xy));
    lemma_square_sign(v(d.xz));
    lemma_square_sign(v(d.yz));
    let s = v(d.xx) * v(d.xx) + v(d.yy) * v(d.yy) + v(d.zz) * v(d.zz) + 2real * (v(d.xy) * v(d.xy)
        + v(d.xz) * v(d.xz) + v(d.yz) * v(d.yz));
    assert(v(contraction(d, d)) == s);
    let h = quot(sum(sum(lit::<T>(1), lit::<T>(1)), lit::<T>(1)), lit::<T>(2));
    assert(v(h) == 3real / 2real);
    assert(v(von_mises_squared_spec(t)) == v(h) * s);
    if d == zero_tensor::<T>() {
        assert(s == 0real);
        assert(v(von_mises_squared_spec(t)) == v(z));
        lemma_same_image(v, von_mises_squared_spec(t), z);
    } else {
        if v(d.xx) == v(z) && v(d.yy) == v(z) && v(d.zz) == v(z) && v(d.xy) == v(z) && v(d.xz) == v(z)
            && v(d.yz) == v(z) {
            lemma_same_image(v, d.xx, z);
            lemma_same_image(v, d.yy, z);
            lemma_same_image(v, d.zz, z);
            lemma_same_image(v, d.xy, z);
            lemma_same_image(v, d.xz, z);
            lemma_same_image(v, d.yz, z);
        }
        assert(s > 0real);
        assert(v(z) < v(von_mises_squared_spec(t)));
    }
}

} // verus!
