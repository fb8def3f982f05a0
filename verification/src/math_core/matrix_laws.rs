//! Laws of 3x3 matrices in exact arithmetic: the inverse (the adjugate
//! divided by the determinant) is a two-sided inverse.
use crate::math_core::matrix::{
    cross2, det_spec, entry, identity_spec, inverse_spec, mul_entry, Mat3x3,
};
use crate::math_core::precision::{lit, prod, quot, sum, FloatPrecision};
use crate::math_core::real_model::{lemma_same_image, real_model};
use vstd::prelude::*;

verus! {

/// `x·(y·k) = k·(x·y)` and `(x·k)·y = k·(x·y)`.
proof fn regroup(x: real, y: real, k: real)
    by (nonlinear_arith)
    ensures
        x * (y * k) == k * (x * y),
        (x * k) * y == k * (x * y),
{
}

/// `k·p + k·q + k·r = k·(p + q + r)`.
proof fn factor_out(k: real, p: real, q: real, r: real)
    by (nonlinear_arith)
    ensures
        k * p + k * q + k * r == k * (p + q + r),
{
}

/// The six orders of a product of three reals agree.
proof fn monomial(x: real, y: real, z: real)
    by (nonlinear_arith)
    ensures
        (x * y) * z == (x * z) * y,
        (x * y) * z == (y * x) * z,
        (x * y) * z == (y * z) * x,
        (x * y) * z == (z * x) * y,
        (x * y) * z == (z * y) * x,
{
}

/// `x·(p·q - r·s) = (x·p)·q - (x·r)·s`, and the same with `x` on the right.
proof fn expand(x: real, p: real, q: real, r: real, s: real)
    by (nonlinear_arith)
    ensures
        x * (p * q - r * s) == (x * p) * q - (x * r) * s,
        (p * q - r * s) * x == (x * p) * q - (x * r) * s,
{
}

/// Equal reals scaled by the same factor are equal.
proof fn scale_eq(k: real, s: real, t: real)
    requires
        s == t,
    ensures
        k * s == k * t,
{
}

/// `0 + x1·(y1·k) + x2·(y2·k) + x3·(y3·k) = k·(x1·y1 + x2·y2 + x3·y3)`.
proof fn t_left(x1: real, y1: real, x2: real, y2: real, x3: real, y3: real, k: real)
    ensures
        0real + x1 * (y1 * k) + x2 * (y2 * k) + x3 * (y3 * k) == k * (x1 * y1 + x2 * y2 + x3 * y3),
{
    regroup(x1, y1, k);
    regroup(x2, y2, k);
    regroup(x3, y3, k);
    factor_out(k, x1 * y1, x2 * y2, x3 * y3);
}

/// `0 + (x1·k)·y1 + (x2·k)·y2 + (x3·k)·y3 = k·(x1·y1 + x2·y2 + x3·y3)`.
proof fn t_right(x1: real, y1: real, x2: real, y2: real, x3: real, y3: real, k: real)
    ensures
        0real + (x1 * k) * y1 + (x2 * k) * y2 + (x3 * k) * y3 == k * (x1 * y1 + x2 * y2 + x3 * y3),
{
    regroup(x1, y1, k);
    regroup(x2, y2, k);
    regroup(x3, y3, k);
    factor_out(k, x1 * y1, x2 * y2, x3 * y3);
}

/// Row 0 of `M` against the columns of the adjugate: the determinant on
/// the diagonal, zero elsewhere.
proof fn lemma_cofactor_rows_0(
    a: real, b: real, c: real,
    d: real, e: real, f: real,
    g: real, h: real, i: real,
)
    ensures
        a * (e * i - f * h) + b * (f * g - d * i) + c * (d * h - e * g) == a * (e * i - f * h) - b * (d * i - f * g) + c * (d * h - e * g),
        a * (c * h - b * i) + b * (a * i - c * g) + c * (b * g - a * h) == 0real,
        a * (b * f - c * e) + b * (c * d - a * f) + c * (a * e - b * d) == 0real,
{
    expand(a, e, i, f, h);
    expand(b, f, g, d, i);
    expand(c, d, h, e, g);
    expand(a, c, h, b, i);
    expand(b, a, i, c, g);
    expand(c, b, g, a, h);
    expand(a, b, f, c, e);
    expand(b, c, d, a, f);
    expand(c, a, e, b, d);
    expand(a, e, i, f, h);
    expand(b, d, i, f, g);
    expand(c, d, h, e, g);
    monomial(a, b, f);
    monomial(a, b, i);
    monomial(a, c, e);
    monomial(a, c, h);
    monomial(a, e, i);
    monomial(a, f, h);
    monomial(b, c, d);
    monomial(b, c, g);
    monomial(b, d, i);
    monomial(b, f, g);
    monomial(c, d, h);
    monomial(c, e, g);
}

/// Row 1 of `M` against the columns of the adjugate: the determinant on
/// the diagonal, zero elsewhere.
proof fn lemma_cofactor_rows_1(
    a: real, b: real, c: real,
    d: real, e: real, f: real,
    g: real, h: real, i: real,
)
    ensures
        d * (e * i - f * h) + e * (f * g - d * i) + f * (d * h - e * g) == 0real,
        d * (c * h - b * i) + e * (a * i - c * g) + f * (b * g - a * h) == a * (e * i - f * h) - b * (d * i - f * g) + c * (d * h - e * g),
        d * (b * f - c * e) + e * (c * d - a * f) + f * (a * e - b * d) == 0real,
{
    expand(d, e, i, f, h);
    expand(e, f, g, d, i);
    expand(f, d, h, e, g);
    expand(d, c, h, b, i);
    expand(e, a, i, c, g);
    expand(f, b, g, a, h);
    expand(d, b, f, c, e);
    expand(e, c, d, a, f);
    expand(f, a, e, b, d);
    expand(a, e, i, f, h);
    expand(b, d, i, f, g);
    expand(c, d, h, e, g);
    monomial(a, e, f);
    monomial(a, e, i);
    monomial(a, f, h);
    monomial(b, d, f);
    monomial(b, d, i);
    monomial(b, f, g);
    monomial(c, d, e);
    monomial(c, d, h);
    monomial(c, e, g);
    monomial(d, e, i);
    monomial(d, f, h);
    monomial(e, f, g);
}

/// Row 2 of `M` against the columns of the adjugate: the determinant on
/// the diagonal, zero elsewhere.
proof fn lemma_cofactor_rows_2(
    a: real, b: real, c: real,
    d: real, e: real, f: real,
    g: real, h: real, i: real,
)
    ensures
        g * (e * i - f * h) + h * (f * g - d * i) + i * (d * h - e * g) == 0real,
        g * (c * h - b * i) + h * (a * i - c * g) + i * (b * g - a * h) == 0real,
        g * (b * f - c * e) + h * (c * d - a * f) + i * (a * e - b * d) == a * (e * i - f * h) - b * (d * i - f * g) + c * (d * h - e * g),
{
    expand(g, e, i, f, h);
    expand(h, f, g, d, i);
    expand(i, d, h, e, g);
    expand(g, c, h, b, i);
    expand(h, a, i, c, g);
    expand(i, b, g, a, h);
    expand(g, b, f, c, e);
    expand(h, c, d, a, f);
    expand(i, a, e, b, d);
    expand(a, e, i, f, h);
    expand(b, d, i, f, g);
    expand(c, d, h, e, g);
    monomial(a, e, i);
    monomial(a, f, h);
    monomial(a, h, i);
    monomial(b, d, i);
    monomial(b, f, g);
    monomial(b, g, i);
    monomial(c, d, h);
    monomial(c, e, g);
    monomial(c, g, h);
    monomial(d, h, i);
    monomial(e, g, i);
    monomial(f, g, h);
}

/// Row 0 of the adjugate against the columns of `M`: the determinant on
/// the diagonal, zero elsewhere.
proof fn lemma_cofactor_columns_0(
    a: real, b: real, c: real,
    d: real, e: real, f: real,
    g: real, h: real, i: real,
)
    ensures
        (e * i - f * h) * a + (c * h - b * i) * d + (b * f - c * e) * g == a * (e * i - f * h) - b * (d * i - f * g) + c * (d * h - e * g),
        (e * i - f * h) * b + (c * h - b * i) * e + (b * f - c * e) * h == 0real,
        (e * i - f * h) * c + (c * h - b * i) * f + (b * f - c * e) * i == 0real,
{
    expand(a, e, i, f, h);
    expand(d, c, h, b, i);
    expand(g, b, f, c, e);
    expand(b, e, i, f, h);
    expand(e, c, h, b, i);
    expand(h, b, f, c, e);
    expand(c, e, i, f, h);
    expand(f, c, h, b, i);
    expand(i, b, f, c, e);
    expand(a, e, i, f, h);
    expand(b, d, i, f, g);
    expand(c, d, h, e, g);
    monomial(a, e, i);
    monomial(a, f, h);
    monomial(b, d, i);
    monomial(b, e, i);
    monomial(b, f, g);
    monomial(b, f, h);
    monomial(b, f, i);
    monomial(c, d, h);
    monomial(c, e, g);
    monomial(c, e, h);
    monomial(c, e, i);
    monomial(c, f, h);
}

/// Row 1 of the adjugate against the columns of `M`: the determinant on
/// the diagonal, zero elsewhere.
proof fn lemma_cofactor_columns_1(
    a: real, b: real, c: real,
    d: real, e: real, f: real,
    g: real, h: real, i: real,
)
    ensures
        (f * g - d * i) * a + (a * i - c * g) * d + (c * d - a * f) * g == 0real,
        (f * g - d * i) * b + (a * i - c * g) * e + (c * d - a * f) * h == a * (e * i - f * h) - b * (d * i - f * g) + c * (d * h - e * g),
        (f * g - d * i) * c + (a * i - c * g) * f + (c * d - a * f) * i == 0real,
{
    expand(a, f, g, d, i);
    expand(d, a, i, c, g);
    expand(g, c, d, a, f);
    expand(b, f, g, d, i);
    expand(e, a, i, c, g);
    expand(h, c, d, a, f);
    expand(c, f, g, d, i);
    expand(f, a, i, c, g);
    expand(i, c, d, a, f);
    expand(a, e, i, f, h);
    expand(b, d, i, f, g);
    expand(c, d, h, e, g);
    monomial(a, d, i);
    monomial(a, e, i);
    monomial(a, f, g);
    monomial(a, f, h);
    monomial(a, f, i);
    monomial(b, d, i);
    monomial(b, f, g);
    monomial(c, d, g);
    monomial(c, d, h);
    monomial(c, d, i);
    monomial(c, e, g);
    monomial(c, f, g);
}

/// Row 2 of the adjugate against the columns of `M`: the determinant on
/// the diagonal, zero elsewhere.
proof fn lemma_cofactor_columns_2(
    a: real, b: real, c: real,
    d: real, e: real, f: real,
    g: real, h: real, i: real,
)
    ensures
        (d * h - e * g) * a + (b * g - a * h) * d + (a * e - b * d) * g == 0real,
        (d * h - e * g) * b + (b * g - a * h) * e + (a * e - b * d) * h == 0real,
        (d * h - e * g) * c + (b * g - a * h) * f + (a * e - b * d) * i == a * (e * i - f * h) - b * (d * i - f * g) + c * (d * h - e * g),
{
    expand(a, d, h, e, g);
    expand(d, b, g, a, h);
    expand(g, a, e, b, d);
    expand(b, d, h, e, g);
    expand(e, b, g, a, h);
    expand(h, a, e, b, d);
    expand(c, d, h, e, g);
    expand(f, b, g, a, h);
    expand(i, a, e, b, d);
    expand(a, e, i, f, h);
    expand(b, d, i, f, g);
    expand(c, d, h, e, g);
    monomial(a, d, h);
    monomial(a, e, g);
    monomial(a, e, h);
    monomial(a, e, i);
    monomial(a, f, h);
    monomial(b, d, g);
    monomial(b, d, h);
    monomial(b, d, i);
    monomial(b, e, g);
    monomial(b, f, g);
    monomial(c, d, h);
    monomial(c, e, g);
}

/// For a real matrix `[a b c; d e f; g h i]` and `k` the inverse of its
/// determinant, the adjugate (written out) scaled by `k` is a two-sided
/// inverse: the entries of both products, summed from `0` in index order,
/// are those of the identity.
proof fn lemma_adjugate_inverse_poly(
    a: real, b: real, c: real,
    d: real, e: real, f: real,
    g: real, h: real, i: real,
    k: real,
)
    requires
        k * (a * (e * i - f * h) - b * (d * i - f * g) + c * (d * h - e * g)) == 1real,
    ensures
        0real + a * ((e * i - f * h) * k) + b * ((f * g - d * i) * k) + c * ((d * h - e * g) * k) == 1real,
        0real + a * ((c * h - b * i) * k) + b * ((a * i - c * g) * k) + c * ((b * g - a * h) * k) == 0real,
        0real + a * ((b * f - c * e) * k) + b * ((c * d - a * f) * k) + c * ((a * e - b * d) * k) == 0real,
        0real + d * ((e * i - f * h) * k) + e * ((f * g - d * i) * k) + f * ((d * h - e * g) * k) == 0real,
        0real + d * ((c * h - b * i) * k) + e * ((a * i - c * g) * k) + f * ((b * g - a * h) * k) == 1real,
        0real + d * ((b * f - c * e) * k) + e * ((c * d - a * f) * k) + f * ((a * e - b * d) * k) == 0real,
        0real + g * ((e * i - f * h) * k) + h * ((f * g - d * i) * k) + i * ((d * h - e * g) * k) == 0real,
        0real + g * ((c * h - b * i) * k) + h * ((a * i - c * g) * k) + i * ((b * g - a * h) * k) == 0real,
        0real + g * ((b * f - c * e) * k) + h * ((c * d - a * f) * k) + i * ((a * e - b * d) * k) == 1real,
        0real + ((e * i - f * h) * k) * a + ((c * h - b * i) * k) * d + ((b * f - c * e) * k) * g == 1real,
        0real + ((e * i - f * h) * k) * b + ((c * h - b * i) * k) * e + ((b * f - c * e) * k) * h == 0real,
        0real + ((e * i - f * h) * k) * c + ((c * h - b * i) * k) * f + ((b * f - c * e) * k) * i == 0real,
        0real + ((f * g - d * i) * k) * a + ((a * i - c * g) * k) * d + ((c * d - a * f) * k) * g == 0real,
        0real + ((f * g - d * i) * k) * b + ((a * i - c * g) * k) * e + ((c * d - a * f) * k) * h == 1real,
        0real + ((f * g - d * i) * k) * c + ((a * i - c * g) * k) * f + ((c * d - a * f) * k) * i == 0real,
        0real + ((d * h - e * g) * k) * a + ((b * g - a * h) * k) * d + ((a * e - b * d) * k) * g == 0real,
        0real + ((d * h - e * g) * k) * b + ((b * g - a * h) * k) * e + ((a * e - b * d) * k) * h == 0real,
        0real + ((d * h - e * g) * k) * c + ((b * g - a * h) * k) * f + ((a * e - b * d) * k) * i == 1real,
{
    lemma_cofactor_rows_0(a, b, c, d, e, f, g, h, i);
    t_left(a, (e * i - f * h), b, (f * g - d * i), c, (d * h - e * g), k);
    scale_eq(k, a * (e * i - f * h) + b * (f * g - d * i) + c * (d * h - e * g), a * (e * i - f * h) - b * (d * i - f * g) + c * (d * h - e * g));
    t_left(a, (c * h - b * i), b, (a * i - c * g), c, (b * g - a * h), k);
    scale_eq(k, a * (c * h - b * i) + b * (a * i - c * g) + c * (b * g - a * h), 0real);
    t_left(a, (b * f - c * e), b, (c * d - a * f), c, (a * e - b * d), k);
    scale_eq(k, a * (b * f - c * e) + b * (c * d - a * f) + c * (a * e - b * d), 0real);
    lemma_cofactor_rows_1(a, b, c, d, e, f, g, h, i);
    t_left(d, (e * i - f * h), e, (f * g - d * i), f, (d * h - e * g), k);
    scale_eq(k, d * (e * i - f * h) + e * (f * g - d * i) + f * (d * h - e * g), 0real);
    t_left(d, (c * h - b * i), e, (a * i - c * g), f, (b * g - a * h), k);
    scale_eq(k, d * (c * h - b * i) + e * (a * i - c * g) + f * (b * g - a * h), a * (e * i - f * h) - b * (d * i - f * g) + c * (d * h - e * g));
    t_left(d, (b * f - c * e), e, (c * d - a * f), f, (a * e - b * d), k);
    scale_eq(k, d * (b * f - c * e) + e * (c * d - a * f) + f * (a * e - b * d), 0real);
    lemma_cofactor_rows_2(a, b, c, d, e, f, g, h, i);
    t_left(g, (e * i - f * h), h, (f * g - d * i), i, (d * h - e * g), k);
    scale_eq(k, g * (e * i - f * h) + h * (f * g - d * i) + i * (d * h - e * g), 0real);
    t_left(g, (c * h - b * i), h, (a * i - c * g), i, (b * g - a * h), k);
    scale_eq(k, g * (c * h - b * i) + h * (a * i - c * g) + i * (b * g - a * h), 0real);
    t_left(g, (b * f - c * e), h, (c * d - a * f), i, (a * e - b * d), k);
    scale_eq(k, g * (b * f - c * e) + h * (c * d - a * f) + i * (a * e - b * d), a * (e * i - f * h) - b * (d * i - f * g) + c * (d * h - e * g));
    lemma_cofactor_columns_0(a, b, c, d, e, f, g, h, i);
    t_right((e * i - f * h), a, (c * h - b * i), d, (b * f - c * e), g, k);
    scale_eq(k, (e * i - f * h) * a + (c * h - b * i) * d + (b * f - c * e) * g, a * (e * i - f * h) - b * (d * i - f * g) + c * (d * h - e * g));
    t_right((e * i - f * h), b, (c * h - b * i), e, (b * f - c * e), h, k);
    scale_eq(k, (e * i - f * h) * b + (c * h - b * i) * e + (b * f - c * e) * h, 0real);
    t_right((e * i - f * h), c, (c * h - b * i), f, (b * f - c * e), i, k);
    scale_eq(k, (e * i - f * h) * c + (c * h - b * i) * f + (b * f - c * e) * i, 0real);
    lemma_cofactor_columns_1(a, b, c, d, e, f, g, h, i);
    t_right((f * g - d * i), a, (a * i - c * g), d, (c * d - a * f), g, k);
    scale_eq(k, (f * g - d * i) * a + (a * i - c * g) * d + (c * d - a * f) * g, 0real);
    t_right((f * g - d * i), b, (a * i - c * g), e, (c * d - a * f), h, k);
    scale_eq(k, (f * g - d * i) * b + (a * i - c * g) * e + (c * d - a * f) * h, a * (e * i - f * h) - b * (d * i - f * g) + c * (d * h - e * g));
    t_right((f * g - d * i), c, (a * i - c * g), f, (c * d - a * f), i, k);
    scale_eq(k, (f * g - d * i) * c + (a * i - c * g) * f + (c * d - a * f) * i, 0real);
    lemma_cofactor_columns_2(a, b, c, d, e, f, g, h, i);
    t_right((d * h - e * g), a, (b * g - a * h), d, (a * e - b * d), g, k);
    scale_eq(k, (d * h - e * g) * a + (b * g - a * h) * d + (a * e - b * d) * g, 0real);
    t_right((d * h - e * g), b, (b * g - a * h), e, (a * e - b * d), h, k);
    scale_eq(k, (d * h - e * g) * b + (b * g - a * h) * e + (a * e - b * d) * h, 0real);
    t_right((d * h - e * g), c, (b * g - a * h), f, (a * e - b * d), i, k);
    scale_eq(k, (d * h - e * g) * c + (b * g - a * h) * f + (a * e - b * d) * i, a * (e * i - f * h) - b * (d * i - f * g) + c * (d * h - e * g));
}

/// `x·(y·k) = x·(z·k)` and `(y·k)·x = (z·k)·x` when `y = z`.
proof fn substitute(x: real, y: real, z: real, k: real)
    requires
        y == z,
    ensures
        x * (y * k) == x * (z * k),
        (y * k) * x == (z * k) * x,
{
}

/// The adjugate of a real matrix `[a b c; d e f; g h i]`, given by its
/// entries `c00 … c22`, scaled by `k`, the inverse of the determinant (given
/// by its first-row cofactors `q0, q1, q2`), is a two-sided inverse: the
/// entries of both products, summed from `0` in index order, are those of
/// the identity.
proof fn lemma_adjugate_inverse_real(
    a: real, b: real, c: real,
    d: real, e: real, f: real,
    g: real, h: real, i: real,
    k: real,
    c00: real, c01: real, c02: real,
    c10: real, c11: real, c12: real,
    c20: real, c21: real, c22: real,
    q0: real, q1: real, q2: real,
)
    requires
        c00 == e * i - f * h,
        c01 == c * h - b * i,
        c02 == b * f - c * e,
        c10 == f * g - d * i,
        c11 == a * i - c * g,
        c12 == c * d - a * f,
        c20 == d * h - e * g,
        c21 == b * g - a * h,
        c22 == a * e - b * d,
        q0 == e * i - f * h,
        q1 == d * i - f * g,
        q2 == d * h - e * g,
        k * (a * q0 - b * q1 + c * q2) == 1real,
    ensures
        0real + a * (c00 * k) + b * (c10 * k) + c * (c20 * k) == 1real,
        0real + a * (c01 * k) + b * (c11 * k) + c * (c21 * k) == 0real,
        0real + a * (c02 * k) + b * (c12 * k) + c * (c22 * k) == 0real,
        0real + d * (c00 * k) + e * (c10 * k) + f * (c20 * k) == 0real,
        0real + d * (c01 * k) + e * (c11 * k) + f * (c21 * k) == 1real,
        0real + d * (c02 * k) + e * (c12 * k) + f * (c22 * k) == 0real,
        0real + g * (c00 * k) + h * (c10 * k) + i * (c20 * k) == 0real,
        0real + g * (c01 * k) + h * (c11 * k) + i * (c21 * k) == 0real,
        0real + g * (c02 * k) + h * (c12 * k) + i * (c22 * k) == 1real,
        0real + (c00 * k) * a + (c01 * k) * d + (c02 * k) * g == 1real,
        0real + (c00 * k) * b + (c01 * k) * e + (c02 * k) * h == 0real,
        0real + (c00 * k) * c + (c01 * k) * f + (c02 * k) * i == 0real,
        0real + (c10 * k) * a + (c11 * k) * d + (c12 * k) * g == 0real,
        0real + (c10 * k) * b + (c11 * k) * e + (c12 * k) * h == 1real,
        0real + (c10 * k) * c + (c11 * k) * f + (c12 * k) * i == 0real,
        0real + (c20 * k) * a + (c21 * k) * d + (c22 * k) * g == 0real,
        0real + (c20 * k) * b + (c21 * k) * e + (c22 * k) * h == 0real,
        0real + (c20 * k) * c + (c21 * k) * f + (c22 * k) * i == 1real,
{
    scale_eq(a, q0, e * i - f * h);
    scale_eq(b, q1, d * i - f * g);
    scale_eq(c, q2, d * h - e * g);
    lemma_adjugate_inverse_poly(a, b, c, d, e, f, g, h, i, k);
    substitute(a, c00, (e * i - f * h), k);
    substitute(a, c01, (c * h - b * i), k);
    substitute(a, c02, (b * f - c * e), k);
    substitute(a, c10, (f * g - d * i), k);
    substitute(a, c20, (d * h - e * g), k);
    substitute(b, c00, (e * i - f * h), k);
    substitute(b, c10, (f * g - d * i), k);
    substitute(b, c11, (a * i - c * g), k);
    substitute(b, c12, (c * d - a * f), k);
    substitute(b, c20, (d * h - e * g), k);
    substitute(c, c00, (e * i - f * h), k);
    substitute(c, c10, (f * g - d * i), k);
    substitute(c, c20, (d * h - e * g), k);
    substitute(c, c21, (b * g - a * h), k);
    substitute(c, c22, (a * e - b * d), k);
    substitute(d, c00, (e * i - f * h), k);
    substitute(d, c01, (c * h - b * i), k);
    substitute(d, c02, (b * f - c * e), k);
    substitute(d, c11, (a * i - c * g), k);
    substitute(d, c21, (b * g - a * h), k);
    substitute(e, c01, (c * h - b * i), k);
    substitute(e, c10, (f * g - d * i), k);
    substitute(e, c11, (a * i - c * g), k);
    substitute(e, c12, (c * d - a * f), k);
    substitute(e, c21, (b * g - a * h), k);
    substitute(f, c01, (c * h - b * i), k);
    substitute(f, c11, (a * i - c * g), k);
    substitute(f, c20, (d * h - e * g), k);
    substitute(f, c21, (b * g - a * h), k);
    substitute(f, c22, (a * e - b * d), k);
    substitute(g, c00, (e * i - f * h), k);
    substitute(g, c01, (c * h - b * i), k);
    substitute(g, c02, (b * f - c * e), k);
    substitute(g, c12, (c * d - a * f), k);
    substitute(g, c22, (a * e - b * d), k);
    substitute(h, c02, (b * f - c * e), k);
    substitute(h, c10, (f * g - d * i), k);
    substitute(h, c11, (a * i - c * g), k);
    substitute(h, c12, (c * d - a * f), k);
    substitute(h, c22, (a * e - b * d), k);
    substitute(i, c02, (b * f - c * e), k);
    substitute(i, c12, (c * d - a * f), k);
    substitute(i, c20, (d * h - e * g), k);
    substitute(i, c21, (b * g - a * h), k);
    substitute(i, c22, (a * e - b * d), k);
}

/// The images of the literals `0` and `1`.
proof fn lemma_unit_images<T: FloatPrecision>(v: spec_fn(T) -> real)
    requires
        real_model(v),
    ensures
        v(lit::<T>(0)) == 0real,
        v(lit::<T>(1)) == 1real,
{
    reveal(real_model);
}

/// The image of a quotient by a scalar with a non-zero image.
proof fn lemma_quot_image<T: FloatPrecision>(v: spec_fn(T) -> real, a: T, b: T)
    requires
        real_model(v),
        v(b) != 0real,
    ensures
        v(quot(a, b)) * v(b) == v(a),
{
    reveal(real_model);
}

/// The image of `p·q - r·s`.
proof fn lemma_cross_image<T: FloatPrecision>(v: spec_fn(T) -> real, p: T, q: T, r: T, s: T)
    requires
        real_model(v),
    ensures
        v(cross2(p, q, r, s)) == v(p) * v(q) - v(r) * v(s),
{
    reveal(real_model);
}

/// The image of the determinant, over the images of the first row and of
/// its cofactors.
proof fn lemma_det_image<T: FloatPrecision>(v: spec_fn(T) -> real, m: Mat3x3<T>)
    requires
        real_model(v),
    ensures
        v(det_spec(m)) == v(m.data@[0]) * v(cross2(m.data@[4], m.data@[8], m.data@[5], m.data@[7]))
            - v(m.data@[1]) * v(cross2(m.data@[3], m.data@[8], m.data@[5], m.data@[6])) + v(
        m.data@[2]) * v(cross2(m.data@[3], m.data@[7], m.data@[4], m.data@[6])),
{
    reveal(real_model);
}

/// The image of `((0 + x0·(y0·k)) + x1·(y1·k)) + x2·(y2·k)`.
proof fn lemma_left_entry_image<T: FloatPrecision>(
    v: spec_fn(T) -> real,
    x0: T, y0: T, x1: T, y1: T, x2: T, y2: T, k: T,
)
    requires
        real_model(v),
    ensures
        v(sum(sum(sum(lit::<T>(0), prod(x0, prod(y0, k))), prod(x1, prod(y1, k))), prod(x2, prod(y2, k))))
            == 0real + v(x0) * (v(y0) * v(k)) + v(x1) * (v(y1) * v(k)) + v(x2) * (v(y2) * v(k)),
{
    reveal(real_model);
}

/// The image of `((0 + (y0·k)·x0) + (y1·k)·x1) + (y2·k)·x2`.
proof fn lemma_right_entry_image<T: FloatPrecision>(
    v: spec_fn(T) -> real,
    y0: T, x0: T, y1: T, x1: T, y2: T, x2: T, k: T,
)
    requires
        real_model(v),
    ensures
        v(sum(sum(sum(lit::<T>(0), prod(prod(y0, k), x0)), prod(prod(y1, k), x1)), prod(prod(y2, k), x2)))
            == 0real + (v(y0) * v(k)) * v(x0) + (v(y1) * v(k)) * v(x1) + (v(y2) * v(k)) * v(x2),
{
    reveal(real_model);
}

/// In exact arithmetic a matrix with a non-zero determinant, multiplied by
/// its inverse (the adjugate divided by the determinant) on either side,
/// gives the identity.
pub proof fn lemma_inverse_round_trip<T: FloatPrecision>(m: Mat3x3<T>, v: spec_fn(T) -> real)
    requires
        real_model(v),
        det_spec(m) != lit::<T>(0),
    ensures
        forall|r: int, c: int|
            0 <= r < 3 && 0 <= c < 3 ==> #[trigger] mul_entry(m, inverse_spec(m), r, c) == entry(
                identity_spec::<T>(),
                r,
                c,
            ),
        forall|r: int, c: int|
            0 <= r < 3 && 0 <= c < 3 ==> #[trigger] mul_entry(inverse_spec(m), m, r, c) == entry(
                identity_spec::<T>(),
                r,
                c,
            ),
{
    let (a, b, c) = (m.data@[0], m.data@[1], m.data@[2]);
    let (d, e, f) = (m.data@[3], m.data@[4], m.data@[5]);
    let (g, h, i) = (m.data@[6], m.data@[7], m.data@[8]);
    let det = det_spec(m);
    let zero = lit::<T>(0);
    let one = lit::<T>(1);
    lemma_unit_images(v);
    if v(det) == v(zero) {
        lemma_same_image(v, det, zero);
    }
    let k = quot(one, det);
    lemma_quot_image(v, one, det);
    lemma_det_image(v, m);
    let (q0, q1, q2) = (cross2(e, i, f, h), cross2(d, i, f, g), cross2(d, h, e, g));
    lemma_cross_image(v, d, i, f, g);
    lemma_cross_image(v, d, h, e, g);
    lemma_cross_image(v, e, i, f, h);
    lemma_cross_image(v, c, h, b, i);
    lemma_cross_image(v, b, f, c, e);
    lemma_cross_image(v, f, g, d, i);
    lemma_cross_image(v, a, i, c, g);
    lemma_cross_image(v, c, d, a, f);
    lemma_cross_image(v, d, h, e, g);
    lemma_cross_image(v, b, g, a, h);
    lemma_cross_image(v, a, e, b, d);
    scale_eq(v(k), v(det), v(a) * v(q0) - v(b) * v(q1) + v(c) * v(q2));
    lemma_adjugate_inverse_real(
        v(a), v(b), v(c), v(d), v(e), v(f), v(g), v(h), v(i), v(k),
        v(cross2(e, i, f, h)), v(cross2(c, h, b, i)), v(cross2(b, f, c, e)), v(cross2(f, g, d, i)), v(cross2(a, i, c, g)), v(cross2(c, d, a, f)), v(cross2(d, h, e, g)), v(cross2(b, g, a, h)), v(cross2(a, e, b, d)),
        v(q0), v(q1), v(q2),
    );
    let inv = inverse_spec(m);
    let id = identity_spec::<T>();
    assert(inv.data@ =~= seq![
        prod(cross2(e, i, f, h), k), prod(cross2(c, h, b, i), k), prod(cross2(b, f, c, e), k),
        prod(cross2(f, g, d, i), k), prod(cross2(a, i, c, g), k), prod(cross2(c, d, a, f), k),
        prod(cross2(d, h, e, g), k), prod(cross2(b, g, a, h), k), prod(cross2(a, e, b, d), k),
    ]);
    assert(id.data@ =~= seq![one, zero, zero, zero, one, zero, zero, zero, one]);
    lemma_left_entry_image(v, a, cross2(e, i, f, h), b, cross2(f, g, d, i), c, cross2(d, h, e, g), k);
    lemma_same_image(v, mul_entry(m, inv, 0, 0), entry(id, 0, 0));
    lemma_left_entry_image(v, a, cross2(c, h, b, i), b, cross2(a, i, c, g), c, cross2(b, g, a, h), k);
    lemma_same_image(v, mul_entry(m, inv, 0, 1), entry(id, 0, 1));
    lemma_left_entry_image(v, a, cross2(b, f, c, e), b, cross2(c, d, a, f), c, cross2(a, e, b, d), k);
    lemma_same_image(v, mul_entry(m, inv, 0, 2), entry(id, 0, 2));
    lemma_left_entry_image(v, d, cross2(e, i, f, h), e, cross2(f, g, d, i), f, cross2(d, h, e, g), k);
    lemma_same_image(v, mul_entry(m, inv, 1, 0), entry(id, 1, 0));
    lemma_left_entry_image(v, d, cross2(c, h, b, i), e, cross2(a, i, c, g), f, cross2(b, g, a, h), k);
    lemma_same_image(v, mul_entry(m, inv, 1, 1), entry(id, 1, 1));
    lemma_left_entry_image(v, d, cross2(b, f, c, e), e, cross2(c, d, a, f), f, cross2(a, e, b, d), k);
    lemma_same_image(v, mul_entry(m, inv, 1, 2), entry(id, 1, 2));
    lemma_left_entry_image(v, g, cross2(e, i, f, h), h, cross2(f, g, d, i), i, cross2(d, h, e, g), k);
    lemma_same_image(v, mul_entry(m, inv, 2, 0), entry(id, 2, 0));
    lemma_left_entry_image(v, g, cross2(c, h, b, i), h, cross2(a, i, c, g), i, cross2(b, g, a, h), k);
    lemma_same_image(v, mul_entry(m, inv, 2, 1), entry(id, 2, 1));
    lemma_left_entry_image(v, g, cross2(b, f, c, e), h, cross2(c, d, a, f), i, cross2(a, e, b, d), k);
    lemma_same_image(v, mul_entry(m, inv, 2, 2), entry(id, 2, 2));
    lemma_right_entry_image(v, cross2(e, i, f, h), a, cross2(c, h, b, i), d, cross2(b, f, c, e), g, k);
    lemma_same_image(v, mul_entry(inv, m, 0, 0), entry(id, 0, 0));
    lemma_right_entry_image(v, cross2(e, i, f, h), b, cross2(c, h, b, i), e, cross2(b, f, c, e), h, k);
    lemma_same_image(v, mul_entry(inv, m, 0, 1), entry(id, 0, 1));
    lemma_right_entry_image(v, cross2(e, i, f, h), c, cross2(c, h, b, i), f, cross2(b, f, c, e), i, k);
    lemma_same_image(v, mul_entry(inv, m, 0, 2), entry(id, 0, 2));
    lemma_right_entry_image(v, cross2(f, g, d, i), a, cross2(a, i, c, g), d, cross2(c, d, a, f), g, k);
    lemma_same_image(v, mul_entry(inv, m, 1, 0), entry(id, 1, 0));
    lemma_right_entry_image(v, cross2(f, g, d, i), b, cross2(a, i, c, g), e, cross2(c, d, a, f), h, k);
    lemma_same_image(v, mul_entry(inv, m, 1, 1), entry(id, 1, 1));
    lemma_right_entry_image(v, cross2(f, g, d, i), c, cross2(a, i, c, g), f, cross2(c, d, a, f), i, k);
    lemma_same_image(v, mul_entry(inv, m, 1, 2), entry(id, 1, 2));
    lemma_right_entry_image(v, cross2(d, h, e, g), a, cross2(b, g, a, h), d, cross2(a, e, b, d), g, k);
    lemma_same_image(v, mul_entry(inv, m, 2, 0), entry(id, 2, 0));
    lemma_right_entry_image(v, cross2(d, h, e, g), b, cross2(b, g, a, h), e, cross2(a, e, b, d), h, k);
    lemma_same_image(v, mul_entry(inv, m, 2, 1), entry(id, 2, 1));
    lemma_right_entry_image(v, cross2(d, h, e, g), c, cross2(b, g, a, h), f, cross2(a, e, b, d), i, k);
    lemma_same_image(v, mul_entry(inv, m, 2, 2), entry(id, 2, 2));
    assert forall|r: int, c: int| 0 <= r < 3 && 0 <= c < 3 implies #[trigger] mul_entry(m, inv, r, c)
        == entry(id, r, c) by {
        assert((r == 0 && c == 0) || (r == 0 && c == 1) || (r == 0 && c == 2) || (r == 1 && c == 0) || (r == 1 && c == 1) || (r == 1 && c == 2) || (r == 2 && c == 0) || (r == 2 && c == 1) || (r == 2 && c == 2));
    }
    assert forall|r: int, c: int| 0 <= r < 3 && 0 <= c < 3 implies #[trigger] mul_entry(inv, m, r, c)
        == entry(id, r, c) by {
        assert((r == 0 && c == 0) || (r == 0 && c == 1) || (r == 0 && c == 2) || (r == 1 && c == 0) || (r == 1 && c == 1) || (r == 1 && c == 2) || (r == 2 && c == 0) || (r == 2 && c == 1) || (r == 2 && c == 2));
    }
}

} // verus!
