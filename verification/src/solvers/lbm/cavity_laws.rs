//! Momentum exchange at the moving lid of the 2D cavity, in exact
//! arithmetic.
use crate::math_core::precision::{lit, FloatPrecision};
use crate::math_core::real_model::real_model;
use crate::solvers::lbm::d2q9;
use crate::solvers::lbm::Route;
use crate::solvers::lbm::lbm2d::{
    cavity_route_spec,
    cavity_deposit_value, cavity_moments, cavity_post, cavity_route_at, cavity_velocity,
    cavity_weight, CavityView,
};
use vstd::prelude::*;

verus! {

/// The BGK equilibrium population, in real numbers, of a direction with
/// weight `w` and lattice velocity `(ex, ey)` for density `rho` and velocity
/// `(ux, uy)`: `w ρ (1 + 3 e·u + 9/2 (e·u)² - 3/2 u²)`.
pub open spec fn equilibrium_real(w: real, ex: real, ey: real, rho: real, ux: real, uy: real) -> real {
    let eu = ex * ux + ey * uy;
    w * rho * (1real + 3real * eu + (9real / 2real) * (eu * eu) - (3real / 2real) * (ux * ux + uy
        * uy))
}

/// The weight of D2Q9 direction `i` as a real number.
pub open spec fn weight_real(i: int) -> real {
    d2q9::W_NUMERATOR[i] as real / 36real
}

/// Component `a` of D2Q9 direction `i` as a real number.
pub open spec fn velocity_real(i: int, a: int) -> real {
    d2q9::E[i][a] as real
}

/// `(-a)·b = -(a·b)`.
proof fn lemma_neg_mul(a: real, b: real)
    by (nonlinear_arith)
    ensures
        (-a) * b == -(a * b),
{
}

/// Numbers of opposite sign have the same square.
proof fn lemma_same_square(a: real, b: real)
    by (nonlinear_arith)
    requires
        a == -b,
    ensures
        a * a == b * b,
{
}

/// `k·p - k·q = k·(p - q)`.
proof fn lemma_factor_difference(k: real, p: real, q: real)
    by (nonlinear_arith)
    ensures
        k * p - k * q == k * (p - q),
{
}

/// Equal factors give equal products.
proof fn lemma_scale_equal(k: real, p: real, q: real)
    requires
        p == q,
    ensures
        k * p == k * q,
{
}

/// `k·(6·x) = 6·(k·x)`.
proof fn lemma_scale_six(k: real, x: real)
    by (nonlinear_arith)
    ensures
        k * (6real * x) == 6real * (k * x),
{
}

/// `(((2·w)·r)·e)·u·3 = 6·((w·r)·(e·u))`.
proof fn lemma_regroup_correction(w: real, r: real, e: real, u: real)
    by (nonlinear_arith)
    ensures
        ((((2real * w) * r) * e) * u) * 3real == 6real * ((w * r) * (e * u)),
{
}

/// `2·w·ρ·e·u·3`, the lid correction, equals the difference of the
/// equilibria of two opposite directions at the wall velocity `(u, 0)`.
proof fn lemma_ladd_real(w: real, r: real, ex: real, ey: real, u: real)
    ensures
        ((((2real * w) * r) * ex) * u) * 3real == equilibrium_real(w, ex, ey, r, u, 0real)
            - equilibrium_real(w, -ex, -ey, r, u, 0real),
{
    let eu = ex * u + ey * 0real;
    let eo = (-ex) * u + (-ey) * 0real;
    assert(eu == ex * u);
    lemma_neg_mul(ex, u);
    assert(eo == -(ex * u));
    lemma_same_square(eo, eu);
    let k = w * r;
    let p = 1real + 3real * eu + (9real / 2real) * (eu * eu) - (3real / 2real) * (u * u + 0real * 0real);
    let q = 1real + 3real * eo + (9real / 2real) * (eo * eo) - (3real / 2real) * (u * u + 0real * 0real);
    assert(equilibrium_real(w, ex, ey, r, u, 0real) == k * p);
    assert(equilibrium_real(w, -ex, -ey, r, u, 0real) == k * q);
    lemma_factor_difference(k, p, q);
    assert(p - q == 6real * (ex * u));
    lemma_scale_equal(k, p - q, 6real * (ex * u));
    lemma_scale_six(k, ex * u);
    lemma_regroup_correction(w, r, ex, u);
}

/// The images of the weight and velocity of direction `i`, of the literals
/// `2` and `3`, and the weight and velocity of the opposite direction.
proof fn lemma_direction_images<T: FloatPrecision>(v: spec_fn(T) -> real, i: int)
    requires
        real_model(v),
        0 <= i < d2q9::Q,
    ensures
        v(cavity_weight::<T>(i)) == weight_real(i),
        v(cavity_velocity::<T>(i, 0)) == velocity_real(i, 0),
        v(lit::<T>(2)) == 2real,
        v(lit::<T>(3)) == 3real,
        weight_real(d2q9::OPPOSITE[i] as int) == weight_real(i),
        velocity_real(d2q9::OPPOSITE[i] as int, 0) == -velocity_real(i, 0),
        velocity_real(d2q9::OPPOSITE[i] as int, 1) == -velocity_real(i, 1),
{
    reveal(real_model);
    assert(v(lit::<T>(36)) == 36real);
    if i == 0 {
    } else if i == 1 {
    } else if i == 2 {
    } else if i == 3 {
    } else if i == 4 {
    } else if i == 5 {
    } else if i == 6 {
    } else if i == 7 {
    } else {
    }
}

/// Momentum exchange at the moving lid (bounce-back with Ladd's
/// correction): in exact arithmetic a population of direction `i` that is
/// reflected off the lid, which moves along `x` at `u_lid`, lands as its
/// post-collision value less the difference between the equilibria of
/// direction `i` and of the opposite direction at the wall velocity
/// `(u_lid, 0)` and the cell's density.  A population in equilibrium with
/// the wall therefore comes back as the opposite direction's equilibrium.
pub proof fn lemma_lid_reflection_exchanges_momentum<T: FloatPrecision>(
    l: CavityView<T>,
    u_lid: T,
    c: int,
    i: int,
    v: spec_fn(T) -> real,
)
    requires
        real_model(v),
        0 <= i < d2q9::Q,
        cavity_route_at(l, c, i) is MovingWall,
    ensures
        v(cavity_deposit_value(l, u_lid, c, i)) == v(cavity_post(l, c, i)) - (equilibrium_real(
            weight_real(i),
            velocity_real(i, 0),
            velocity_real(i, 1),
            v(cavity_moments(l.f, l.cells(), c).0),
            v(u_lid),
            0real,
        ) - equilibrium_real(
            weight_real(d2q9::OPPOSITE[i] as int),
            velocity_real(d2q9::OPPOSITE[i] as int, 0),
            velocity_real(d2q9::OPPOSITE[i] as int, 1),
            v(cavity_moments(l.f, l.cells(), c).0),
            v(u_lid),
            0real,
        )),
{
    lemma_direction_images(v, i);
    reveal(real_model);
    let r = cavity_moments(l.f, l.cells(), c).0;
    lemma_ladd_real(weight_real(i), v(r), velocity_real(i, 0), velocity_real(i, 1), v(u_lid));
}

/// In the cavity a population is reflected with the moving-wall correction
/// only when it leaves through the top of the grid while staying between
/// the side walls; a population that stays inside the grid streams to the
/// neighbouring cell, and every other reflection (side walls, bottom) is
/// plain bounce-back into the opposite direction.
pub proof fn lemma_cavity_corrects_only_at_the_lid(x: int, y: int, i: int, nx: int, ny: int)
    requires
        0 <= i < d2q9::Q,
        0 <= x < nx,
        0 <= y < ny,
    ensures
        (cavity_route_spec(x, y, i, nx, ny) is MovingWall) ==> y + d2q9::E[i][1] >= ny && 0 <= x
            + d2q9::E[i][0] < nx,
        0 <= x + d2q9::E[i][0] < nx && 0 <= y + d2q9::E[i][1] < ny ==> cavity_route_spec(x, y, i, nx, ny)
            == (Route::Stream { cell: ((y + d2q9::E[i][1]) * nx + x + d2q9::E[i][0]) as usize }),
        (x + d2q9::E[i][0] < 0 || x + d2q9::E[i][0] >= nx || y + d2q9::E[i][1] < 0) ==> cavity_route_spec(
            x,
            y,
            i,
            nx,
            ny,
        ) == (Route::BounceBack { dir: d2q9::OPPOSITE[i] }),
{
}

} // verus!
