//! 2D lattice Boltzmann solver (D2Q9, BGK) for the lid-driven cavity.
//!
//! The cavity has half-way bounce-back walls on the left, right and bottom
//! and a lid moving along `x` at the top.  Distributions are stored as
//! `f[i * nx * ny + y * nx + x]`.
use crate::math_core::precision::{
    diff, exact_arith, less, lit, literal, prod, quot, sum, total_ops, FloatPrecision,
};
use crate::solvers::lbm::d2q9;
use crate::solvers::lbm::{filled, Route};
use vstd::arithmetic::div_mod::{
    lemma_fundamental_div_mod, lemma_fundamental_div_mod_converse, lemma_mod_pos_bound,
};
use vstd::prelude::*;

verus! {

/// Route of direction `i` from cell `(x, y)` of the `nx × ny` cavity.
///
/// A population leaving through the left or right wall or through the
/// bottom is bounced back.  One leaving through the lid is bounced back
/// with the moving-wall correction, except the diagonal that enters the lid
/// at a top corner (`x = 0` moving right, `x = nx - 1` moving left), which
/// is bounced back plainly so that both corners are treated alike.
pub open spec fn cavity_route_spec(x: int, y: int, i: int, nx: int, ny: int) -> Route {
    let ex = d2q9::E[i][0] as int;
    let xn = x + ex;
    let yn = y + d2q9::E[i][1] as int;
    if xn < 0 || xn >= nx {
        Route::BounceBack { dir: d2q9::OPPOSITE[i] }
    } else if yn < 0 {
        Route::BounceBack { dir: d2q9::OPPOSITE[i] }
    } else if yn >= ny {
        if (x == 0 && ex == 1) || (x == nx - 1 && ex == -1) {
            Route::BounceBack { dir: d2q9::OPPOSITE[i] }
        } else {
            Route::MovingWall { dir: d2q9::OPPOSITE[i] }
        }
    } else {
        Route::Stream { cell: (yn * nx + xn) as usize }
    }
}

/// Velocity table of D2Q9, entry by entry.
proof fn lemma_d2q9_table(i: int)
    requires
        0 <= i < d2q9::Q,
    ensures
        -1 <= d2q9::E[i][0] <= 1,
        -1 <= d2q9::E[i][1] <= 1,
        d2q9::OPPOSITE[i] < d2q9::Q,
{
    if i == 0 {
    } else if i == 1 {
    } else if i == 2 {
    } else if i == 3 {
    } else if i == 4 {
    } else if i == 5 {
    } else if i == 6 {
    } else if i == 7 {
    } else if i == 8 {
    }
}

/// Where direction `i` of cell `(x, y)` streams in the lid-driven cavity.
pub fn cavity_route(x: usize, y: usize, i: usize, nx: usize, ny: usize) -> (r: Route)
    requires
        x < nx,
        y < ny,
        i < d2q9::Q,
        nx * ny <= usize::MAX,
    ensures
        r == cavity_route_spec(x as int, y as int, i as int, nx as int, ny as int),
        r matches Route::Stream { cell } ==> cell < nx * ny,
        r matches Route::BounceBack { dir } ==> dir < d2q9::Q,
        r matches Route::MovingWall { dir } ==> dir < d2q9::Q,
{
    proof {
        lemma_d2q9_table(i as int);
    }
    let ex = d2q9::E[i][0];
    let ey = d2q9::E[i][1];
    let opp = d2q9::OPPOSITE[i];
    if (ex < 0 && x == 0) || (ex > 0 && x + 1 == nx) {
        Route::BounceBack { dir: opp }
    } else if ey < 0 && y == 0 {
        Route::BounceBack { dir: opp }
    } else if ey > 0 && y + 1 == ny {
        if (x == 0 && ex == 1) || (x == nx - 1 && ex == -1) {
            Route::BounceBack { dir: opp }
        } else {
            Route::MovingWall { dir: opp }
        }
    } else {
        let xn: usize = if ex > 0 {
            x + 1
        } else if ex < 0 {
            x - 1
        } else {
            x
        };
        let yn: usize = if ey > 0 {
            y + 1
        } else if ey < 0 {
            y - 1
        } else {
            y
        };
        assert(yn * nx + xn < nx * ny) by (nonlinear_arith)
            requires
                xn < nx,
                yn < ny,
        ;
        Route::Stream { cell: yn * nx + xn }
    }
}

} // verus!

verus! {

/// The slot `(direction, cell)` where a population of direction `i`
/// leaving cell `c` lands when it follows route `r`.
pub open spec fn cavity_slot(c: int, i: int, r: Route) -> (int, int) {
    match r {
        Route::Stream { cell } => (i, cell as int),
        Route::BounceBack { dir } => (dir as int, c),
        Route::MovingWall { dir } => (dir as int, c),
    }
}

/// In the lid-driven cavity, two different (cell, direction) pairs never
/// land in the same slot: streaming, wall bounce-back and lid bounce-back
/// together rearrange the post-collision populations, one per slot.
pub proof fn lemma_cavity_streaming_injective(
    x1: int, y1: int, i1: int,
    x2: int, y2: int, i2: int,
    nx: int, ny: int,
)
    requires
        0 <= x1 < nx, 0 <= y1 < ny, 0 <= i1 < d2q9::Q,
        0 <= x2 < nx, 0 <= y2 < ny, 0 <= i2 < d2q9::Q,
        nx * ny <= usize::MAX,
        (x1, y1, i1) != (x2, y2, i2),
    ensures
        cavity_slot(y1 * nx + x1, i1, cavity_route_spec(x1, y1, i1, nx, ny))
            != cavity_slot(y2 * nx + x2, i2, cavity_route_spec(x2, y2, i2, nx, ny)),
{
    lemma_d2q9_table(i1);
    lemma_d2q9_table(i2);
    d2q9::lemma_opposite_involution(i1);
    d2q9::lemma_opposite_involution(i2);
    d2q9::lemma_opposite_negates(i1);
    d2q9::lemma_opposite_negates(i2);
    let r1 = cavity_route_spec(x1, y1, i1, nx, ny);
    let r2 = cavity_route_spec(x2, y2, i2, nx, ny);
    let xa = x1 + d2q9::E[i1][0] as int;
    let ya = y1 + d2q9::E[i1][1] as int;
    let xb = x2 + d2q9::E[i2][0] as int;
    let yb = y2 + d2q9::E[i2][1] as int;
    if cavity_slot(y1 * nx + x1, i1, r1) == cavity_slot(y2 * nx + x2, i2, r2) {
        if r1 is Stream && r2 is Stream {
            assert(0 <= xa < nx && 0 <= ya < ny && 0 <= xb < nx && 0 <= yb < ny);
            assert(ya * nx + xa < nx * ny) by (nonlinear_arith)
                requires 0 <= xa < nx, 0 <= ya < ny;
            assert(yb * nx + xb < nx * ny) by (nonlinear_arith)
                requires 0 <= xb < nx, 0 <= yb < ny;
            assert(ya == yb && xa == xb) by (nonlinear_arith)
                requires 0 <= xa < nx, 0 <= xb < nx, 0 <= ya, 0 <= yb, ya * nx + xa == yb * nx + xb;
            assert(i1 == i2);
        } else if !(r1 is Stream) && !(r2 is Stream) {
            assert(y1 == y2 && x1 == x2) by (nonlinear_arith)
                requires 0 <= x1 < nx, 0 <= x2 < nx, 0 <= y1, 0 <= y2, y1 * nx + x1 == y2 * nx + x2;
            assert(i1 == i2);
        } else if r1 is Stream {
            assert(ya * nx + xa < nx * ny) by (nonlinear_arith)
                requires 0 <= xa < nx, 0 <= ya < ny;
            assert(ya == y2 && xa == x2) by (nonlinear_arith)
                requires 0 <= xa < nx, 0 <= x2 < nx, 0 <= ya, 0 <= y2, ya * nx + xa == y2 * nx + x2;
            assert(i2 == d2q9::OPPOSITE[i1] as int);
            assert(xb == x1 && yb == y1);
            assert(false);
        } else {
            assert(yb * nx + xb < nx * ny) by (nonlinear_arith)
                requires 0 <= xb < nx, 0 <= yb < ny;
            assert(yb == y1 && xb == x1) by (nonlinear_arith)
                requires 0 <= xb < nx, 0 <= x1 < nx, 0 <= yb, 0 <= y1, yb * nx + xb == y1 * nx + x1;
            assert(i1 == d2q9::OPPOSITE[i2] as int);
            assert(xa == x2 && ya == y2);
            assert(false);
        }
    }
}

} // verus!

verus! {

/// The D2Q9 weight of direction `i` as a scalar: `W_NUMERATOR[i] / 36`.
pub open spec fn cavity_weight<T: FloatPrecision>(i: int) -> T {
    quot(lit::<T>(d2q9::W_NUMERATOR[i] as i8), lit::<T>(36))
}

/// Component `a` of lattice velocity `e_i`, as a scalar.
pub open spec fn cavity_velocity<T: FloatPrecision>(i: int, a: int) -> T {
    lit::<T>(d2q9::E[i][a] as i8)
}

/// The populations at rest with unit density: `f_i = w_i` in every cell.
pub open spec fn cavity_rest<T: FloatPrecision>(n: int) -> Seq<T> {
    Seq::new((d2q9::Q * n) as nat, |k: int| cavity_weight::<T>(k / n))
}

/// What a cavity step reads: the grid, the populations and `ω`.
pub struct CavityView<T> {
    pub nx: nat,
    pub ny: nat,
    pub f: Seq<T>,
    pub omega: T,
}

impl<T> CavityView<T> {
    /// Number of cells.
    pub open spec fn cells(self) -> int {
        (self.nx * self.ny) as int
    }
}

/// `(Σ f_j, Σ e_jx f_j, Σ e_jy f_j)` over the first `k` directions of cell
/// `c`, accumulated in direction order from zero.
pub open spec fn cavity_sums<T: FloatPrecision>(f: Seq<T>, n: int, c: int, k: int) -> (T, T, T)
    decreases k,
{
    if k <= 0 {
        (lit::<T>(0), lit::<T>(0), lit::<T>(0))
    } else {
        let m = cavity_sums(f, n, c, k - 1);
        let fj = f[(k - 1) * n + c];
        (
            sum(m.0, fj),
            sum(m.1, prod(cavity_velocity::<T>(k - 1, 0), fj)),
            sum(m.2, prod(cavity_velocity::<T>(k - 1, 1), fj)),
        )
    }
}

/// Density and velocity `(ρ, m_x/ρ, m_y/ρ)` of cell `c`; the momentum is
/// left undivided where the density is not positive.
pub open spec fn cavity_moments<T: FloatPrecision>(f: Seq<T>, n: int, c: int) -> (T, T, T) {
    let m = cavity_sums(f, n, c, d2q9::Q as int);
    if less(lit::<T>(0), m.0) {
        (m.0, quot(m.1, m.0), quot(m.2, m.0))
    } else {
        m
    }
}

/// Post-collision population of direction `i` at cell `c`:
/// `f_i - ω (f_i - w ρ (1 + 3 e·u + 9/2 (e·u)² - 3/2 u²))`.
pub open spec fn cavity_post<T: FloatPrecision>(l: CavityView<T>, c: int, i: int) -> T {
    let n = l.cells();
    let m = cavity_moments(l.f, n, c);
    let d = sum(prod(cavity_velocity::<T>(i, 0), m.1), prod(cavity_velocity::<T>(i, 1), m.2));
    let usq = sum(prod(m.1, m.1), prod(m.2, m.2));
    let feq = prod(
        prod(cavity_weight::<T>(i), m.0),
        diff(
            sum(sum(lit::<T>(1), prod(d, lit::<T>(3))), prod(prod(d, d), quot(lit::<T>(9), lit::<T>(2)))),
            prod(usq, quot(lit::<T>(3), lit::<T>(2))),
        ),
    );
    let fi = l.f[i * n + c];
    diff(fi, prod(l.omega, diff(fi, feq)))
}

/// Route of direction `i` from cell `c = y * nx + x`.
pub open spec fn cavity_route_at<T>(l: CavityView<T>, c: int, i: int) -> Route {
    cavity_route_spec(c % (l.nx as int), c / (l.nx as int), i, l.nx as int, l.ny as int)
}

/// Value added for direction `i` of cell `c`: the post-collision population,
/// less `2 w ρ e_x u_lid / cs²` where it bounces off the moving lid.
pub open spec fn cavity_deposit_value<T: FloatPrecision>(l: CavityView<T>, u_lid: T, c: int, i: int) -> T {
    let p = cavity_post(l, c, i);
    if cavity_route_at(l, c, i) is MovingWall {
        let r = cavity_moments(l.f, l.cells(), c).0;
        diff(
            p,
            prod(prod(prod(prod(prod(lit::<T>(2), cavity_weight::<T>(i)), r), cavity_velocity::<T>(i, 0)), u_lid), lit::<T>(3)),
        )
    } else {
        p
    }
}

/// Flat slot where direction `i` of cell `c` lands.
pub open spec fn cavity_deposit_slot<T>(l: CavityView<T>, c: int, i: int) -> int {
    let s = cavity_slot(c, i, cavity_route_at(l, c, i));
    s.0 * l.cells() + s.1
}

/// `buf` after adding the first `j` directions of cell `c`.
pub open spec fn cavity_deposit_directions<T: FloatPrecision>(
    l: CavityView<T>,
    u_lid: T,
    buf: Seq<T>,
    c: int,
    j: int,
) -> Seq<T>
    decreases j,
{
    if j <= 0 {
        buf
    } else {
        let prev = cavity_deposit_directions(l, u_lid, buf, c, j - 1);
        let s = cavity_deposit_slot(l, c, j - 1);
        prev.update(s, sum(prev[s], cavity_deposit_value(l, u_lid, c, j - 1)))
    }
}

/// `buf` after adding every direction of the first `k` cells.
pub open spec fn cavity_deposit_cells<T: FloatPrecision>(l: CavityView<T>, u_lid: T, buf: Seq<T>, k: int) -> Seq<T>
    decreases k,
{
    if k <= 0 {
        buf
    } else {
        cavity_deposit_directions(l, u_lid, cavity_deposit_cells(l, u_lid, buf, k - 1), k - 1, d2q9::Q as int)
    }
}

/// The populations after a cavity step with lid speed `u_lid`.
pub open spec fn cavity_populations_after<T: FloatPrecision>(l: CavityView<T>, u_lid: T) -> Seq<T> {
    cavity_deposit_cells(l, u_lid, filled((d2q9::Q * l.cells()) as nat, lit::<T>(0)), l.cells())
}

/// `3ν + 1/2`: the relaxation time for kinematic viscosity `ν`.
pub open spec fn cavity_relaxation_time<T: FloatPrecision>(nu: T) -> T {
    sum(prod(lit::<T>(3), nu), quot(lit::<T>(1), lit::<T>(2)))
}

/// `0 + s[0] + ... + s[k-1]`, summed left to right.
pub open spec fn running_sum<T: FloatPrecision>(s: Seq<T>, k: int) -> T
    decreases k,
{
    if k <= 0 {
        lit::<T>(0)
    } else {
        sum(running_sum(s, k - 1), s[k - 1])
    }
}

/// `½ ρ (ux² + uy²)` of cell `c`.
pub open spec fn cell_kinetic_energy<T: FloatPrecision>(rho: Seq<T>, ux: Seq<T>, uy: Seq<T>, c: int) -> T {
    prod(prod(quot(lit::<T>(1), lit::<T>(2)), rho[c]), sum(prod(ux[c], ux[c]), prod(uy[c], uy[c])))
}

/// `Σ ½ ρ (ux² + uy²)` over the first `k` cells, summed left to right.
pub open spec fn kinetic_energy_sum<T: FloatPrecision>(rho: Seq<T>, ux: Seq<T>, uy: Seq<T>, k: int) -> T
    decreases k,
{
    if k <= 0 {
        lit::<T>(0)
    } else {
        sum(kinetic_energy_sum(rho, ux, uy, k - 1), cell_kinetic_energy(rho, ux, uy, k - 1))
    }
}

/// 2D lattice Boltzmann solver (D2Q9, BGK, lid-driven cavity).
pub struct LbmSolver2D<T> {
    /// Grid width (lattice units, including the wall nodes).
    pub nx: usize,
    /// Grid height (lattice units, including the wall nodes).
    pub ny: usize,
    omega: T,
    f: Vec<T>,
    f_tmp: Vec<T>,
    /// Density per cell `[y * nx + x]`.
    pub rho: Vec<T>,
    /// x-velocity per cell.
    pub ux: Vec<T>,
    /// y-velocity per cell.
    pub uy: Vec<T>,
    /// Completed steps.
    pub timestep: u64,
}

impl<T: FloatPrecision> LbmSolver2D<T> {
    /// Grid width.
    pub closed spec fn width(&self) -> nat {
        self.nx as nat
    }

    /// Grid height.
    pub closed spec fn height(&self) -> nat {
        self.ny as nat
    }

    /// The populations, direction-major.
    pub closed spec fn populations(&self) -> Seq<T> {
        self.f@
    }

    /// The spare population buffer (the populations before the last step).
    pub closed spec fn spare(&self) -> Seq<T> {
        self.f_tmp@
    }

    /// Relaxation frequency `ω`.
    pub closed spec fn omega_value(&self) -> T {
        self.omega
    }

    /// Density per cell.
    pub closed spec fn density_field(&self) -> Seq<T> {
        self.rho@
    }

    /// Velocity components per cell.
    pub closed spec fn velocity_field(&self) -> (Seq<T>, Seq<T>) {
        (self.ux@, self.uy@)
    }

    /// Completed steps.
    pub closed spec fn step_count(&self) -> u64 {
        self.timestep
    }

    /// Number of cells `nx * ny`.
    pub open spec fn cells(&self) -> int {
        (self.width() * self.height()) as int
    }

    /// What a step reads.
    pub open spec fn view_2d(&self) -> CavityView<T> {
        CavityView { nx: self.width(), ny: self.height(), f: self.populations(), omega: self.omega_value() }
    }

    /// Every buffer has its full size.
    pub closed spec fn wf(&self) -> bool {
        &&& d2q9::Q * self.nx * self.ny <= usize::MAX
        &&& self.f@.len() == d2q9::Q * self.nx * self.ny
        &&& self.f_tmp@.len() == d2q9::Q * self.nx * self.ny
        &&& self.rho@.len() == self.nx * self.ny
        &&& self.ux@.len() == self.nx * self.ny
        &&& self.uy@.len() == self.nx * self.ny
    }

    /// A well-formed solver holds `Q` populations per cell in each buffer and
    /// one density and velocity per cell.
    pub proof fn lemma_sizes(&self)
        requires
            self.wf(),
        ensures
            d2q9::Q * self.cells() <= usize::MAX,
            self.cells() <= usize::MAX,
            self.populations().len() == d2q9::Q * self.cells(),
            self.spare().len() == d2q9::Q * self.cells(),
            self.density_field().len() == self.cells(),
            self.velocity_field().0.len() == self.cells(),
            self.velocity_field().1.len() == self.cells(),
    {
        assert(d2q9::Q * self.nx * self.ny == d2q9::Q * (self.nx * self.ny)) by (nonlinear_arith);
    }

    /// A solver at rest (`f_i = w_i`, unit density, zero velocity) for an
    /// `nx × ny` lattice with kinematic viscosity `ν`: `τ = 3ν + 1/2`,
    /// `ω = 1/τ`.  It is ready to step.
    pub fn new(nx: usize, ny: usize, nu: T) -> (r: Self)
        requires
            d2q9::Q * nx * ny <= usize::MAX,
            total_ops::<T>(),
        ensures
            r.wf(),
            r.width() == nx,
            r.height() == ny,
            r.step_count() == 0,
            exact_arith::<T>() ==> r.omega_value() == quot(lit::<T>(1), cavity_relaxation_time(nu)),
            exact_arith::<T>() ==> r.populations() == cavity_rest::<T>(nx * ny),
            exact_arith::<T>() ==> r.spare() == filled((d2q9::Q * nx * ny) as nat, lit::<T>(0)),
            exact_arith::<T>() ==> r.density_field() == filled((nx * ny) as nat, lit::<T>(1)),
            exact_arith::<T>() ==> r.velocity_field() == (
                filled((nx * ny) as nat, lit::<T>(0)),
                filled((nx * ny) as nat, lit::<T>(0)),
            ),
    {
        proof {
            assert(nx * ny <= usize::MAX && d2q9::Q * (nx * ny) == d2q9::Q * nx * ny) by (nonlinear_arith)
                requires
                    d2q9::Q * nx * ny <= usize::MAX,
            ;
        }
        let tau = literal::<T>(3) * nu + literal::<T>(1) / literal::<T>(2);
        let omega = literal::<T>(1) / tau;
        let n = nx * ny;
        let ghost gn = n as int;
        let mut f: Vec<T> = Vec::new();
        let mut i: usize = 0;
        while i < d2q9::Q
            invariant
                total_ops::<T>(),
                i <= d2q9::Q,
                d2q9::Q * n <= usize::MAX,
                n == gn,
                f@.len() == i * gn,
                exact_arith::<T>() ==> f@ =~= cavity_rest::<T>(gn).take(i * gn),
            decreases d2q9::Q - i,
        {
            proof {
                assert(i * n + n <= d2q9::Q * n) by (nonlinear_arith)
                    requires
                        i < d2q9::Q,
                        0 <= n,
                ;
            }
            let w = literal::<T>(d2q9::W_NUMERATOR[i] as i8) / literal::<T>(36);
            let mut cell: usize = 0;
            while cell < n
                invariant
                    i < d2q9::Q,
                    cell <= n,
                    n == gn,
                    i * n + n <= d2q9::Q * n,
                    exact_arith::<T>() ==> w == cavity_weight::<T>(i as int),
                    f@.len() == i * gn + cell,
                    exact_arith::<T>() ==> f@ =~= cavity_rest::<T>(gn).take(i * gn + cell),
                decreases n - cell,
            {
                proof {
                    let k = i * gn + cell;
                    assert(k / gn == i) by (nonlinear_arith)
                        requires
                            k == i * gn + cell,
                            0 <= cell < gn,
                            0 <= i,
                    ;
                }
                f.push(w);
                cell = cell + 1;
                proof {
                    if exact_arith::<T>() {
                        assert(f@ =~= cavity_rest::<T>(gn).take(i * gn + cell));
                    }
                }
            }
            i = i + 1;
            assert((i - 1) * gn + gn == i * gn) by (nonlinear_arith);
        }
        proof {
            if exact_arith::<T>() {
                assert(f@ =~= cavity_rest::<T>(gn));
            }
        }
        LbmSolver2D {
            nx,
            ny,
            omega,
            f,
            f_tmp: filled_copies(d2q9::Q * n, literal(0)),
            rho: filled_copies(n, literal(1)),
            ux: filled_copies(n, literal(0)),
            uy: filled_copies(n, literal(0)),
            timestep: 0,
        }
    }
}

/// A vector of `n` copies of `v`.
fn filled_copies<A: Copy>(n: usize, v: A) -> (r: Vec<A>)
    ensures
        r@ == filled(n as nat, v),
{
    let mut r: Vec<A> = Vec::new();
    let mut k: usize = 0;
    while k < n
        invariant
            k <= n,
            r@ == filled(k as nat, v),
        decreases n - k,
    {
        r.push(v);
        k = k + 1;
        assert(r@ =~= filled(k as nat, v));
    }
    r
}

} // verus!

verus! {

/// The density field a cavity step records.
pub open spec fn cavity_density_after<T: FloatPrecision>(l: CavityView<T>) -> Seq<T> {
    Seq::new(l.cells() as nat, |c: int| cavity_moments(l.f, l.cells(), c).0)
}

/// The velocity field a cavity step records.
pub open spec fn cavity_velocity_after<T: FloatPrecision>(l: CavityView<T>) -> (Seq<T>, Seq<T>) {
    (
        Seq::new(l.cells() as nat, |c: int| cavity_moments(l.f, l.cells(), c).1),
        Seq::new(l.cells() as nat, |c: int| cavity_moments(l.f, l.cells(), c).2),
    )
}

impl<T: FloatPrecision> LbmSolver2D<T> {
    /// Density and velocity of cell `c` from its populations.
    fn moments_at(&self, c: usize) -> (r: (T, T, T))
        requires
            self.wf(),
            c < self.cells(),
            total_ops::<T>(),
        ensures
            exact_arith::<T>() ==> r == cavity_moments(self.populations(), self.cells(), c as int),
    {
        proof {
            self.lemma_sizes();
        }
        let n = self.nx * self.ny;
        let zero = literal::<T>(0);
        let mut rho = zero;
        let mut mx = zero;
        let mut my = zero;
        let mut i: usize = 0;
        while i < d2q9::Q
            invariant
                self.wf(),
                n == self.cells(),
                c < n,
                d2q9::Q * n <= usize::MAX,
                self.populations().len() == d2q9::Q * n,
                total_ops::<T>(),
                i <= d2q9::Q,
                exact_arith::<T>() ==> zero == lit::<T>(0),
                exact_arith::<T>() ==> (rho, mx, my) == cavity_sums(self.populations(), n as int, c as int, i as int),
            decreases d2q9::Q - i,
        {
            proof {
                assert(i * n + c < d2q9::Q * n) by (nonlinear_arith)
                    requires
                        i < d2q9::Q,
                        c < n,
                ;
            }
            let fi = self.f[i * n + c];
            rho = rho + fi;
            mx = mx + literal::<T>(d2q9::E[i][0] as i8) * fi;
            my = my + literal::<T>(d2q9::E[i][1] as i8) * fi;
            i = i + 1;
        }
        if zero < rho {
            (rho, mx / rho, my / rho)
        } else {
            (rho, mx, my)
        }
    }

    /// Post-collision population of direction `i` at cell `c`, from the
    /// cell's moments `m` and the constants `k = (9/2, 3/2)`.
    fn post_value(&self, c: usize, i: usize, m: (T, T, T), k: (T, T)) -> (r: T)
        requires
            self.wf(),
            c < self.cells(),
            i < d2q9::Q,
            total_ops::<T>(),
            exact_arith::<T>() ==> m == cavity_moments(self.populations(), self.cells(), c as int),
            exact_arith::<T>() ==> k == (quot(lit::<T>(9), lit::<T>(2)), quot(lit::<T>(3), lit::<T>(2))),
        ensures
            exact_arith::<T>() ==> r == cavity_post(self.view_2d(), c as int, i as int),
    {
        proof {
            self.lemma_sizes();
        }
        let n = self.nx * self.ny;
        proof {
            assert(i * n + c < d2q9::Q * n) by (nonlinear_arith)
                requires
                    i < d2q9::Q,
                    c < n,
            ;
        }
        let ex = literal::<T>(d2q9::E[i][0] as i8);
        let ey = literal::<T>(d2q9::E[i][1] as i8);
        let w = literal::<T>(d2q9::W_NUMERATOR[i] as i8) / literal::<T>(36);
        let d = ex * m.1 + ey * m.2;
        let usq = m.1 * m.1 + m.2 * m.2;
        let feq = w * m.0 * (literal::<T>(1) + d * literal::<T>(3) + d * d * k.0 - usq * k.1);
        let fi = self.f[i * n + c];
        fi - self.omega * (fi - feq)
    }

    /// One BGK collision and streaming step with the lid moving at `u_lid`:
    /// half-way bounce-back at the left, right and bottom walls, moving-wall
    /// bounce-back (less `2 w ρ e_x u_lid / cs²`) at the lid, plain
    /// bounce-back for the diagonals entering the lid at a top corner.  The
    /// density and velocity of every cell are recorded, and the previous
    /// populations are kept in the spare buffer.
    pub fn step(&mut self, u_lid: T)
        requires
            old(self).wf(),
            total_ops::<T>(),
            old(self).step_count() < u64::MAX,
        ensures
            final(self).wf(),
            final(self).width() == old(self).width(),
            final(self).height() == old(self).height(),
            final(self).omega_value() == old(self).omega_value(),
            final(self).step_count() == old(self).step_count() + 1,
            final(self).spare() == old(self).populations(),
            final(self).populations().len() == old(self).populations().len(),
            exact_arith::<T>() ==> final(self).populations() == cavity_populations_after(old(self).view_2d(), u_lid),
            exact_arith::<T>() ==> final(self).density_field() == cavity_density_after(old(self).view_2d()),
            exact_arith::<T>() ==> final(self).velocity_field() == cavity_velocity_after(old(self).view_2d()),
    {
        proof {
            self.lemma_sizes();
        }
        let ghost l = self.view_2d();
        let nx = self.nx;
        let ny = self.ny;
        let n = nx * ny;
        let ghost zeros = filled((d2q9::Q * l.cells()) as nat, lit::<T>(0));
        // clear the streaming buffer
        let mut out: Vec<T> = Vec::new();
        std::mem::swap(&mut out, &mut self.f_tmp);
        let len = out.len();
        let zero = literal::<T>(0);
        let mut k: usize = 0;
        while k < len
            invariant
                k <= len,
                len == out@.len(),
                exact_arith::<T>() ==> zero == lit::<T>(0),
                exact_arith::<T>() ==> forall|j: int| 0 <= j < k ==> out@[j] == lit::<T>(0),
            decreases len - k,
        {
            out.set(k, zero);
            k = k + 1;
        }
        proof {
            if exact_arith::<T>() {
                assert(out@ =~= zeros);
            }
        }
        self.f_tmp = out;
        let consts = (literal::<T>(9) / literal::<T>(2), literal::<T>(3) / literal::<T>(2));
        let three = literal::<T>(3);
        let two = literal::<T>(2);
        proof {
            assert(0 < n ==> 0 < nx && 0 < ny) by (nonlinear_arith)
                requires
                    n == nx * ny,
            ;
        }
        let mut c: usize = 0;
        let mut x: usize = 0;
        let mut y: usize = 0;
        while c < n
            invariant
                self.wf(),
                total_ops::<T>(),
                self.view_2d() == l,
                self.nx == nx,
                self.ny == ny,
                self.step_count() == old(self).step_count(),
                n == nx * ny,
                n == l.cells(),
                d2q9::Q * n <= usize::MAX,
                self.spare().len() == d2q9::Q * n,
                self.density_field().len() == n,
                self.velocity_field().0.len() == n,
                self.velocity_field().1.len() == n,
                c <= n,
                c < n ==> x < nx && y < ny,
                c == y * nx + x,
                exact_arith::<T>() ==> consts == (quot(lit::<T>(9), lit::<T>(2)), quot(lit::<T>(3), lit::<T>(2))),
                exact_arith::<T>() ==> three == lit::<T>(3) && two == lit::<T>(2),
                exact_arith::<T>() ==> self.spare() == cavity_deposit_cells(l, u_lid, zeros, c as int),
                exact_arith::<T>() ==> forall|j: int|
                    0 <= j < c ==> #[trigger] self.density_field()[j] == cavity_density_after(l)[j],
                exact_arith::<T>() ==> forall|j: int|
                    0 <= j < c ==> #[trigger] self.velocity_field().0[j] == cavity_velocity_after(l).0[j],
                exact_arith::<T>() ==> forall|j: int|
                    0 <= j < c ==> #[trigger] self.velocity_field().1[j] == cavity_velocity_after(l).1[j],
            decreases n - c,
        {
            proof {
                lemma_fundamental_div_mod_converse(c as int, nx as int, y as int, x as int);
            }
            let m = self.moments_at(c);
            self.rho.set(c, m.0);
            self.ux.set(c, m.1);
            self.uy.set(c, m.2);
            let ghost base = cavity_deposit_cells(l, u_lid, zeros, c as int);
            let ghost dens = self.density_field();
            let ghost vel = self.velocity_field();
            let mut i: usize = 0;
            while i < d2q9::Q
                invariant
                    self.wf(),
                    total_ops::<T>(),
                    self.view_2d() == l,
                    self.nx == nx,
                    self.ny == ny,
                    n == nx * ny,
                    n == l.cells(),
                    d2q9::Q * n <= usize::MAX,
                    self.spare().len() == d2q9::Q * n,
                    c < n,
                    x < nx && y < ny,
                    (c as int) % (nx as int) == x && (c as int) / (nx as int) == y,
                    i <= d2q9::Q,
                    exact_arith::<T>() ==> consts == (quot(lit::<T>(9), lit::<T>(2)), quot(lit::<T>(3), lit::<T>(2))),
                    exact_arith::<T>() ==> three == lit::<T>(3) && two == lit::<T>(2),
                    exact_arith::<T>() ==> m == cavity_moments(l.f, n as int, c as int),
                    exact_arith::<T>() ==> self.spare() == cavity_deposit_directions(l, u_lid, base, c as int, i as int),
                    self.density_field() == dens,
                    self.velocity_field() == vel,
                    self.step_count() == old(self).step_count(),
                decreases d2q9::Q - i,
            {
                let p = self.post_value(c, i, m, consts);
                let (dir, cell, value) = match cavity_route(x, y, i, nx, ny) {
                    Route::Stream { cell } => (i, cell, p),
                    Route::BounceBack { dir } => (dir, c, p),
                    Route::MovingWall { dir } => {
                        let w = literal::<T>(d2q9::W_NUMERATOR[i] as i8) / literal::<T>(36);
                        let ex = literal::<T>(d2q9::E[i][0] as i8);
                        (dir, c, p - two * w * m.0 * ex * u_lid * three)
                    },
                };
                proof {
                    assert(dir * n + cell < d2q9::Q * n) by (nonlinear_arith)
                        requires
                            dir < d2q9::Q,
                            cell < n,
                    ;
                }
                let slot = dir * n + cell;
                let cur = self.f_tmp[slot];
                self.f_tmp.set(slot, cur + value);
                i = i + 1;
            }
            proof {
                assert(nx * (y + 1) == nx * y + nx) by (nonlinear_arith);
                assert((y + 1) * nx == y * nx + nx) by (nonlinear_arith);
                if x + 1 == nx && c + 1 < n {
                    assert(y + 1 < ny) by (nonlinear_arith)
                        requires
                            c + 1 == (y + 1) * nx,
                            c + 1 < nx * ny,
                            0 < nx,
                    ;
                }
            }
            c = c + 1;
            x = x + 1;
            if x == nx {
                x = 0;
                y = y + 1;
            }
        }
        proof {
            if exact_arith::<T>() {
                assert(self.density_field() =~= cavity_density_after(l));
                assert(self.velocity_field().0 =~= cavity_velocity_after(l).0);
                assert(self.velocity_field().1 =~= cavity_velocity_after(l).1);
            }
        }
        std::mem::swap(&mut self.f, &mut self.f_tmp);
        self.timestep = self.timestep + 1;
    }
}

} // verus!

verus! {

impl<T: FloatPrecision> LbmSolver2D<T> {
    /// Sum of all cell densities, added in cell order from zero.
    pub fn total_density(&self) -> (r: T)
        requires
            self.wf(),
            total_ops::<T>(),
        ensures
            exact_arith::<T>() ==> r == running_sum(self.density_field(), self.cells()),
    {
        proof {
            self.lemma_sizes();
        }
        let mut acc = literal::<T>(0);
        let mut k: usize = 0;
        while k < self.rho.len()
            invariant
                total_ops::<T>(),
                k <= self.rho@.len(),
                self.rho@ == self.density_field(),
                exact_arith::<T>() ==> acc == running_sum(self.density_field(), k as int),
            decreases self.rho@.len() - k,
        {
            acc = acc + self.rho[k];
            k = k + 1;
        }
        acc
    }

    /// Total kinetic energy `Σ ½ ρ (ux² + uy²)`, added in cell order from zero.
    pub fn total_kinetic_energy(&self) -> (r: T)
        requires
            self.wf(),
            total_ops::<T>(),
        ensures
            exact_arith::<T>() ==> r == kinetic_energy_sum(
                self.density_field(),
                self.velocity_field().0,
                self.velocity_field().1,
                self.cells(),
            ),
    {
        proof {
            self.lemma_sizes();
        }
        let n = self.nx * self.ny;
        let half = literal::<T>(1) / literal::<T>(2);
        let mut acc = literal::<T>(0);
        let mut k: usize = 0;
        while k < n
            invariant
                total_ops::<T>(),
                k <= n,
                n == self.cells(),
                self.rho@.len() == n,
                self.ux@.len() == n,
                self.uy@.len() == n,
                self.rho@ == self.density_field(),
                (self.ux@, self.uy@) == self.velocity_field(),
                exact_arith::<T>() ==> half == quot(lit::<T>(1), lit::<T>(2)),
                exact_arith::<T>() ==> acc == kinetic_energy_sum(self.rho@, self.ux@, self.uy@, k as int),
            decreases n - k,
        {
            let e = half * self.rho[k] * (self.ux[k] * self.ux[k] + self.uy[k] * self.uy[k]);
            acc = acc + e;
            k = k + 1;
        }
        acc
    }

    /// x-velocity along the vertical centreline `x = nx / 2`, bottom to top.
    pub fn centerline_u(&self) -> (r: Vec<T>)
        requires
            self.wf(),
            self.width() > 0 || self.height() == 0,
        ensures
            r@ == Seq::new(self.height(), |y: int| self.velocity_field().0[y * self.width() + self.width() / 2]),
    {
        proof {
            self.lemma_sizes();
        }
        let x = self.nx / 2;
        let mut out: Vec<T> = Vec::new();
        let mut y: usize = 0;
        while y < self.ny
            invariant
                y <= self.ny,
                self.nx > 0 || self.ny == 0,
                x == self.nx / 2,
                self.ux@.len() == self.nx * self.ny,
                self.nx * self.ny <= usize::MAX,
                self.ux@ == self.velocity_field().0,
                self.nx == self.width(),
                self.ny == self.height(),
                out@ =~= Seq::new(y as nat, |j: int| self.velocity_field().0[j * self.width() + self.width() / 2]),
            decreases self.ny - y,
        {
            assert(y * self.nx + x < self.nx * self.ny) by (nonlinear_arith)
                requires
                    y < self.ny,
                    x < self.nx,
            ;
            out.push(self.ux[y * self.nx + x]);
            y = y + 1;
        }
        out
    }

    /// y-velocity along the horizontal centreline `y = ny / 2`, left to right.
    pub fn centerline_v(&self) -> (r: Vec<T>)
        requires
            self.wf(),
            self.height() > 0 || self.width() == 0,
        ensures
            r@ == Seq::new(self.width(), |x: int| self.velocity_field().1[(self.height() / 2) * self.width() + x]),
    {
        proof {
            self.lemma_sizes();
        }
        let y = self.ny / 2;
        let mut out: Vec<T> = Vec::new();
        let mut x: usize = 0;
        while x < self.nx
            invariant
                x <= self.nx,
                self.ny > 0 || self.nx == 0,
                y == self.ny / 2,
                self.uy@.len() == self.nx * self.ny,
                self.nx * self.ny <= usize::MAX,
                self.uy@ == self.velocity_field().1,
                self.nx == self.width(),
                self.ny == self.height(),
                out@ =~= Seq::new(x as nat, |j: int| self.velocity_field().1[(self.height() / 2) * self.width() + j]),
            decreases self.nx - x,
        {
            assert(y * self.nx + x < self.nx * self.ny) by (nonlinear_arith)
                requires
                    y < self.ny,
                    x < self.nx,
            ;
            out.push(self.uy[y * self.nx + x]);
            x = x + 1;
        }
        out
    }
}

} // verus!

verus! {

/// A flat index `c < nx * ny` has coordinates `(c % nx, c / nx)` inside the
/// grid, and they give the index back.
proof fn lemma_cavity_coords(c: int, nx: int, ny: int)
    requires
        0 <= nx,
        0 <= ny,
        0 <= c < nx * ny,
    ensures
        0 <= c % nx < nx,
        0 <= c / nx < ny,
        (c / nx) * nx + c % nx == c,
{
    assert(0 < nx) by (nonlinear_arith)
        requires
            0 <= nx,
            0 <= ny,
            0 <= c < nx * ny,
    ;
    lemma_fundamental_div_mod(c, nx);
    lemma_mod_pos_bound(c, nx);
    let q = c / nx;
    assert(0 <= q < ny && q * nx + c % nx == c) by (nonlinear_arith)
        requires
            c == nx * q + c % nx,
            0 <= c % nx < nx,
            0 <= c < nx * ny,
            0 < nx,
    ;
}

/// The landing slot of direction `i` of cell `c` lies inside the buffer.
pub proof fn lemma_cavity_slot_in_range<T>(l: CavityView<T>, c: int, i: int)
    requires
        0 <= c < l.cells(),
        0 <= i < d2q9::Q,
        l.cells() <= usize::MAX,
    ensures
        0 <= cavity_slot(c, i, cavity_route_at(l, c, i)).0 < d2q9::Q,
        0 <= cavity_slot(c, i, cavity_route_at(l, c, i)).1 < l.cells(),
        0 <= cavity_deposit_slot(l, c, i) < d2q9::Q * l.cells(),
{
    let (nx, ny) = (l.nx as int, l.ny as int);
    lemma_cavity_coords(c, nx, ny);
    let (x, y) = (c % nx, c / nx);
    lemma_d2q9_table(i);
    let xn = x + d2q9::E[i][0] as int;
    let yn = y + d2q9::E[i][1] as int;
    if 0 <= xn < nx && 0 <= yn < ny {
        assert(yn * nx + xn < nx * ny) by (nonlinear_arith)
            requires
                0 <= xn < nx,
                0 <= yn < ny,
        ;
    }
    let s = cavity_slot(c, i, cavity_route_at(l, c, i));
    assert(0 <= s.0 < d2q9::Q && 0 <= s.1 < l.cells());
    assert(0 <= s.0 * l.cells() + s.1 < d2q9::Q * l.cells()) by (nonlinear_arith)
        requires
            0 <= s.0 < d2q9::Q,
            0 <= s.1 < l.cells(),
    ;
}

/// Distinct (cell, direction) pairs of the cavity land in distinct slots.
pub proof fn lemma_cavity_deposit_slots_distinct<T>(l: CavityView<T>, c1: int, i1: int, c2: int, i2: int)
    requires
        0 <= c1 < l.cells(),
        0 <= c2 < l.cells(),
        0 <= i1 < d2q9::Q,
        0 <= i2 < d2q9::Q,
        (c1, i1) != (c2, i2),
        l.cells() <= usize::MAX,
    ensures
        cavity_deposit_slot(l, c1, i1) != cavity_deposit_slot(l, c2, i2),
{
    let (nx, ny) = (l.nx as int, l.ny as int);
    lemma_cavity_coords(c1, nx, ny);
    lemma_cavity_coords(c2, nx, ny);
    lemma_cavity_streaming_injective(c1 % nx, c1 / nx, i1, c2 % nx, c2 / nx, i2, nx, ny);
    lemma_cavity_slot_in_range(l, c1, i1);
    lemma_cavity_slot_in_range(l, c2, i2);
    let s1 = cavity_slot(c1, i1, cavity_route_at(l, c1, i1));
    let s2 = cavity_slot(c2, i2, cavity_route_at(l, c2, i2));
    lemma_d2q9_table(i1);
    lemma_d2q9_table(i2);
    let n = l.cells();
    assert(0 <= s1.1 < n && 0 <= s2.1 < n);
    assert(s1.0 * n + s1.1 == s2.0 * n + s2.1 ==> s1 == s2) by (nonlinear_arith)
        requires
            0 <= s1.1 < n,
            0 <= s2.1 < n,
    ;
}

/// Adding the first `j` directions of cell `c` to `buf` adds each one to its
/// own slot and leaves every other entry alone.
proof fn lemma_cavity_deposit_directions<T: FloatPrecision>(l: CavityView<T>, u_lid: T, buf: Seq<T>, c: int, j: int)
    requires
        0 <= c < l.cells(),
        0 <= j <= d2q9::Q,
        l.cells() <= usize::MAX,
        buf.len() == d2q9::Q * l.cells(),
    ensures
        cavity_deposit_directions(l, u_lid, buf, c, j).len() == buf.len(),
        forall|i: int|
            0 <= i < j ==> #[trigger] cavity_deposit_directions(l, u_lid, buf, c, j)[cavity_deposit_slot(l, c, i)] == sum(
                buf[cavity_deposit_slot(l, c, i)],
                cavity_deposit_value(l, u_lid, c, i),
            ),
        forall|t: int|
            0 <= t < buf.len() && (forall|i: int| 0 <= i < j ==> cavity_deposit_slot(l, c, i) != t)
                ==> #[trigger] cavity_deposit_directions(l, u_lid, buf, c, j)[t] == buf[t],
    decreases j,
{
    if j > 0 {
        lemma_cavity_deposit_directions(l, u_lid, buf, c, j - 1);
        let prev = cavity_deposit_directions(l, u_lid, buf, c, j - 1);
        let last = cavity_deposit_slot(l, c, j - 1);
        lemma_cavity_slot_in_range(l, c, j - 1);
        assert forall|i: int| 0 <= i < j - 1 implies cavity_deposit_slot(l, c, i) != last by {
            lemma_cavity_deposit_slots_distinct(l, c, i, c, j - 1);
        }
        assert(prev[last] == buf[last]);
        let cur = cavity_deposit_directions(l, u_lid, buf, c, j);
        assert forall|i: int| 0 <= i < j implies #[trigger] cur[cavity_deposit_slot(l, c, i)] == sum(
            buf[cavity_deposit_slot(l, c, i)],
            cavity_deposit_value(l, u_lid, c, i),
        ) by {
            lemma_cavity_slot_in_range(l, c, i);
            if i < j - 1 {
                lemma_cavity_deposit_slots_distinct(l, c, i, c, j - 1);
                assert(cur[cavity_deposit_slot(l, c, i)] == prev[cavity_deposit_slot(l, c, i)]);
            }
        }
    }
}

/// Adding every direction of the first `k` cells to `buf` adds each
/// population to its own slot and leaves every other entry alone.
proof fn lemma_cavity_deposit_cells<T: FloatPrecision>(l: CavityView<T>, u_lid: T, buf: Seq<T>, k: int)
    requires
        0 <= k <= l.cells(),
        l.cells() <= usize::MAX,
        buf.len() == d2q9::Q * l.cells(),
    ensures
        cavity_deposit_cells(l, u_lid, buf, k).len() == buf.len(),
        forall|c: int, i: int|
            0 <= c < k && 0 <= i < d2q9::Q ==> #[trigger] cavity_deposit_cells(l, u_lid, buf, k)[cavity_deposit_slot(l, c, i)] == sum(
                buf[cavity_deposit_slot(l, c, i)],
                cavity_deposit_value(l, u_lid, c, i),
            ),
        forall|t: int|
            0 <= t < buf.len() && (forall|c: int, i: int|
                0 <= c < k && 0 <= i < d2q9::Q ==> cavity_deposit_slot(l, c, i) != t)
                ==> #[trigger] cavity_deposit_cells(l, u_lid, buf, k)[t] == buf[t],
    decreases k,
{
    if k > 0 {
        lemma_cavity_deposit_cells(l, u_lid, buf, k - 1);
        let prev = cavity_deposit_cells(l, u_lid, buf, k - 1);
        lemma_cavity_deposit_directions(l, u_lid, prev, k - 1, d2q9::Q as int);
        let cur = cavity_deposit_cells(l, u_lid, buf, k);
        assert(cur == cavity_deposit_directions(l, u_lid, prev, k - 1, d2q9::Q as int));
        assert forall|c: int, i: int| 0 <= c < k && 0 <= i < d2q9::Q implies #[trigger] cur[cavity_deposit_slot(l, c, i)] == sum(
            buf[cavity_deposit_slot(l, c, i)],
            cavity_deposit_value(l, u_lid, c, i),
        ) by {
            let t = cavity_deposit_slot(l, c, i);
            lemma_cavity_slot_in_range(l, c, i);
            if c == k - 1 {
                assert forall|c2: int, i2: int| 0 <= c2 < k - 1 && 0 <= i2 < d2q9::Q implies cavity_deposit_slot(l, c2, i2) != t by {
                    lemma_cavity_deposit_slots_distinct(l, c2, i2, c, i);
                }
                assert(prev[t] == buf[t]);
            } else {
                assert forall|i2: int| 0 <= i2 < d2q9::Q implies #[trigger] cavity_deposit_slot(l, k - 1, i2) != t by {
                    lemma_cavity_deposit_slots_distinct(l, k - 1, i2, c, i);
                }
                assert(cur[t] == prev[t]);
            }
        }
        assert forall|t: int|
            0 <= t < buf.len() && (forall|c: int, i: int|
                0 <= c < k && 0 <= i < d2q9::Q ==> cavity_deposit_slot(l, c, i) != t) implies #[trigger] cur[t] == buf[t] by {
            assert forall|c: int, i: int| 0 <= c < k - 1 && 0 <= i < d2q9::Q implies cavity_deposit_slot(l, c, i) != t by {
                assert(0 <= c < k);
            }
            assert forall|i: int| 0 <= i < d2q9::Q implies #[trigger] cavity_deposit_slot(l, k - 1, i) != t by {
                assert(0 <= k - 1 < k);
            }
        }
    }
}

/// A cavity step delivers each post-collision population (less the lid
/// correction where it bounces off the moving lid) intact to its landing
/// slot: that slot of the new populations holds exactly `0 + value`, and no
/// other population lands there.
pub proof fn lemma_cavity_step_delivers_each_population<T: FloatPrecision>(
    l: CavityView<T>,
    u_lid: T,
    c: int,
    i: int,
)
    requires
        0 <= c < l.cells(),
        0 <= i < d2q9::Q,
        l.cells() <= usize::MAX,
    ensures
        0 <= cavity_deposit_slot(l, c, i) < d2q9::Q * l.cells(),
        cavity_populations_after(l, u_lid)[cavity_deposit_slot(l, c, i)] == sum(
            lit::<T>(0),
            cavity_deposit_value(l, u_lid, c, i),
        ),
        forall|c2: int, i2: int|
            0 <= c2 < l.cells() && 0 <= i2 < d2q9::Q && (c2, i2) != (c, i)
                ==> #[trigger] cavity_deposit_slot(l, c2, i2) != cavity_deposit_slot(l, c, i),
{
    let zeros = filled((d2q9::Q * l.cells()) as nat, lit::<T>(0));
    lemma_cavity_slot_in_range(l, c, i);
    lemma_cavity_deposit_cells(l, u_lid, zeros, l.cells());
    assert(cavity_populations_after(l, u_lid)[cavity_deposit_slot(l, c, i)] == sum(
        zeros[cavity_deposit_slot(l, c, i)],
        cavity_deposit_value(l, u_lid, c, i),
    ));
    assert forall|c2: int, i2: int|
        0 <= c2 < l.cells() && 0 <= i2 < d2q9::Q && (c2, i2) != (c, i) implies #[trigger] cavity_deposit_slot(l, c2, i2)
        != cavity_deposit_slot(l, c, i) by {
        lemma_cavity_deposit_slots_distinct(l, c2, i2, c, i);
    }
}

} // verus!
