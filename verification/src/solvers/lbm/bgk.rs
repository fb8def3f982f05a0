//! BGK collide-and-stream steps of the D3Q19 solver.
//!
//! One step visits the cells in index order.  For each cell it computes the
//! density and velocity from the incoming populations, relaxes every
//! population towards its equilibrium (with the Guo forcing term under a body
//! force), and adds the result to the outgoing slot chosen by the step's
//! boundary rule.  The contracts state the outcome as the same sequence of
//! scalar operations, so for a scalar type whose operators are exact the
//! result is pinned down completely, rounding order included.
use crate::math_core::precision::{
    diff, exact_arith, less, lit, literal, prod, quot, sum, total_ops, FloatPrecision,
};
use crate::solvers::lbm::{
    channel_route_spec, d3q19, filled, grid_index, landing_slot, lattice_weight,
    lemma_channel_streaming_injective, lemma_grid_index_bounds, lemma_lid_streaming_injective,
    lemma_periodic_streaming_injective, lemma_wrap_inverse, lid_route_spec, periodic_route_spec,
    wrap, LbmSolver, Route,
};
use crate::solvers::traits::NotInitialized;
use vstd::arithmetic::div_mod::{
    lemma_fundamental_div_mod, lemma_fundamental_div_mod_converse, lemma_mod_pos_bound,
};
use vstd::prelude::*;

verus! {

/// Boundary rule and forcing of a step.
#[derive(Debug, Clone, Copy)]
pub enum StepVariant<T> {
    /// Periodic in every direction, bounce-back on solid cells.
    Periodic,
    /// No-slip wall below `y = 0`, lid moving along `x` with speed `u_lid`
    /// above `y = ny - 1`, periodic in `x` and `z`.
    MovingLid { u_lid: T },
    /// No-slip walls below `y = 0` and above `y = ny - 1`, periodic in `x`
    /// and `z`, uniform body force `(fx, fy, fz)` (Guo forcing).
    BodyForce { fx: T, fy: T, fz: T },
}

/// What a step reads from the solver: the grid, the incoming populations
/// (direction-major), the solid mask and the relaxation frequency.
pub struct LatticeView<T> {
    pub nx: nat,
    pub ny: nat,
    pub nz: nat,
    pub f: Seq<T>,
    pub solid: Seq<bool>,
    pub omega: T,
}

impl<T> LatticeView<T> {
    /// Number of cells.
    pub open spec fn cells(self) -> int {
        (self.nx * self.ny * self.nz) as int
    }
}

/// The lattice view of a solver.
pub open spec fn lattice_of<T: FloatPrecision>(s: LbmSolver<T>) -> LatticeView<T> {
    LatticeView {
        nx: s.width(),
        ny: s.height(),
        nz: s.depth(),
        f: s.incoming(),
        solid: s.solid_mask(),
        omega: s.omega_value(),
    }
}

/// Component `a` of lattice velocity `e_i`, as a scalar.
pub open spec fn velocity_component<T: FloatPrecision>(i: int, a: int) -> T {
    lit::<T>(d3q19::E[i][a] as i8)
}

/// `(Σ f_j, Σ e_jx f_j, Σ e_jy f_j, Σ e_jz f_j)` over the first `k`
/// directions of cell `c`, accumulated in direction order from zero.
pub open spec fn partial_moments<T: FloatPrecision>(f: Seq<T>, n: int, c: int, k: int) -> (T, T, T, T)
    decreases k,
{
    if k <= 0 {
        (lit::<T>(0), lit::<T>(0), lit::<T>(0), lit::<T>(0))
    } else {
        let m = partial_moments(f, n, c, k - 1);
        let fj = f[(k - 1) * n + c];
        (
            sum(m.0, fj),
            sum(m.1, prod(velocity_component::<T>(k - 1, 0), fj)),
            sum(m.2, prod(velocity_component::<T>(k - 1, 1), fj)),
            sum(m.3, prod(velocity_component::<T>(k - 1, 2), fj)),
        )
    }
}

/// `1/ρ` for a positive density, zero otherwise.
pub open spec fn inverse_or_zero<T: FloatPrecision>(r: T) -> T {
    if less(lit::<T>(0), r) {
        quot(lit::<T>(1), r)
    } else {
        lit::<T>(0)
    }
}

/// `1/(2ρ)` for a positive density, zero otherwise.
pub open spec fn half_inverse_or_zero<T: FloatPrecision>(r: T) -> T {
    if less(lit::<T>(0), r) {
        quot(lit::<T>(1), prod(lit::<T>(2), r))
    } else {
        lit::<T>(0)
    }
}

/// Density and velocity `(ρ, m_x/ρ, m_y/ρ, m_z/ρ)` of cell `c` (velocity
/// zero where the density is not positive).
pub open spec fn cell_moments<T: FloatPrecision>(f: Seq<T>, n: int, c: int) -> (T, T, T, T) {
    let m = partial_moments(f, n, c, d3q19::Q as int);
    let inv = inverse_or_zero(m.0);
    (m.0, prod(m.1, inv), prod(m.2, inv), prod(m.3, inv))
}

/// The velocity that enters the equilibrium: the cell velocity, shifted by
/// `F/(2ρ)` under a body force.
pub open spec fn step_velocity<T: FloatPrecision>(v: StepVariant<T>, m: (T, T, T, T)) -> (T, T, T) {
    match v {
        StepVariant::BodyForce { fx, fy, fz } => {
            let h = half_inverse_or_zero(m.0);
            (sum(m.1, prod(fx, h)), sum(m.2, prod(fy, h)), sum(m.3, prod(fz, h)))
        },
        _ => (m.1, m.2, m.3),
    }
}

/// `(1/cs², 1/(2cs⁴), 1/(2cs²))` with `cs² = 1/3`, computed as each step
/// variant computes them.
pub open spec fn bgk_constants<T: FloatPrecision>(v: StepVariant<T>) -> (T, T, T) {
    let cs2 = quot(lit::<T>(1), lit::<T>(3));
    let inv_cs2 = quot(lit::<T>(1), cs2);
    match v {
        StepVariant::BodyForce { .. } => (
            inv_cs2,
            quot(prod(inv_cs2, inv_cs2), lit::<T>(2)),
            quot(inv_cs2, lit::<T>(2)),
        ),
        _ => (
            inv_cs2,
            quot(lit::<T>(1), prod(prod(lit::<T>(2), cs2), cs2)),
            quot(lit::<T>(1), prod(lit::<T>(2), cs2)),
        ),
    }
}

/// `e_i · (ax, ay, az)`.
pub open spec fn lattice_dot<T: FloatPrecision>(i: int, ax: T, ay: T, az: T) -> T {
    sum(
        sum(prod(velocity_component::<T>(i, 0), ax), prod(velocity_component::<T>(i, 1), ay)),
        prod(velocity_component::<T>(i, 2), az),
    )
}

/// `u · u`.
pub open spec fn speed_sq<T: FloatPrecision>(u: (T, T, T)) -> T {
    sum(sum(prod(u.0, u.0), prod(u.1, u.1)), prod(u.2, u.2))
}

/// BGK equilibrium `w ρ (1 + (e·u)/cs² + (e·u)²/(2cs⁴) - u²/(2cs²))` with
/// `d = e·u`, `usq = u·u` and the constants `k` of [`bgk_constants`].
pub open spec fn equilibrium<T: FloatPrecision>(w: T, r: T, d: T, usq: T, k: (T, T, T)) -> T {
    prod(
        prod(w, r),
        diff(sum(sum(lit::<T>(1), prod(d, k.0)), prod(prod(d, d), k.1)), prod(usq, k.2)),
    )
}

/// Guo forcing term of direction `i`:
/// `w (1 - ω/2) ((e·F - u·F)/cs² + (e·u)(e·F)/cs⁴)`.
pub open spec fn guo_term<T: FloatPrecision>(
    i: int,
    w: T,
    omega: T,
    u: (T, T, T),
    force: (T, T, T),
    inv_cs2: T,
) -> T {
    let half_omega = prod(quot(lit::<T>(1), lit::<T>(2)), omega);
    let e_u = lattice_dot(i, u.0, u.1, u.2);
    let e_f = lattice_dot(i, force.0, force.1, force.2);
    let u_f = sum(sum(prod(u.0, force.0), prod(u.1, force.1)), prod(u.2, force.2));
    prod(
        prod(w, diff(lit::<T>(1), half_omega)),
        sum(prod(diff(e_f, u_f), inv_cs2), prod(prod(e_u, e_f), prod(inv_cs2, inv_cs2))),
    )
}

/// Post-collision population of direction `i` at cell `c`:
/// `f_i - ω (f_i - f_i^eq)`, plus the Guo term under a body force.
pub open spec fn post_collision<T: FloatPrecision>(l: LatticeView<T>, v: StepVariant<T>, c: int, i: int) -> T {
    let n = l.cells();
    let m = cell_moments(l.f, n, c);
    let u = step_velocity(v, m);
    let k = bgk_constants(v);
    let w = lattice_weight::<T>(i);
    let feq = equilibrium(w, m.0, lattice_dot(i, u.0, u.1, u.2), speed_sq(u), k);
    let fi = l.f[i * n + c];
    let relaxed = diff(fi, prod(l.omega, diff(fi, feq)));
    match v {
        StepVariant::BodyForce { fx, fy, fz } => sum(relaxed, guo_term(i, w, l.omega, u, (fx, fy, fz), k.0)),
        _ => relaxed,
    }
}

/// Coordinates `(x, y, z)` of the cell with flat index `c`.
pub open spec fn cell_coords(c: int, nx: int, ny: int) -> (int, int, int) {
    (c % nx, (c / nx) % ny, (c / nx) / ny)
}

/// Route of direction `i` from cell `c` under the step's boundary rule.
pub open spec fn step_route<T: FloatPrecision>(l: LatticeView<T>, v: StepVariant<T>, c: int, i: int) -> Route {
    let p = cell_coords(c, l.nx as int, l.ny as int);
    match v {
        StepVariant::Periodic => periodic_route_spec(p.0, p.1, p.2, i, l.nx as int, l.ny as int, l.nz as int, l.solid),
        StepVariant::MovingLid { .. } => lid_route_spec(p.0, p.1, p.2, i, l.nx as int, l.ny as int, l.nz as int, l.solid),
        StepVariant::BodyForce { .. } => channel_route_spec(p.0, p.1, p.2, i, l.nx as int, l.ny as int, l.nz as int, l.solid),
    }
}

/// Momentum exchange with the moving lid: `2 w ρ (e_ix u_lid) / cs²`.
pub open spec fn lid_correction<T: FloatPrecision>(l: LatticeView<T>, c: int, i: int, u_lid: T) -> T {
    let r = cell_moments(l.f, l.cells(), c).0;
    let inv_cs2 = bgk_constants(StepVariant::MovingLid { u_lid }).0;
    prod(prod(prod(prod(lit::<T>(2), lattice_weight::<T>(i)), r), prod(velocity_component::<T>(i, 0), u_lid)), inv_cs2)
}

/// Value added to the outgoing buffer for direction `i` of cell `c`: the
/// post-collision population, less the lid correction where it bounces off
/// the moving lid.
pub open spec fn deposit_value<T: FloatPrecision>(l: LatticeView<T>, v: StepVariant<T>, c: int, i: int) -> T {
    let p = post_collision(l, v, c, i);
    match v {
        StepVariant::MovingLid { u_lid } => if step_route(l, v, c, i) is MovingWall {
            diff(p, lid_correction(l, c, i, u_lid))
        } else {
            p
        },
        _ => p,
    }
}

/// Flat slot of the outgoing buffer that direction `i` of cell `c` lands in.
pub open spec fn deposit_slot<T: FloatPrecision>(l: LatticeView<T>, v: StepVariant<T>, c: int, i: int) -> int {
    let s = landing_slot(c, i, step_route(l, v, c, i));
    s.0 * l.cells() + s.1
}

/// `buf` after adding the first `j` directions of cell `c`, in direction order.
pub open spec fn deposit_directions<T: FloatPrecision>(
    l: LatticeView<T>,
    v: StepVariant<T>,
    buf: Seq<T>,
    c: int,
    j: int,
) -> Seq<T>
    decreases j,
{
    if j <= 0 {
        buf
    } else {
        let prev = deposit_directions(l, v, buf, c, j - 1);
        let s = deposit_slot(l, v, c, j - 1);
        prev.update(s, sum(prev[s], deposit_value(l, v, c, j - 1)))
    }
}

/// `buf` after adding every direction of the first `k` cells, in cell order.
pub open spec fn deposit_cells<T: FloatPrecision>(l: LatticeView<T>, v: StepVariant<T>, buf: Seq<T>, k: int) -> Seq<T>
    decreases k,
{
    if k <= 0 {
        buf
    } else {
        deposit_directions(l, v, deposit_cells(l, v, buf, k - 1), k - 1, d3q19::Q as int)
    }
}

/// The populations after a step: every post-collision population added, in
/// cell and direction order, to a zeroed buffer at its landing slot.
pub open spec fn populations_after<T: FloatPrecision>(l: LatticeView<T>, v: StepVariant<T>) -> Seq<T> {
    deposit_cells(l, v, filled((d3q19::Q * l.cells()) as nat, lit::<T>(0)), l.cells())
}

/// The density field a step records.
pub open spec fn density_after<T: FloatPrecision>(l: LatticeView<T>) -> Seq<T> {
    Seq::new(l.cells() as nat, |c: int| cell_moments(l.f, l.cells(), c).0)
}

/// The velocity field a step records (the force-shifted velocity under a
/// body force).
pub open spec fn velocity_after<T: FloatPrecision>(l: LatticeView<T>, v: StepVariant<T>) -> (Seq<T>, Seq<T>, Seq<T>) {
    (
        Seq::new(l.cells() as nat, |c: int| step_velocity(v, cell_moments(l.f, l.cells(), c)).0),
        Seq::new(l.cells() as nat, |c: int| step_velocity(v, cell_moments(l.f, l.cells(), c)).1),
        Seq::new(l.cells() as nat, |c: int| step_velocity(v, cell_moments(l.f, l.cells(), c)).2),
    )
}

/// The flat index of a cell gives its coordinates back.
pub proof fn lemma_cell_coords(x: int, y: int, z: int, nx: int, ny: int, nz: int)
    requires
        0 <= x < nx,
        0 <= y < ny,
        0 <= z < nz,
    ensures
        cell_coords(grid_index(x, y, z, nx, ny), nx, ny) == (x, y, z),
{
    let r = z * ny + y;
    lemma_fundamental_div_mod_converse(grid_index(x, y, z, nx, ny), nx, r, x);
    lemma_fundamental_div_mod_converse(r, ny, z, y);
}

impl<T: FloatPrecision> LbmSolver<T> {
    /// Density and velocity of cell `c` from its incoming populations.
    fn moments_at(&self, c: usize) -> (r: (T, T, T, T))
        requires
            self.wf(),
            self.is_ready(),
            c < self.cells(),
            total_ops::<T>(),
        ensures
            exact_arith::<T>() ==> r == cell_moments(self.incoming(), self.cells() as int, c as int),
    {
        let ghost n = self.cells() as int;
        let zero = literal::<T>(0);
        let mut r = zero;
        let mut mx = zero;
        let mut my = zero;
        let mut mz = zero;
        let mut i: usize = 0;
        while i < d3q19::Q
            invariant
                self.wf(),
                self.is_ready(),
                c < self.cells(),
                n == self.cells(),
                total_ops::<T>(),
                i <= d3q19::Q,
                exact_arith::<T>() ==> zero == lit::<T>(0),
                exact_arith::<T>() ==> (r, mx, my, mz) == partial_moments(self.incoming(), n, c as int, i as int),
            decreases d3q19::Q - i,
        {
            let fi = self.population(i, c);
            let ex = literal::<T>(d3q19::E[i][0] as i8);
            let ey = literal::<T>(d3q19::E[i][1] as i8);
            let ez = literal::<T>(d3q19::E[i][2] as i8);
            r = r + fi;
            mx = mx + ex * fi;
            my = my + ey * fi;
            mz = mz + ez * fi;
            i = i + 1;
        }
        let inv = if zero < r {
            literal::<T>(1) / r
        } else {
            zero
        };
        (r, mx * inv, my * inv, mz * inv)
    }
}

/// The velocity entering the equilibrium under step variant `v`, from the
/// cell moments `m`.
fn velocity_for<T: FloatPrecision>(v: StepVariant<T>, m: (T, T, T, T)) -> (u: (T, T, T))
    requires
        total_ops::<T>(),
    ensures
        exact_arith::<T>() ==> u == step_velocity(v, m),
{
    match v {
        StepVariant::BodyForce { fx, fy, fz } => {
            let zero = literal::<T>(0);
            let h = if zero < m.0 {
                literal::<T>(1) / (literal::<T>(2) * m.0)
            } else {
                zero
            };
            (m.1 + fx * h, m.2 + fy * h, m.3 + fz * h)
        },
        _ => (m.1, m.2, m.3),
    }
}

/// The constants `(1/cs², 1/(2cs⁴), 1/(2cs²))` of step variant `v`.
fn constants_for<T: FloatPrecision>(v: StepVariant<T>) -> (k: (T, T, T))
    requires
        total_ops::<T>(),
    ensures
        exact_arith::<T>() ==> k == bgk_constants(v),
{
    let one = literal::<T>(1);
    let two = literal::<T>(2);
    let cs2 = one / literal::<T>(3);
    let inv_cs2 = one / cs2;
    match v {
        StepVariant::BodyForce { .. } => (inv_cs2, inv_cs2 * inv_cs2 / two, inv_cs2 / two),
        _ => (inv_cs2, one / (two * cs2 * cs2), one / (two * cs2)),
    }
}

impl<T: FloatPrecision> LbmSolver<T> {
    /// Post-collision population of direction `i` at cell `c`, from the
    /// cell's moments `m`, equilibrium velocity `u` and constants `k`.
    fn post_value(
        &self,
        v: StepVariant<T>,
        c: usize,
        i: usize,
        m: (T, T, T, T),
        u: (T, T, T),
        k: (T, T, T),
    ) -> (r: T)
        requires
            self.wf(),
            self.is_ready(),
            c < self.cells(),
            i < d3q19::Q,
            total_ops::<T>(),
            exact_arith::<T>() ==> m == cell_moments(self.incoming(), self.cells() as int, c as int),
            exact_arith::<T>() ==> u == step_velocity(v, m),
            exact_arith::<T>() ==> k == bgk_constants(v),
        ensures
            exact_arith::<T>() ==> r == post_collision(lattice_of(*self), v, c as int, i as int),
    {
        let one = literal::<T>(1);
        let w = literal::<T>(d3q19::W_NUMERATOR[i] as i8) / literal::<T>(36);
        let ex = literal::<T>(d3q19::E[i][0] as i8);
        let ey = literal::<T>(d3q19::E[i][1] as i8);
        let ez = literal::<T>(d3q19::E[i][2] as i8);
        let d = ex * u.0 + ey * u.1 + ez * u.2;
        let usq = u.0 * u.0 + u.1 * u.1 + u.2 * u.2;
        let feq = w * m.0 * (one + d * k.0 + d * d * k.1 - usq * k.2);
        let fi = self.population(i, c);
        let omega = self.omega();
        let relaxed = fi - omega * (fi - feq);
        match v {
            StepVariant::BodyForce { fx, fy, fz } => {
                let half_omega = one / literal::<T>(2) * omega;
                let e_f = ex * fx + ey * fy + ez * fz;
                let u_f = u.0 * fx + u.1 * fy + u.2 * fz;
                let inv_cs4 = k.0 * k.0;
                let force = w * (one - half_omega) * ((e_f - u_f) * k.0 + d * e_f * inv_cs4);
                relaxed + force
            },
            _ => relaxed,
        }
    }
}

impl<T: FloatPrecision> LbmSolver<T> {
    /// Adds `value` to the outgoing population of direction `dir` at `cell`.
    fn deposit(&mut self, dir: usize, cell: usize, value: T)
        requires
            old(self).wf(),
            old(self).is_ready(),
            dir < d3q19::Q,
            cell < old(self).cells(),
            total_ops::<T>(),
        ensures
            final(self).wf(),
            final(self).is_ready(),
            lattice_of(*final(self)) == lattice_of(*old(self)),
            final(self).streamed().len() == old(self).streamed().len(),
            exact_arith::<T>() ==> final(self).streamed() == old(self).streamed().update(
                dir * old(self).cells() + cell,
                sum(old(self).streamed()[dir * old(self).cells() + cell], value),
            ),
            final(self).density_field() == old(self).density_field(),
            final(self).velocity_field() == old(self).velocity_field(),
            final(self).step_count() == old(self).step_count(),
            final(self).tau_value() == old(self).tau_value(),
    {
        let cur = self.outgoing(dir, cell);
        self.set_outgoing(dir, cell, cur + value);
    }

    /// One collide-and-stream pass over every cell, into the (zeroed)
    /// outgoing buffer, recording each cell's density and velocity.
    fn collide_and_stream(&mut self, v: StepVariant<T>)
        requires
            old(self).wf(),
            old(self).is_ready(),
            total_ops::<T>(),
            exact_arith::<T>() ==> old(self).streamed() == filled(
                (d3q19::Q * old(self).cells()) as nat,
                lit::<T>(0),
            ),
        ensures
            final(self).wf(),
            final(self).is_ready(),
            lattice_of(*final(self)) == lattice_of(*old(self)),
            final(self).step_count() == old(self).step_count(),
            final(self).tau_value() == old(self).tau_value(),
            exact_arith::<T>() ==> final(self).streamed() == populations_after(lattice_of(*old(self)), v),
            exact_arith::<T>() ==> final(self).density_field() == density_after(lattice_of(*old(self))),
            exact_arith::<T>() ==> final(self).velocity_field() == velocity_after(lattice_of(*old(self)), v),
    {
        let ghost l = lattice_of(*self);
        let ghost n = self.cells() as int;
        let ghost zeros = filled((d3q19::Q * l.cells()) as nat, lit::<T>(0));
        let ghost tau0 = self.tau_value();
        let ghost steps0 = self.step_count();
        let total = self.cell_count();
        let (nx, ny, nz) = self.dims();
        let k = constants_for(v);
        proof {
            assert(0 < total ==> 0 < nx && 0 < ny && 0 < nz) by (nonlinear_arith)
                requires
                    total == nx * ny * nz,
            ;
            assert(grid_index(0, 0, 0, nx as int, ny as int) == 0) by (nonlinear_arith);
        }
        let mut c: usize = 0;
        let mut x: usize = 0;
        let mut y: usize = 0;
        let mut z: usize = 0;
        while c < total
            invariant
                self.wf(),
                self.is_ready(),
                total_ops::<T>(),
                lattice_of(*self) == l,
                self.tau_value() == tau0,
                self.step_count() == steps0,
                n == total,
                n == l.cells(),
                nx == l.nx,
                ny == l.ny,
                nz == l.nz,
                c <= total,
                c < total ==> x < nx && y < ny && z < nz,
                c == grid_index(x as int, y as int, z as int, nx as int, ny as int),
                exact_arith::<T>() ==> k == bgk_constants(v),
                exact_arith::<T>() ==> self.streamed() == deposit_cells(l, v, zeros, c as int),
                exact_arith::<T>() ==> forall|j: int|
                    0 <= j < c ==> #[trigger] self.density_field()[j] == density_after(l)[j],
                exact_arith::<T>() ==> forall|j: int|
                    0 <= j < c ==> #[trigger] self.velocity_field().0[j] == velocity_after(l, v).0[j],
                exact_arith::<T>() ==> forall|j: int|
                    0 <= j < c ==> #[trigger] self.velocity_field().1[j] == velocity_after(l, v).1[j],
                exact_arith::<T>() ==> forall|j: int|
                    0 <= j < c ==> #[trigger] self.velocity_field().2[j] == velocity_after(l, v).2[j],
            decreases total - c,
        {
            proof {
                lemma_cell_coords(x as int, y as int, z as int, nx as int, ny as int, nz as int);
            }
            let m = self.moments_at(c);
            let u = velocity_for(v, m);
            self.set_macroscopic(c, m.0, u.0, u.1, u.2);
            let ghost base = deposit_cells(l, v, zeros, c as int);
            let ghost dens = self.density_field();
            let ghost vel = self.velocity_field();
            let mut i: usize = 0;
            while i < d3q19::Q
                invariant
                    self.wf(),
                    self.is_ready(),
                    total_ops::<T>(),
                    lattice_of(*self) == l,
                    self.tau_value() == tau0,
                    self.step_count() == steps0,
                    n == total,
                    n == l.cells(),
                    nx == l.nx,
                    ny == l.ny,
                    nz == l.nz,
                    c < total,
                    x < nx && y < ny && z < nz,
                    cell_coords(c as int, nx as int, ny as int) == (x as int, y as int, z as int),
                    i <= d3q19::Q,
                    exact_arith::<T>() ==> k == bgk_constants(v),
                    exact_arith::<T>() ==> m == cell_moments(l.f, n, c as int),
                    exact_arith::<T>() ==> u == step_velocity(v, m),
                    exact_arith::<T>() ==> self.streamed() == deposit_directions(l, v, base, c as int, i as int),
                    self.density_field() == dens,
                    self.velocity_field() == vel,
                decreases d3q19::Q - i,
            {
                let p = self.post_value(v, c, i, m, u, k);
                let route = match v {
                    StepVariant::Periodic => self.route_periodic(x, y, z, i),
                    StepVariant::MovingLid { .. } => self.route_lid(x, y, z, i),
                    StepVariant::BodyForce { .. } => self.route_channel(x, y, z, i),
                };
                match route {
                    Route::Stream { cell } => self.deposit(i, cell, p),
                    Route::BounceBack { dir } => self.deposit(dir, c, p),
                    Route::MovingWall { dir } => {
                        let value = match v {
                            StepVariant::MovingLid { u_lid } => {
                                let w = literal::<T>(d3q19::W_NUMERATOR[i] as i8) / literal::<T>(36);
                                let ex = literal::<T>(d3q19::E[i][0] as i8);
                                p - literal::<T>(2) * w * m.0 * (ex * u_lid) * k.0
                            },
                            _ => p,
                        };
                        self.deposit(dir, c, value);
                    },
                }
                i = i + 1;
            }
            proof {
                assert(deposit_cells(l, v, zeros, c + 1) == deposit_directions(l, v, base, c as int, d3q19::Q as int));
                lemma_next_cell(x as int, y as int, z as int, nx as int, ny as int, nz as int);
            }
            c = c + 1;
            x = x + 1;
            if x == nx {
                x = 0;
                y = y + 1;
                if y == ny {
                    y = 0;
                    z = z + 1;
                }
            }
        }
        proof {
            if exact_arith::<T>() {
                assert(self.density_field() =~= density_after(l));
                assert(self.velocity_field().0 =~= velocity_after(l, v).0);
                assert(self.velocity_field().1 =~= velocity_after(l, v).1);
                assert(self.velocity_field().2 =~= velocity_after(l, v).2);
            }
        }
    }
}

/// Advancing `(x, y, z)` in index order advances the flat index by one and
/// stays inside the grid while the index does.
proof fn lemma_next_cell(x: int, y: int, z: int, nx: int, ny: int, nz: int)
    requires
        0 <= x < nx,
        0 <= y < ny,
        0 <= z < nz,
    ensures
        x + 1 < nx ==> grid_index(x + 1, y, z, nx, ny) == grid_index(x, y, z, nx, ny) + 1,
        x + 1 == nx && y + 1 < ny ==> grid_index(0, y + 1, z, nx, ny) == grid_index(x, y, z, nx, ny) + 1,
        x + 1 == nx && y + 1 == ny ==> grid_index(0, 0, z + 1, nx, ny) == grid_index(x, y, z, nx, ny) + 1,
        x + 1 == nx && y + 1 == ny && grid_index(x, y, z, nx, ny) + 1 < nx * ny * nz ==> z + 1 < nz,
{
    assert(grid_index(0, y + 1, z, nx, ny) == grid_index(nx - 1, y, z, nx, ny) + 1) by (nonlinear_arith);
    assert(grid_index(0, 0, z + 1, nx, ny) == grid_index(nx - 1, ny - 1, z, nx, ny) + 1) by (nonlinear_arith);
    assert(grid_index(nx - 1, ny - 1, z, nx, ny) + 1 < nx * ny * nz ==> z + 1 < nz) by (nonlinear_arith)
        requires
            0 < nx,
            0 < ny,
            0 <= z,
    ;
}

/// What a step of variant `v` does to solver `s0`, giving `s1` and result `r`:
/// refused, with nothing changed, before `init`; otherwise the step counter
/// advances and is returned, the populations become the streamed
/// post-collision populations, the density and velocity of every cell are
/// recorded, and the previous populations are kept in the spare buffer.
pub open spec fn step_outcome<T: FloatPrecision>(
    s0: LbmSolver<T>,
    s1: LbmSolver<T>,
    r: Result<u64, NotInitialized>,
    v: StepVariant<T>,
) -> bool {
    &&& s1.wf()
    &&& r is Err <==> !s0.is_ready()
    &&& r is Err ==> s1 == s0
    &&& r is Ok ==> {
        &&& s1.is_ready()
        &&& r == Ok::<u64, NotInitialized>((s0.step_count() + 1) as u64)
        &&& s1.step_count() == s0.step_count() + 1
        &&& s1.streamed() == s0.incoming()
        &&& s1.solid_mask() == s0.solid_mask()
        &&& s1.width() == s0.width()
        &&& s1.height() == s0.height()
        &&& s1.depth() == s0.depth()
        &&& s1.tau_value() == s0.tau_value()
        &&& s1.omega_value() == s0.omega_value()
        &&& s1.incoming().len() == s0.incoming().len()
        &&& exact_arith::<T>() ==> s1.incoming() == populations_after(lattice_of(s0), v)
        &&& exact_arith::<T>() ==> s1.density_field() == density_after(lattice_of(s0))
        &&& exact_arith::<T>() ==> s1.velocity_field() == velocity_after(lattice_of(s0), v)
    }
}

impl<T: FloatPrecision> LbmSolver<T> {
    /// A complete step of variant `v`.
    fn advance(&mut self, v: StepVariant<T>) -> (r: Result<u64, NotInitialized>)
        requires
            old(self).wf(),
            total_ops::<T>(),
            old(self).is_ready() ==> old(self).step_count() < u64::MAX,
        ensures
            step_outcome(*old(self), *final(self), r, v),
    {
        match self.begin_step() {
            Err(e) => Err(e),
            Ok(()) => {
                proof {
                    self.lemma_buffer_sizes();
                }
                self.collide_and_stream(v);
                let t = self.finish_step();
                Ok(t)
            },
        }
    }

    /// One BGK step, periodic in every direction, with half-way bounce-back
    /// towards solid cells.  Refused before `init`; returns the new step
    /// count.
    pub fn step(&mut self) -> (r: Result<u64, NotInitialized>)
        requires
            old(self).wf(),
            total_ops::<T>(),
            old(self).is_ready() ==> old(self).step_count() < u64::MAX,
        ensures
            step_outcome(*old(self), *final(self), r, StepVariant::Periodic),
    {
        self.advance(StepVariant::Periodic)
    }

    /// One BGK step with a lid at `y = ny - 1` moving along `x` with speed
    /// `u_lid` (moving-wall bounce-back with the momentum correction
    /// `2 w ρ (e_x u_lid) / cs²`), a no-slip wall at `y = 0`, periodic `x`
    /// and `z`, and bounce-back towards solid cells.  Refused before `init`;
    /// returns the new step count.
    pub fn step_with_lid(&mut self, u_lid: T) -> (r: Result<u64, NotInitialized>)
        requires
            old(self).wf(),
            total_ops::<T>(),
            old(self).is_ready() ==> old(self).step_count() < u64::MAX,
        ensures
            step_outcome(*old(self), *final(self), r, StepVariant::MovingLid { u_lid }),
    {
        self.advance(StepVariant::MovingLid { u_lid })
    }

    /// One BGK step with a uniform body force `(fx, fy, fz)` (Guo forcing:
    /// the equilibrium uses `u + F/(2ρ)` and each population gains
    /// `w (1 - ω/2) ((e·F - u·F)/cs² + (e·u)(e·F)/cs⁴)`), no-slip walls at
    /// `y = 0` and `y = ny - 1`, periodic `x` and `z`, and bounce-back towards
    /// solid cells.  Refused before `init`; returns the new step count.
    pub fn step_with_body_force(&mut self, fx: T, fy: T, fz: T) -> (r: Result<u64, NotInitialized>)
        requires
            old(self).wf(),
            total_ops::<T>(),
            old(self).is_ready() ==> old(self).step_count() < u64::MAX,
        ensures
            step_outcome(*old(self), *final(self), r, StepVariant::BodyForce { fx, fy, fz }),
    {
        self.advance(StepVariant::BodyForce { fx, fy, fz })
    }
}

/// A flat index inside the grid has coordinates inside the grid, and they
/// give the index back.
pub proof fn lemma_coords_in_grid(c: int, nx: int, ny: int, nz: int)
    requires
        0 <= nx,
        0 <= ny,
        0 <= nz,
        0 <= c < nx * ny * nz,
    ensures
        0 <= cell_coords(c, nx, ny).0 < nx,
        0 <= cell_coords(c, nx, ny).1 < ny,
        0 <= cell_coords(c, nx, ny).2 < nz,
        grid_index(cell_coords(c, nx, ny).0, cell_coords(c, nx, ny).1, cell_coords(c, nx, ny).2, nx, ny) == c,
{
    assert(0 < nx && 0 < ny && 0 < nz) by (nonlinear_arith)
        requires
            0 <= nx,
            0 <= ny,
            0 <= nz,
            0 <= c < nx * ny * nz,
    ;
    let q = c / nx;
    let x = c % nx;
    lemma_fundamental_div_mod(c, nx);
    lemma_mod_pos_bound(c, nx);
    assert(0 <= q < ny * nz) by (nonlinear_arith)
        requires
            c == nx * q + x,
            0 <= x < nx,
            0 <= c < nx * ny * nz,
            0 < nx,
    ;
    let y = q % ny;
    let z = q / ny;
    lemma_fundamental_div_mod(q, ny);
    lemma_mod_pos_bound(q, ny);
    assert(0 <= z < nz) by (nonlinear_arith)
        requires
            q == ny * z + y,
            0 <= y < ny,
            0 <= q < ny * nz,
            0 < ny,
    ;
    assert(grid_index(x, y, z, nx, ny) == c) by (nonlinear_arith)
        requires
            c == nx * q + x,
            q == ny * z + y,
    ;
}

/// The landing slot of direction `i` of cell `c` lies inside the outgoing
/// buffer: a direction below `Q` and a cell of the grid.
pub proof fn lemma_deposit_slot_in_range<T: FloatPrecision>(l: LatticeView<T>, v: StepVariant<T>, c: int, i: int)
    requires
        0 <= c < l.cells(),
        0 <= i < d3q19::Q,
        l.cells() <= usize::MAX,
    ensures
        0 <= landing_slot(c, i, step_route(l, v, c, i)).0 < d3q19::Q,
        0 <= landing_slot(c, i, step_route(l, v, c, i)).1 < l.cells(),
        0 <= deposit_slot(l, v, c, i) < d3q19::Q * l.cells(),
{
    let (nx, ny, nz) = (l.nx as int, l.ny as int, l.nz as int);
    lemma_coords_in_grid(c, nx, ny, nz);
    let (x, y, z) = cell_coords(c, nx, ny);
    d3q19::lemma_unit_components(i, 0);
    d3q19::lemma_unit_components(i, 1);
    d3q19::lemma_unit_components(i, 2);
    d3q19::lemma_opposite_involution(i);
    lemma_wrap_inverse(x, d3q19::E[i][0] as int, nx);
    lemma_wrap_inverse(y, d3q19::E[i][1] as int, ny);
    lemma_wrap_inverse(z, d3q19::E[i][2] as int, nz);
    let xn = wrap(x, d3q19::E[i][0] as int, nx);
    let zn = wrap(z, d3q19::E[i][2] as int, nz);
    lemma_grid_index_bounds(xn, wrap(y, d3q19::E[i][1] as int, ny), zn, nx, ny, nz);
    let yn = y + d3q19::E[i][1] as int;
    if 0 <= yn < ny {
        lemma_grid_index_bounds(xn, yn, zn, nx, ny, nz);
    }
    let s = landing_slot(c, i, step_route(l, v, c, i));
    assert(s.0 * l.cells() + s.1 < d3q19::Q * l.cells()) by (nonlinear_arith)
        requires
            0 <= s.0 < d3q19::Q,
            0 <= s.1 < l.cells(),
    ;
    assert(0 <= s.0 * l.cells()) by (nonlinear_arith)
        requires
            0 <= s.0,
            0 <= l.cells(),
    ;
}

/// With every cell fluid, distinct (cell, direction) pairs land in distinct
/// slots, under each boundary rule.
pub proof fn lemma_fluid_deposit_slots_distinct<T: FloatPrecision>(
    l: LatticeView<T>,
    v: StepVariant<T>,
    c1: int,
    i1: int,
    c2: int,
    i2: int,
)
    requires
        0 <= c1 < l.cells(),
        0 <= c2 < l.cells(),
        0 <= i1 < d3q19::Q,
        0 <= i2 < d3q19::Q,
        (c1, i1) != (c2, i2),
        l.cells() <= usize::MAX,
        l.solid == filled(l.cells() as nat, false),
    ensures
        deposit_slot(l, v, c1, i1) != deposit_slot(l, v, c2, i2),
{
    let (nx, ny, nz) = (l.nx as int, l.ny as int, l.nz as int);
    lemma_coords_in_grid(c1, nx, ny, nz);
    lemma_coords_in_grid(c2, nx, ny, nz);
    let (x1, y1, z1) = cell_coords(c1, nx, ny);
    let (x2, y2, z2) = cell_coords(c2, nx, ny);
    match v {
        StepVariant::Periodic => {
            lemma_periodic_streaming_injective(x1, y1, z1, i1, x2, y2, z2, i2, nx, ny, nz, l.solid);
        },
        StepVariant::MovingLid { .. } => {
            lemma_lid_streaming_injective(x1, y1, z1, i1, x2, y2, z2, i2, nx, ny, nz, l.solid);
        },
        StepVariant::BodyForce { .. } => {
            lemma_channel_streaming_injective(x1, y1, z1, i1, x2, y2, z2, i2, nx, ny, nz, l.solid);
        },
    }
    lemma_deposit_slot_in_range(l, v, c1, i1);
    lemma_deposit_slot_in_range(l, v, c2, i2);
    let s1 = landing_slot(c1, i1, step_route(l, v, c1, i1));
    let s2 = landing_slot(c2, i2, step_route(l, v, c2, i2));
    let n = l.cells();
    assert(s1.0 * n + s1.1 == s2.0 * n + s2.1 ==> s1 == s2) by (nonlinear_arith)
        requires
            0 <= s1.1 < n,
            0 <= s2.1 < n,
    ;
}

/// With every cell fluid, adding the first `j` directions of cell `c` to
/// `buf` adds each one to its own slot and leaves every other entry alone.
proof fn lemma_fluid_deposit_directions<T: FloatPrecision>(
    l: LatticeView<T>,
    v: StepVariant<T>,
    buf: Seq<T>,
    c: int,
    j: int,
)
    requires
        0 <= c < l.cells(),
        0 <= j <= d3q19::Q,
        l.cells() <= usize::MAX,
        l.solid == filled(l.cells() as nat, false),
        buf.len() == d3q19::Q * l.cells(),
    ensures
        deposit_directions(l, v, buf, c, j).len() == buf.len(),
        forall|i: int|
            0 <= i < j ==> #[trigger] deposit_directions(l, v, buf, c, j)[deposit_slot(l, v, c, i)] == sum(
                buf[deposit_slot(l, v, c, i)],
                deposit_value(l, v, c, i),
            ),
        forall|t: int|
            0 <= t < buf.len() && (forall|i: int| 0 <= i < j ==> deposit_slot(l, v, c, i) != t)
                ==> #[trigger] deposit_directions(l, v, buf, c, j)[t] == buf[t],
    decreases j,
{
    if j > 0 {
        lemma_fluid_deposit_directions(l, v, buf, c, j - 1);
        let prev = deposit_directions(l, v, buf, c, j - 1);
        let last = deposit_slot(l, v, c, j - 1);
        lemma_deposit_slot_in_range(l, v, c, j - 1);
        assert forall|i: int| 0 <= i < j - 1 implies deposit_slot(l, v, c, i) != last by {
            lemma_fluid_deposit_slots_distinct(l, v, c, i, c, j - 1);
        }
        assert(prev[last] == buf[last]);
        let cur = deposit_directions(l, v, buf, c, j);
        assert forall|i: int| 0 <= i < j implies #[trigger] cur[deposit_slot(l, v, c, i)] == sum(
            buf[deposit_slot(l, v, c, i)],
            deposit_value(l, v, c, i),
        ) by {
            lemma_deposit_slot_in_range(l, v, c, i);
            if i < j - 1 {
                lemma_fluid_deposit_slots_distinct(l, v, c, i, c, j - 1);
                assert(cur[deposit_slot(l, v, c, i)] == prev[deposit_slot(l, v, c, i)]);
            }
        }
    }
}

/// With every cell fluid, adding every direction of the first `k` cells to
/// `buf` adds each population to its own slot and leaves every other entry
/// alone.
proof fn lemma_fluid_deposit_cells<T: FloatPrecision>(l: LatticeView<T>, v: StepVariant<T>, buf: Seq<T>, k: int)
    requires
        0 <= k <= l.cells(),
        l.cells() <= usize::MAX,
        l.solid == filled(l.cells() as nat, false),
        buf.len() == d3q19::Q * l.cells(),
    ensures
        deposit_cells(l, v, buf, k).len() == buf.len(),
        forall|c: int, i: int|
            0 <= c < k && 0 <= i < d3q19::Q ==> #[trigger] deposit_cells(l, v, buf, k)[deposit_slot(l, v, c, i)] == sum(
                buf[deposit_slot(l, v, c, i)],
                deposit_value(l, v, c, i),
            ),
        forall|t: int|
            0 <= t < buf.len() && (forall|c: int, i: int|
                0 <= c < k && 0 <= i < d3q19::Q ==> deposit_slot(l, v, c, i) != t)
                ==> #[trigger] deposit_cells(l, v, buf, k)[t] == buf[t],
    decreases k,
{
    if k > 0 {
        lemma_fluid_deposit_cells(l, v, buf, k - 1);
        let prev = deposit_cells(l, v, buf, k - 1);
        lemma_fluid_deposit_directions(l, v, prev, k - 1, d3q19::Q as int);
        let cur = deposit_cells(l, v, buf, k);
        assert(cur == deposit_directions(l, v, prev, k - 1, d3q19::Q as int));
        assert forall|c: int, i: int| 0 <= c < k && 0 <= i < d3q19::Q implies #[trigger] cur[deposit_slot(l, v, c, i)] == sum(
            buf[deposit_slot(l, v, c, i)],
            deposit_value(l, v, c, i),
        ) by {
            let t = deposit_slot(l, v, c, i);
            lemma_deposit_slot_in_range(l, v, c, i);
            if c == k - 1 {
                assert forall|c2: int, i2: int| 0 <= c2 < k - 1 && 0 <= i2 < d3q19::Q implies deposit_slot(l, v, c2, i2) != t by {
                    lemma_fluid_deposit_slots_distinct(l, v, c2, i2, c, i);
                }
                assert(prev[t] == buf[t]);
            } else {
                assert forall|i2: int| 0 <= i2 < d3q19::Q implies #[trigger] deposit_slot(l, v, k - 1, i2) != t by {
                    lemma_fluid_deposit_slots_distinct(l, v, k - 1, i2, c, i);
                }
                assert(cur[t] == prev[t]);
            }
        }
        assert forall|t: int|
            0 <= t < buf.len() && (forall|c: int, i: int|
                0 <= c < k && 0 <= i < d3q19::Q ==> deposit_slot(l, v, c, i) != t) implies #[trigger] cur[t] == buf[t] by {
            assert forall|c: int, i: int| 0 <= c < k - 1 && 0 <= i < d3q19::Q implies deposit_slot(l, v, c, i) != t by {
                assert(0 <= c < k);
            }
            assert forall|i: int| 0 <= i < d3q19::Q implies #[trigger] deposit_slot(l, v, k - 1, i) != t by {
                assert(0 <= k - 1 < k);
            }
        }
    }
}

/// When every cell is fluid, a step delivers each post-collision population
/// (less the lid correction where it bounces off the moving lid) intact to
/// its landing slot: that slot of the new populations holds exactly
/// `0 + value`, and no other population lands there.
pub proof fn lemma_fluid_step_delivers_each_population<T: FloatPrecision>(
    l: LatticeView<T>,
    v: StepVariant<T>,
    c: int,
    i: int,
)
    requires
        0 <= c < l.cells(),
        0 <= i < d3q19::Q,
        l.cells() <= usize::MAX,
        l.solid == filled(l.cells() as nat, false),
    ensures
        0 <= deposit_slot(l, v, c, i) < d3q19::Q * l.cells(),
        populations_after(l, v)[deposit_slot(l, v, c, i)] == sum(lit::<T>(0), deposit_value(l, v, c, i)),
        forall|c2: int, i2: int|
            0 <= c2 < l.cells() && 0 <= i2 < d3q19::Q && (c2, i2) != (c, i)
                ==> #[trigger] deposit_slot(l, v, c2, i2) != deposit_slot(l, v, c, i),
{
    let zeros = filled((d3q19::Q * l.cells()) as nat, lit::<T>(0));
    lemma_deposit_slot_in_range(l, v, c, i);
    lemma_fluid_deposit_cells(l, v, zeros, l.cells());
    assert(populations_after(l, v)[deposit_slot(l, v, c, i)] == sum(zeros[deposit_slot(l, v, c, i)], deposit_value(l, v, c, i)));
    assert forall|c2: int, i2: int|
        0 <= c2 < l.cells() && 0 <= i2 < d3q19::Q && (c2, i2) != (c, i) implies #[trigger] deposit_slot(l, v, c2, i2) != deposit_slot(l, v, c, i) by {
        lemma_fluid_deposit_slots_distinct(l, v, c2, i2, c, i);
    }
}

} // verus!
