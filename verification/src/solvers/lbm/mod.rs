//! Lattice Boltzmann method: D3Q19 solver state, streaming routes and the
//! velocity models.
//!
//! The solver owns its distribution buffers, allocated once by [`LbmSolver::init`];
//! a time step performs no allocation.  The streaming decisions of every step
//! variant (where each post-collision population goes) are computed here, on
//! integers, with exact contracts; the collide-and-stream steps themselves
//! are in [`bgk`].
pub mod bgk;
pub mod boundary;
pub mod collision;
pub mod d2q9;
pub mod d3q19;
pub mod lbm2d;
pub mod cavity_laws;
pub mod streaming;

use crate::math_core::precision::{
    exact_arith, lit, literal, prod, quot, sum, total_ops, FloatPrecision,
};
use crate::solvers::traits::NotInitialized;
use vstd::prelude::*;

verus! {

/// Destination of one post-collision population during streaming.
#[derive(Debug, Clone, Copy, PartialEq, Eq)]
pub enum Route {
    /// Moves to `cell`, keeping its direction.
    Stream { cell: usize },
    /// Stays in the source cell, reversed into direction `dir`
    /// (half-way bounce-back at a no-slip wall or a solid neighbour).
    BounceBack { dir: usize },
    /// Stays in the source cell, reversed into direction `dir`, with the
    /// moving-wall momentum correction applied by the step.
    MovingWall { dir: usize },
}

/// Flat index of cell `(x, y, z)`: `(z * ny + y) * nx + x`.
pub open spec fn grid_index(x: int, y: int, z: int, nx: int, ny: int) -> int {
    (z * ny + y) * nx + x
}

/// Coordinate `c + e` wrapped periodically into `[0, n)`.
pub open spec fn wrap(c: int, e: int, n: int) -> int {
    (c + e) % n
}

/// Flat index of cell `(x, y, z)`; the index must fit in a `usize`.
pub fn cell_index(x: usize, y: usize, z: usize, nx: usize, ny: usize, nz: usize) -> (r: usize)
    requires
        x < nx,
        y < ny,
        z < nz,
        nx * ny * nz <= usize::MAX,
    ensures
        r == grid_index(x as int, y as int, z as int, nx as int, ny as int),
        r < nx * ny * nz,
{
    proof {
        lemma_grid_index_bounds(x as int, y as int, z as int, nx as int, ny as int, nz as int);
    }
    (z * ny + y) * nx + x
}

/// A cell of the grid has an index inside the grid, and the intermediate
/// products stay below the cell count.
pub proof fn lemma_grid_index_bounds(x: int, y: int, z: int, nx: int, ny: int, nz: int)
    requires
        0 <= x < nx,
        0 <= y < ny,
        0 <= z < nz,
    ensures
        0 <= z * ny + y < ny * nz,
        0 <= grid_index(x, y, z, nx, ny) < nx * ny * nz,
        (z * ny + y) * nx <= grid_index(x, y, z, nx, ny),
        0 <= z * ny,
        ny * nz <= nx * ny * nz,
{
    assert(ny * nz <= nx * ny * nz) by (nonlinear_arith)
        requires
            1 <= nx,
            0 <= ny,
            0 <= nz,
    ;
    assert(z * ny + y < ny * nz) by (nonlinear_arith)
        requires
            0 <= y < ny,
            0 <= z < nz,
    ;
    assert(0 <= z * ny) by (nonlinear_arith)
        requires
            0 <= z,
            0 <= ny,
    ;
    assert((z * ny + y) * nx + x < nx * ny * nz) by (nonlinear_arith)
        requires
            0 <= x < nx,
            0 <= z * ny + y < ny * nz,
    ;
    assert(0 <= (z * ny + y) * nx) by (nonlinear_arith)
        requires
            0 <= z * ny + y,
            0 <= nx,
    ;
}

/// Distinct cells of a grid have distinct flat indices.
pub proof fn lemma_grid_index_injective(
    x1: int, y1: int, z1: int, x2: int, y2: int, z2: int, nx: int, ny: int, nz: int,
)
    requires
        0 <= x1 < nx,
        0 <= y1 < ny,
        0 <= z1 < nz,
        0 <= x2 < nx,
        0 <= y2 < ny,
        0 <= z2 < nz,
        grid_index(x1, y1, z1, nx, ny) == grid_index(x2, y2, z2, nx, ny),
    ensures
        x1 == x2 && y1 == y2 && z1 == z2,
{
    let r1 = z1 * ny + y1;
    let r2 = z2 * ny + y2;
    assert(r1 == r2 && x1 == x2) by (nonlinear_arith)
        requires
            0 <= x1 < nx,
            0 <= x2 < nx,
            0 <= r1,
            0 <= r2,
            r1 * nx + x1 == r2 * nx + x2,
    ;
    assert(z1 == z2 && y1 == y2) by (nonlinear_arith)
        requires
            0 <= y1 < ny,
            0 <= y2 < ny,
            0 <= z1,
            0 <= z2,
            z1 * ny + y1 == z2 * ny + y2,
    ;
}

/// Coordinate `c + e` wrapped periodically into `[0, n)`, for a lattice
/// velocity component `e` in {-1, 0, 1}.
pub fn periodic_shift(c: usize, e: i32, n: usize) -> (r: usize)
    requires
        c < n,
        -1 <= e <= 1,
    ensures
        r == wrap(c as int, e as int, n as int),
        r < n,
{
    if e > 0 {
        if c + 1 == n {
            assert(wrap(c as int, e as int, n as int) == 0) by (nonlinear_arith)
                requires c + e == n, n > 0;
            0
        } else {
            assert(wrap(c as int, e as int, n as int) == c + 1) by (nonlinear_arith)
                requires c + e < n, e == 1, c >= 0;
            c + 1
        }
    } else if e < 0 {
        if c == 0 {
            assert(wrap(c as int, e as int, n as int) == n - 1) by (nonlinear_arith)
                requires c + e == -1, n > 0;
            n - 1
        } else {
            assert(wrap(c as int, e as int, n as int) == c - 1) by (nonlinear_arith)
                requires c + e == c - 1, 0 <= c - 1 < n;
            c - 1
        }
    } else {
        assert(wrap(c as int, e as int, n as int) == c) by (nonlinear_arith)
            requires e == 0, 0 <= c < n;
        c
    }
}

/// Wrapping forward by `e` and then back by `-e` returns to the start.
pub proof fn lemma_wrap_inverse(c: int, e: int, n: int)
    requires
        0 <= c < n,
        -1 <= e <= 1,
    ensures
        wrap(wrap(c, e, n), -e, n) == c,
        0 <= wrap(c, e, n) < n,
{
    assert(wrap(wrap(c, e, n), -e, n) == c && 0 <= wrap(c, e, n) < n) by (nonlinear_arith)
        requires
            0 <= c < n,
            -1 <= e <= 1,
    {
        if c + e == n {
            assert((c + e) % n == 0);
        } else if c + e == -1 {
            assert((c + e) % n == n - 1);
            assert((n - 1 - e) % n == 0);
        } else {
            assert((c + e) % n == c + e);
        }
    }
}

/// The route of direction `i` from cell `(x, y, z)` in the fully periodic
/// step: the periodic neighbour, unless that neighbour is solid.
pub open spec fn periodic_route_spec(
    x: int, y: int, z: int, i: int, nx: int, ny: int, nz: int, solid: Seq<bool>,
) -> Route {
    let t = grid_index(
        wrap(x, d3q19::E[i][0] as int, nx),
        wrap(y, d3q19::E[i][1] as int, ny),
        wrap(z, d3q19::E[i][2] as int, nz),
        nx,
        ny,
    );
    if solid[t] {
        Route::BounceBack { dir: d3q19::OPPOSITE[i] }
    } else {
        Route::Stream { cell: t as usize }
    }
}

/// The route of direction `i` from `(x, y, z)` with no-slip walls below
/// `y = 0` and above `y = ny - 1` and periodic `x` and `z`.
pub open spec fn channel_route_spec(
    x: int, y: int, z: int, i: int, nx: int, ny: int, nz: int, solid: Seq<bool>,
) -> Route {
    let yn = y + d3q19::E[i][1] as int;
    if yn < 0 || yn >= ny {
        Route::BounceBack { dir: d3q19::OPPOSITE[i] }
    } else {
        let t = grid_index(
            wrap(x, d3q19::E[i][0] as int, nx),
            yn,
            wrap(z, d3q19::E[i][2] as int, nz),
            nx,
            ny,
        );
        if solid[t] {
            Route::BounceBack { dir: d3q19::OPPOSITE[i] }
        } else {
            Route::Stream { cell: t as usize }
        }
    }
}

/// The route of direction `i` from `(x, y, z)` with a no-slip wall below
/// `y = 0`, a moving lid above `y = ny - 1` and periodic `x` and `z`.
pub open spec fn lid_route_spec(
    x: int, y: int, z: int, i: int, nx: int, ny: int, nz: int, solid: Seq<bool>,
) -> Route {
    let yn = y + d3q19::E[i][1] as int;
    if yn < 0 {
        Route::BounceBack { dir: d3q19::OPPOSITE[i] }
    } else if yn > ny - 1 {
        Route::MovingWall { dir: d3q19::OPPOSITE[i] }
    } else {
        let t = grid_index(
            wrap(x, d3q19::E[i][0] as int, nx),
            yn,
            wrap(z, d3q19::E[i][2] as int, nz),
            nx,
            ny,
        );
        if solid[t] {
            Route::BounceBack { dir: d3q19::OPPOSITE[i] }
        } else {
            Route::Stream { cell: t as usize }
        }
    }
}

} // verus!

verus! {

/// `3ν + 1/2`: the BGK relaxation time for kinematic viscosity `ν`.
pub open spec fn relaxation_time<T: FloatPrecision>(viscosity: T) -> T {
    sum(prod(lit::<T>(3), viscosity), quot(lit::<T>(1), lit::<T>(2)))
}

/// The D3Q19 weight of direction `i` as a scalar: `W_NUMERATOR[i] / 36`.
pub open spec fn lattice_weight<T: FloatPrecision>(i: int) -> T {
    quot(lit::<T>(d3q19::W_NUMERATOR[i] as i8), lit::<T>(36))
}

/// The populations at rest with unit density: `f_i = w_i` in every cell,
/// stored direction by direction (`f[i * n + cell]`).
pub open spec fn rest_populations<T: FloatPrecision>(n: int) -> Seq<T> {
    Seq::new((d3q19::Q * n) as nat, |k: int| lattice_weight::<T>(k / n))
}

/// D3Q19 lattice Boltzmann solver on an `nx × ny × nz` grid with BGK
/// collisions and per-cell bounce-back on solid cells.
///
/// Cell `(x, y, z)` has flat index `(z * ny + y) * nx + x`; the populations
/// of direction `i` are stored at `i * nx * ny * nz + cell`.
pub struct LbmSolver<T> {
    nx: usize,
    ny: usize,
    nz: usize,
    tau: T,
    omega: T,
    f_in: Vec<T>,
    f_out: Vec<T>,
    rho: Vec<T>,
    u_x: Vec<T>,
    u_y: Vec<T>,
    u_z: Vec<T>,
    is_boundary: Vec<bool>,
    timestep: u64,
    initialized: bool,
}

impl<T: FloatPrecision> LbmSolver<T> {
    /// Grid width.
    pub closed spec fn width(&self) -> nat {
        self.nx as nat
    }

    /// Grid height.
    pub closed spec fn height(&self) -> nat {
        self.ny as nat
    }

    /// Grid depth.
    pub closed spec fn depth(&self) -> nat {
        self.nz as nat
    }

    /// Number of cells `nx * ny * nz`.
    pub open spec fn cells(&self) -> nat {
        self.width() * self.height() * self.depth()
    }

    /// The cell count and its partial product fit in a `usize`.
    pub open spec fn dims_fit(&self) -> bool {
        self.width() * self.height() <= usize::MAX && self.cells() <= usize::MAX
    }

    /// Relaxation time `τ`.
    pub closed spec fn tau_value(&self) -> T {
        self.tau
    }

    /// Relaxation frequency `ω = 1/τ`.
    pub closed spec fn omega_value(&self) -> T {
        self.omega
    }

    /// Incoming populations, direction-major.
    pub closed spec fn incoming(&self) -> Seq<T> {
        self.f_in@
    }

    /// Outgoing (streamed) populations of the step under way, direction-major.
    pub closed spec fn streamed(&self) -> Seq<T> {
        self.f_out@
    }

    /// Density per cell.
    pub closed spec fn density_field(&self) -> Seq<T> {
        self.rho@
    }

    /// Velocity components per cell.
    pub closed spec fn velocity_field(&self) -> (Seq<T>, Seq<T>, Seq<T>) {
        (self.u_x@, self.u_y@, self.u_z@)
    }

    /// Solid-cell mask (`true` = bounce-back cell).
    pub closed spec fn solid_mask(&self) -> Seq<bool> {
        self.is_boundary@
    }

    /// Number of completed steps.
    pub closed spec fn step_count(&self) -> u64 {
        self.timestep
    }

    /// Whether `init` has run (and `finalize` has not run since).
    pub closed spec fn is_ready(&self) -> bool {
        self.initialized
    }

    /// Well-formedness: once initialised, every buffer has its full size.
    pub closed spec fn wf(&self) -> bool {
        self.initialized ==> {
            let n = self.nx * self.ny * self.nz;
            &&& self.nx * self.ny <= usize::MAX
            &&& d3q19::Q * n <= usize::MAX
            &&& self.f_in@.len() == d3q19::Q * n
            &&& self.f_out@.len() == d3q19::Q * n
            &&& self.rho@.len() == n
            &&& self.u_x@.len() == n
            &&& self.u_y@.len() == n
            &&& self.u_z@.len() == n
            &&& self.is_boundary@.len() == n
        }
    }

    /// Creates a solver for an `nx × ny × nz` grid with kinematic viscosity
    /// `ν`: `τ = 3ν + 1/2`, `ω = 1/τ`.  The buffers are allocated by `init`.
    pub fn new(nx: usize, ny: usize, nz: usize, viscosity: T) -> (r: Self)
        requires
            total_ops::<T>(),
        ensures
            r.wf(),
            r.width() == nx,
            r.height() == ny,
            r.depth() == nz,
            exact_arith::<T>() ==> r.tau_value() == relaxation_time(viscosity),
            exact_arith::<T>() ==> r.omega_value() == quot(lit::<T>(1), relaxation_time(viscosity)),
            !r.is_ready(),
            r.step_count() == 0,
            r.solid_mask() == Seq::<bool>::empty(),
            r.incoming() == Seq::<T>::empty(),
    {
        let three: T = literal(3);
        let half = literal::<T>(1) / literal(2);
        let tau = three * viscosity + half;
        LbmSolver {
            nx,
            ny,
            nz,
            tau,
            omega: literal::<T>(1) / tau,
            f_in: Vec::new(),
            f_out: Vec::new(),
            rho: Vec::new(),
            u_x: Vec::new(),
            u_y: Vec::new(),
            u_z: Vec::new(),
            is_boundary: Vec::new(),
            timestep: 0,
            initialized: false,
        }
    }

    /// Replaces the solid-cell mask when `mask` has one entry per cell
    /// (`mask[idx]` for `idx = (z * ny + y) * nx + x`); a mask of any other
    /// length is ignored.
    pub fn set_boundary_mask(&mut self, mask: Vec<bool>)
        requires
            old(self).wf(),
            old(self).dims_fit(),
        ensures
            final(self).wf(),
            mask@.len() == old(self).cells() ==> final(self).solid_mask() == mask@,
            mask@.len() != old(self).cells() ==> final(self).solid_mask() == old(self).solid_mask(),
            final(self).width() == old(self).width(),
            final(self).height() == old(self).height(),
            final(self).depth() == old(self).depth(),
            final(self).incoming() == old(self).incoming(),
            final(self).streamed() == old(self).streamed(),
            final(self).density_field() == old(self).density_field(),
            final(self).velocity_field() == old(self).velocity_field(),
            final(self).is_ready() == old(self).is_ready(),
            final(self).step_count() == old(self).step_count(),
            final(self).tau_value() == old(self).tau_value(),
            final(self).omega_value() == old(self).omega_value(),
    {
        let expected = self.nx * self.ny * self.nz;
        if mask.len() == expected {
            self.is_boundary = mask;
        }
    }

    /// Flat index of cell `(x, y, z)`.
    pub fn get_index(&self, x: usize, y: usize, z: usize) -> (r: usize)
        requires
            x < self.width(),
            y < self.height(),
            z < self.depth(),
            self.cells() <= usize::MAX,
        ensures
            r == grid_index(x as int, y as int, z as int, self.width() as int, self.height() as int),
            r < self.cells(),
    {
        cell_index(x, y, z, self.nx, self.ny, self.nz)
    }
}

} // verus!

verus! {

/// A sequence of `n` copies of `v`.
pub open spec fn filled<A>(n: nat, v: A) -> Seq<A> {
    Seq::new(n, |k: int| v)
}

/// A vector of `n` copies of `v`.
fn filled_vec<A: Copy>(n: usize, v: A) -> (r: Vec<A>)
    ensures
        r@ == filled(n as nat, v),
{
    let mut r: Vec<A> = Vec::new();
    let mut k: usize = 0;
    while k < n
        invariant
            k <= n,
            r@ == filled(k as nat, v),
        decreases n - k,
    {
        r.push(v);
        k = k + 1;
        assert(r@ =~= filled(k as nat, v));
    }
    r
}

impl<T: FloatPrecision> LbmSolver<T> {
    /// Allocates every buffer and sets the state at rest: `f_i = w_i` in
    /// every cell (unit density, zero velocity), empty outgoing buffer,
    /// density one, velocity zero, every cell fluid.
    pub fn init(&mut self)
        requires
            old(self).wf(),
            total_ops::<T>(),
            d3q19::Q * old(self).cells() <= usize::MAX,
            old(self).width() * old(self).height() <= usize::MAX,
        ensures
            final(self).wf(),
            final(self).is_ready(),
            exact_arith::<T>() ==> final(self).incoming() == rest_populations::<T>(old(self).cells() as int),
            exact_arith::<T>() ==> final(self).streamed() == filled((d3q19::Q * old(self).cells()) as nat, lit::<T>(0)),
            exact_arith::<T>() ==> final(self).density_field() == filled(old(self).cells(), lit::<T>(1)),
            exact_arith::<T>() ==> final(self).velocity_field() == (
                filled(old(self).cells(), lit::<T>(0)),
                filled(old(self).cells(), lit::<T>(0)),
                filled(old(self).cells(), lit::<T>(0)),
            ),
            final(self).solid_mask() == filled(old(self).cells(), false),
            final(self).width() == old(self).width(),
            final(self).height() == old(self).height(),
            final(self).depth() == old(self).depth(),
            final(self).step_count() == old(self).step_count(),
            final(self).tau_value() == old(self).tau_value(),
            final(self).omega_value() == old(self).omega_value(),
    {
        proof {
            assert(self.cells() <= usize::MAX) by (nonlinear_arith)
                requires
                    d3q19::Q * self.cells() <= usize::MAX,
            ;
        }
        let n = self.nx * self.ny * self.nz;
        let ghost gn = n as int;
        let mut f_in: Vec<T> = Vec::new();
        let mut i: usize = 0;
        while i < d3q19::Q
            invariant
                total_ops::<T>(),
                i <= d3q19::Q,
                d3q19::Q * n <= usize::MAX,
                n == gn,
                f_in@.len() == i * gn,
                exact_arith::<T>() ==> f_in@ =~= rest_populations::<T>(gn).take(i * gn),
            decreases d3q19::Q - i,
        {
            proof {
                assert(i * n + n <= d3q19::Q * n) by (nonlinear_arith)
                    requires
                        i < d3q19::Q,
                        0 <= n,
                ;
            }
            let w = literal::<T>(d3q19::W_NUMERATOR[i] as i8) / literal::<T>(36);
            let mut cell: usize = 0;
            while cell < n
                invariant
                    i < d3q19::Q,
                    cell <= n,
                    n == gn,
                    i * n + n <= d3q19::Q * n,
                    exact_arith::<T>() ==> w == lattice_weight::<T>(i as int),
                    f_in@.len() == i * gn + cell,
                    exact_arith::<T>() ==> f_in@ =~= rest_populations::<T>(gn).take(i * gn + cell),
                decreases n - cell,
            {
                proof {
                    let k = i * gn + cell;
                    assert(k / gn == i) by (nonlinear_arith)
                        requires
                            k == i * gn + cell,
                            0 <= cell < gn,
                            0 <= i,
                    ;
                }
                f_in.push(w);
                cell = cell + 1;
                proof {
                    if exact_arith::<T>() {
                        assert(f_in@ =~= rest_populations::<T>(gn).take(i * gn + cell));
                    }
                }
            }
            i = i + 1;
            assert((i - 1) * gn + gn == i * gn) by (nonlinear_arith);
        }
        proof {
            if exact_arith::<T>() {
                assert(f_in@ =~= rest_populations::<T>(gn));
            }
        }
        self.f_in = f_in;
        self.f_out = filled_vec(d3q19::Q * n, literal(0));
        self.rho = filled_vec(n, literal(1));
        self.u_x = filled_vec(n, literal(0));
        self.u_y = filled_vec(n, literal(0));
        self.u_z = filled_vec(n, literal(0));
        self.is_boundary = filled_vec(n, false);
        self.initialized = true;
    }

    /// Starts a step: refused with `NotInitialized` before `init`; otherwise
    /// every outgoing population is reset to zero.
    pub fn begin_step(&mut self) -> (r: Result<(), NotInitialized>)
        requires
            old(self).wf(),
        ensures
            final(self).wf(),
            r is Err <==> !old(self).is_ready(),
            r is Err ==> *final(self) == *old(self),
            r is Ok && exact_arith::<T>() ==> final(self).streamed() == filled(
                (d3q19::Q * old(self).cells()) as nat,
                lit::<T>(0),
            ),
            final(self).streamed().len() == old(self).streamed().len(),
            final(self).incoming() == old(self).incoming(),
            final(self).density_field() == old(self).density_field(),
            final(self).velocity_field() == old(self).velocity_field(),
            final(self).solid_mask() == old(self).solid_mask(),
            final(self).width() == old(self).width(),
            final(self).height() == old(self).height(),
            final(self).depth() == old(self).depth(),
            final(self).is_ready() == old(self).is_ready(),
            final(self).step_count() == old(self).step_count(),
            final(self).tau_value() == old(self).tau_value(),
            final(self).omega_value() == old(self).omega_value(),
    {
        if !self.initialized {
            return Err(NotInitialized);
        }
        let mut out: Vec<T> = Vec::new();
        std::mem::swap(&mut out, &mut self.f_out);
        let len = out.len();
        let zero = literal::<T>(0);
        let mut k: usize = 0;
        while k < len
            invariant
                k <= len,
                len == out@.len(),
                exact_arith::<T>() ==> zero == lit::<T>(0),
                exact_arith::<T>() ==> forall|j: int| 0 <= j < k ==> out@[j] == lit::<T>(0),
            decreases len - k,
        {
            out.set(k, zero);
            k = k + 1;
        }
        proof {
            if exact_arith::<T>() {
                assert(out@ =~= filled(len as nat, lit::<T>(0)));
            }
        }
        self.f_out = out;
        Ok(())
    }

    /// Completes a step: the streamed populations become the incoming ones
    /// (the buffers are swapped) and the step counter advances.
    pub fn finish_step(&mut self) -> (r: u64)
        requires
            old(self).wf(),
            old(self).is_ready(),
            old(self).step_count() < u64::MAX,
        ensures
            final(self).wf(),
            r == old(self).step_count() + 1,
            final(self).step_count() == r,
            final(self).incoming() == old(self).streamed(),
            final(self).streamed() == old(self).incoming(),
            final(self).density_field() == old(self).density_field(),
            final(self).velocity_field() == old(self).velocity_field(),
            final(self).solid_mask() == old(self).solid_mask(),
            final(self).width() == old(self).width(),
            final(self).height() == old(self).height(),
            final(self).depth() == old(self).depth(),
            final(self).is_ready(),
            final(self).tau_value() == old(self).tau_value(),
            final(self).omega_value() == old(self).omega_value(),
    {
        std::mem::swap(&mut self.f_in, &mut self.f_out);
        self.timestep = self.timestep + 1;
        self.timestep
    }

    /// An initialised solver holds `Q` populations per cell in each of its
    /// two population buffers, and one density, velocity and solid flag per
    /// cell; its grid dimensions multiply without overflow, so it meets the
    /// precondition of [`LbmSolver::set_boundary_mask`].
    pub proof fn lemma_buffer_sizes(&self)
        requires
            self.wf(),
            self.is_ready(),
        ensures
            self.incoming().len() == d3q19::Q * self.cells(),
            self.streamed().len() == d3q19::Q * self.cells(),
            self.density_field().len() == self.cells(),
            self.velocity_field().0.len() == self.cells(),
            self.velocity_field().1.len() == self.cells(),
            self.velocity_field().2.len() == self.cells(),
            self.solid_mask().len() == self.cells(),
            d3q19::Q * self.cells() <= usize::MAX,
            self.dims_fit(),
    {
    }

    /// Number of cells of an initialised solver.
    pub(crate) fn cell_count(&self) -> (r: usize)
        requires
            self.wf(),
            self.is_ready(),
        ensures
            r == self.cells(),
            d3q19::Q * r <= usize::MAX,
    {
        self.nx * self.ny * self.nz
    }

    /// Incoming population of direction `i` at cell `idx`.
    pub fn population(&self, i: usize, idx: usize) -> (r: T)
        requires
            self.wf(),
            self.is_ready(),
            i < d3q19::Q,
            idx < self.cells(),
        ensures
            r == self.incoming()[i * self.cells() + idx],
    {
        let n = self.nx * self.ny * self.nz;
        proof {
            assert(i * n + idx < d3q19::Q * n) by (nonlinear_arith)
                requires
                    i < d3q19::Q,
                    idx < n,
            ;
        }
        self.f_in[i * n + idx]
    }

    /// Streamed population of direction `i` at cell `idx`.
    pub fn outgoing(&self, i: usize, idx: usize) -> (r: T)
        requires
            self.wf(),
            self.is_ready(),
            i < d3q19::Q,
            idx < self.cells(),
        ensures
            r == self.streamed()[i * self.cells() + idx],
    {
        let n = self.nx * self.ny * self.nz;
        proof {
            assert(i * n + idx < d3q19::Q * n) by (nonlinear_arith)
                requires
                    i < d3q19::Q,
                    idx < n,
            ;
        }
        self.f_out[i * n + idx]
    }

    /// Stores the streamed population of direction `i` at cell `idx`.
    pub fn set_outgoing(&mut self, i: usize, idx: usize, value: T)
        requires
            old(self).wf(),
            old(self).is_ready(),
            i < d3q19::Q,
            idx < old(self).cells(),
        ensures
            final(self).wf(),
            final(self).streamed() == old(self).streamed().update(i * old(self).cells() + idx, value),
            final(self).incoming() == old(self).incoming(),
            final(self).density_field() == old(self).density_field(),
            final(self).velocity_field() == old(self).velocity_field(),
            final(self).solid_mask() == old(self).solid_mask(),
            final(self).width() == old(self).width(),
            final(self).height() == old(self).height(),
            final(self).depth() == old(self).depth(),
            final(self).is_ready(),
            final(self).step_count() == old(self).step_count(),
            final(self).tau_value() == old(self).tau_value(),
            final(self).omega_value() == old(self).omega_value(),
    {
        let n = self.nx * self.ny * self.nz;
        proof {
            assert(i * n + idx < d3q19::Q * n) by (nonlinear_arith)
                requires
                    i < d3q19::Q,
                    idx < n,
            ;
        }
        self.f_out.set(i * n + idx, value);
    }

    /// Stores the macroscopic density and velocity of cell `idx`.
    pub fn set_macroscopic(&mut self, idx: usize, rho: T, ux: T, uy: T, uz: T)
        requires
            old(self).wf(),
            old(self).is_ready(),
            idx < old(self).cells(),
        ensures
            final(self).wf(),
            final(self).density_field() == old(self).density_field().update(idx as int, rho),
            final(self).velocity_field() == (
                old(self).velocity_field().0.update(idx as int, ux),
                old(self).velocity_field().1.update(idx as int, uy),
                old(self).velocity_field().2.update(idx as int, uz),
            ),
            final(self).incoming() == old(self).incoming(),
            final(self).streamed() == old(self).streamed(),
            final(self).solid_mask() == old(self).solid_mask(),
            final(self).width() == old(self).width(),
            final(self).height() == old(self).height(),
            final(self).depth() == old(self).depth(),
            final(self).is_ready(),
            final(self).step_count() == old(self).step_count(),
            final(self).tau_value() == old(self).tau_value(),
            final(self).omega_value() == old(self).omega_value(),
    {
        self.rho.set(idx, rho);
        self.u_x.set(idx, ux);
        self.u_y.set(idx, uy);
        self.u_z.set(idx, uz);
    }

    /// Density of cell `idx`.
    pub fn density(&self, idx: usize) -> (r: T)
        requires
            self.wf(),
            self.is_ready(),
            idx < self.cells(),
        ensures
            r == self.density_field()[idx as int],
    {
        self.rho[idx]
    }

    /// Velocity `(ux, uy, uz)` of cell `idx`.
    pub fn velocity(&self, idx: usize) -> (r: (T, T, T))
        requires
            self.wf(),
            self.is_ready(),
            idx < self.cells(),
        ensures
            r == (
                self.velocity_field().0[idx as int],
                self.velocity_field().1[idx as int],
                self.velocity_field().2[idx as int],
            ),
    {
        (self.u_x[idx], self.u_y[idx], self.u_z[idx])
    }

    /// The density field, one value per cell.
    pub fn densities(&self) -> (r: &[T])
        ensures
            r@ == self.density_field(),
    {
        self.rho.as_slice()
    }

    /// The x-velocity field, one value per cell.
    pub fn velocities_x(&self) -> (r: &[T])
        ensures
            r@ == self.velocity_field().0,
    {
        self.u_x.as_slice()
    }

    /// The y-velocity field, one value per cell.
    pub fn velocities_y(&self) -> (r: &[T])
        ensures
            r@ == self.velocity_field().1,
    {
        self.u_y.as_slice()
    }

    /// The z-velocity field, one value per cell.
    pub fn velocities_z(&self) -> (r: &[T])
        ensures
            r@ == self.velocity_field().2,
    {
        self.u_z.as_slice()
    }

    /// Whether cell `idx` is solid.
    pub fn is_solid(&self, idx: usize) -> (r: bool)
        requires
            self.wf(),
            self.is_ready(),
            idx < self.cells(),
        ensures
            r == self.solid_mask()[idx as int],
    {
        self.is_boundary[idx]
    }

    /// Grid dimensions `(nx, ny, nz)`.
    pub fn dims(&self) -> (r: (usize, usize, usize))
        ensures
            r == (self.width() as usize, self.height() as usize, self.depth() as usize),
    {
        (self.nx, self.ny, self.nz)
    }

    /// Relaxation frequency `ω`.
    pub fn omega(&self) -> (r: T)
        ensures
            r == self.omega_value(),
    {
        self.omega
    }

    /// Number of completed steps.
    pub fn timestep(&self) -> (r: u64)
        ensures
            r == self.step_count(),
    {
        self.timestep
    }

    /// Whether the solver is initialised.
    pub fn is_initialized(&self) -> (r: bool)
        ensures
            r == self.is_ready(),
    {
        self.initialized
    }

    /// Marks the solver as no longer initialised.
    pub fn finalize(&mut self)
        requires
            old(self).wf(),
        ensures
            final(self).wf(),
            !final(self).is_ready(),
            final(self).incoming() == old(self).incoming(),
            final(self).streamed() == old(self).streamed(),
            final(self).density_field() == old(self).density_field(),
            final(self).velocity_field() == old(self).velocity_field(),
            final(self).tau_value() == old(self).tau_value(),
            final(self).omega_value() == old(self).omega_value(),
            final(self).solid_mask() == old(self).solid_mask(),
            final(self).width() == old(self).width(),
            final(self).height() == old(self).height(),
            final(self).depth() == old(self).depth(),
            final(self).step_count() == old(self).step_count(),
    {
        self.initialized = false;
    }

    /// Solver name.
    pub fn name(&self) -> (r: &'static str)
        ensures
            r@ == "LBM D3Q19"@,
    {
        "LBM D3Q19"
    }
}

} // verus!

verus! {

/// Velocity components of D3Q19 lie in {-1, 0, 1} and opposites are in range.
proof fn lemma_d3q19_direction(i: int)
    requires
        0 <= i < d3q19::Q,
    ensures
        -1 <= d3q19::E[i][0] <= 1,
        -1 <= d3q19::E[i][1] <= 1,
        -1 <= d3q19::E[i][2] <= 1,
        d3q19::OPPOSITE[i] < d3q19::Q,
{
    d3q19::lemma_unit_components(i, 0);
    d3q19::lemma_unit_components(i, 1);
    d3q19::lemma_unit_components(i, 2);
    d3q19::lemma_opposite_involution(i);
}

impl<T: FloatPrecision> LbmSolver<T> {
    /// Neighbour of `(x, y, z)` along direction `i` with periodic `x` and
    /// `z`, and its flat index; `yn` is the unwrapped `y + e_y`, given in range.
    fn neighbour_index(&self, x: usize, yn: usize, z: usize, i: usize) -> (r: usize)
        requires
            self.wf(),
            self.is_ready(),
            x < self.width(),
            yn < self.height(),
            z < self.depth(),
            i < d3q19::Q,
        ensures
            r == grid_index(
                wrap(x as int, d3q19::E[i as int][0] as int, self.width() as int),
                yn as int,
                wrap(z as int, d3q19::E[i as int][2] as int, self.depth() as int),
                self.width() as int,
                self.height() as int,
            ),
            r < self.cells(),
    {
        proof {
            lemma_d3q19_direction(i as int);
        }
        let xn = periodic_shift(x, d3q19::E[i][0], self.nx);
        let zn = periodic_shift(z, d3q19::E[i][2], self.nz);
        cell_index(xn, yn, zn, self.nx, self.ny, self.nz)
    }

    /// Route of direction `i` from cell `(x, y, z)` in the fully periodic
    /// step: to the periodic neighbour, or bounced back when it is solid.
    pub fn route_periodic(&self, x: usize, y: usize, z: usize, i: usize) -> (r: Route)
        requires
            self.wf(),
            self.is_ready(),
            x < self.width(),
            y < self.height(),
            z < self.depth(),
            i < d3q19::Q,
        ensures
            r == periodic_route_spec(
                x as int, y as int, z as int, i as int,
                self.width() as int, self.height() as int, self.depth() as int,
                self.solid_mask(),
            ),
            r matches Route::Stream { cell } ==> cell < self.cells(),
            r matches Route::BounceBack { dir } ==> dir < d3q19::Q,
            !(r is MovingWall),
    {
        proof {
            lemma_d3q19_direction(i as int);
        }
        let yn = periodic_shift(y, d3q19::E[i][1], self.ny);
        let t = self.neighbour_index(x, yn, z, i);
        if self.is_boundary[t] {
            Route::BounceBack { dir: d3q19::OPPOSITE[i] }
        } else {
            Route::Stream { cell: t }
        }
    }

    /// Route of direction `i` from `(x, y, z)` between no-slip walls at
    /// `y = 0` and `y = ny - 1` (periodic `x` and `z`): bounced back when it
    /// leaves through a wall or meets a solid cell.
    pub fn route_channel(&self, x: usize, y: usize, z: usize, i: usize) -> (r: Route)
        requires
            self.wf(),
            self.is_ready(),
            x < self.width(),
            y < self.height(),
            z < self.depth(),
            i < d3q19::Q,
        ensures
            r == channel_route_spec(
                x as int, y as int, z as int, i as int,
                self.width() as int, self.height() as int, self.depth() as int,
                self.solid_mask(),
            ),
            r matches Route::Stream { cell } ==> cell < self.cells(),
            r matches Route::BounceBack { dir } ==> dir < d3q19::Q,
            !(r is MovingWall),
    {
        proof {
            lemma_d3q19_direction(i as int);
        }
        let ey = d3q19::E[i][1];
        if (ey < 0 && y == 0) || (ey > 0 && y + 1 == self.ny) {
            return Route::BounceBack { dir: d3q19::OPPOSITE[i] };
        }
        let yn: usize = if ey > 0 {
            y + 1
        } else if ey < 0 {
            y - 1
        } else {
            y
        };
        let t = self.neighbour_index(x, yn, z, i);
        if self.is_boundary[t] {
            Route::BounceBack { dir: d3q19::OPPOSITE[i] }
        } else {
            Route::Stream { cell: t }
        }
    }

    /// Route of direction `i` from `(x, y, z)` with a no-slip wall at
    /// `y = 0` and a lid moving along `x` at `y = ny - 1` (periodic `x` and
    /// `z`): bounced back at the wall or a solid cell, bounced back with the
    /// moving-wall correction at the lid.
    pub fn route_lid(&self, x: usize, y: usize, z: usize, i: usize) -> (r: Route)
        requires
            self.wf(),
            self.is_ready(),
            x < self.width(),
            y < self.height(),
            z < self.depth(),
            i < d3q19::Q,
        ensures
            r == lid_route_spec(
                x as int, y as int, z as int, i as int,
                self.width() as int, self.height() as int, self.depth() as int,
                self.solid_mask(),
            ),
            r matches Route::Stream { cell } ==> cell < self.cells(),
            r matches Route::BounceBack { dir } ==> dir < d3q19::Q,
            r matches Route::MovingWall { dir } ==> dir < d3q19::Q,
    {
        proof {
            lemma_d3q19_direction(i as int);
        }
        let ey = d3q19::E[i][1];
        if ey < 0 && y == 0 {
            return Route::BounceBack { dir: d3q19::OPPOSITE[i] };
        }
        if ey > 0 && y + 1 == self.ny {
            return Route::MovingWall { dir: d3q19::OPPOSITE[i] };
        }
        let yn: usize = if ey > 0 {
            y + 1
        } else if ey < 0 {
            y - 1
        } else {
            y
        };
        let t = self.neighbour_index(x, yn, z, i);
        if self.is_boundary[t] {
            Route::BounceBack { dir: d3q19::OPPOSITE[i] }
        } else {
            Route::Stream { cell: t }
        }
    }
}

} // verus!

verus! {

/// The slot `(direction, cell)` that a population of direction `i` leaving
/// cell `c` lands in when it follows route `r`.
pub open spec fn landing_slot(c: int, i: int, r: Route) -> (int, int) {
    match r {
        Route::Stream { cell } => (i, cell as int),
        Route::BounceBack { dir } => (dir as int, c),
        Route::MovingWall { dir } => (dir as int, c),
    }
}

/// The periodic neighbour of `(x, y, z)` along direction `i`.
pub open spec fn periodic_neighbour(x: int, y: int, z: int, i: int, nx: int, ny: int, nz: int) -> (int, int, int) {
    (
        wrap(x, d3q19::E[i][0] as int, nx),
        wrap(y, d3q19::E[i][1] as int, ny),
        wrap(z, d3q19::E[i][2] as int, nz),
    )
}

/// Going to the periodic neighbour along `i` and then along the opposite
/// direction returns to the start.
pub proof fn lemma_periodic_neighbour_inverse(x: int, y: int, z: int, i: int, nx: int, ny: int, nz: int)
    requires
        0 <= x < nx,
        0 <= y < ny,
        0 <= z < nz,
        0 <= i < d3q19::Q,
    ensures
        ({
            let (a, b, c) = periodic_neighbour(x, y, z, i, nx, ny, nz);
            &&& 0 <= a < nx
            &&& 0 <= b < ny
            &&& 0 <= c < nz
            &&& periodic_neighbour(a, b, c, d3q19::OPPOSITE[i] as int, nx, ny, nz) == (x, y, z)
        }),
{
    lemma_d3q19_direction(i);
    d3q19::lemma_opposite_negates(i);
    lemma_wrap_inverse(x, d3q19::E[i][0] as int, nx);
    lemma_wrap_inverse(y, d3q19::E[i][1] as int, ny);
    lemma_wrap_inverse(z, d3q19::E[i][2] as int, nz);
}

/// Streaming in the periodic step moves every population of a fluid cell to
/// its own slot: two different (cell, direction) pairs of fluid cells never
/// land in the same slot, so the streamed populations of the fluid are a
/// rearrangement of its post-collision populations.
pub proof fn lemma_periodic_streaming_injective(
    x1: int, y1: int, z1: int, i1: int,
    x2: int, y2: int, z2: int, i2: int,
    nx: int, ny: int, nz: int, solid: Seq<bool>,
)
    requires
        0 <= x1 < nx, 0 <= y1 < ny, 0 <= z1 < nz, 0 <= i1 < d3q19::Q,
        0 <= x2 < nx, 0 <= y2 < ny, 0 <= z2 < nz, 0 <= i2 < d3q19::Q,
        nx * ny * nz <= usize::MAX,
        solid.len() == nx * ny * nz,
        !solid[grid_index(x1, y1, z1, nx, ny)],
        !solid[grid_index(x2, y2, z2, nx, ny)],
        (x1, y1, z1, i1) != (x2, y2, z2, i2),
    ensures
        landing_slot(grid_index(x1, y1, z1, nx, ny), i1, periodic_route_spec(x1, y1, z1, i1, nx, ny, nz, solid))
            != landing_slot(grid_index(x2, y2, z2, nx, ny), i2, periodic_route_spec(x2, y2, z2, i2, nx, ny, nz, solid)),
{
    let c1 = grid_index(x1, y1, z1, nx, ny);
    let c2 = grid_index(x2, y2, z2, nx, ny);
    let (a1, b1, d1) = periodic_neighbour(x1, y1, z1, i1, nx, ny, nz);
    let (a2, b2, d2) = periodic_neighbour(x2, y2, z2, i2, nx, ny, nz);
    lemma_periodic_neighbour_inverse(x1, y1, z1, i1, nx, ny, nz);
    lemma_periodic_neighbour_inverse(x2, y2, z2, i2, nx, ny, nz);
    lemma_grid_index_bounds(x1, y1, z1, nx, ny, nz);
    lemma_grid_index_bounds(x2, y2, z2, nx, ny, nz);
    lemma_grid_index_bounds(a1, b1, d1, nx, ny, nz);
    lemma_grid_index_bounds(a2, b2, d2, nx, ny, nz);
    d3q19::lemma_opposite_involution(i1);
    d3q19::lemma_opposite_involution(i2);
    let t1 = grid_index(a1, b1, d1, nx, ny);
    let t2 = grid_index(a2, b2, d2, nx, ny);
    let s1 = landing_slot(c1, i1, periodic_route_spec(x1, y1, z1, i1, nx, ny, nz, solid));
    let s2 = landing_slot(c2, i2, periodic_route_spec(x2, y2, z2, i2, nx, ny, nz, solid));
    if s1 == s2 {
        if !solid[t1] && !solid[t2] {
            // both stream in the same direction into the same cell
            assert(i1 == i2);
            lemma_grid_index_injective(a1, b1, d1, a2, b2, d2, nx, ny, nz);
            assert((x1, y1, z1) == (x2, y2, z2));
        } else if solid[t1] && solid[t2] {
            // both bounce back into the same cell
            lemma_grid_index_injective(x1, y1, z1, x2, y2, z2, nx, ny, nz);
            assert(i1 == i2);
        } else if !solid[t1] {
            // 1 streams into cell 2, which bounces back in the opposite direction
            lemma_grid_index_injective(a1, b1, d1, x2, y2, z2, nx, ny, nz);
            assert(i2 == d3q19::OPPOSITE[i1] as int);
            assert(periodic_neighbour(x2, y2, z2, i2, nx, ny, nz) == (x1, y1, z1));
            assert(false);
        } else {
            lemma_grid_index_injective(a2, b2, d2, x1, y1, z1, nx, ny, nz);
            assert(i1 == d3q19::OPPOSITE[i2] as int);
            assert(periodic_neighbour(x1, y1, z1, i1, nx, ny, nz) == (x2, y2, z2));
            assert(false);
        }
    }
}

} // verus!

verus! {

/// The lid step sends every population to the same slot as the channel
/// step: the lid reflects like a wall, only with a corrected value.
pub proof fn lemma_lid_slots_match_channel(
    x: int, y: int, z: int, i: int, nx: int, ny: int, nz: int, solid: Seq<bool>,
)
    ensures
        landing_slot(grid_index(x, y, z, nx, ny), i, lid_route_spec(x, y, z, i, nx, ny, nz, solid))
            == landing_slot(grid_index(x, y, z, nx, ny), i, channel_route_spec(x, y, z, i, nx, ny, nz, solid)),
{
}

/// Streaming between the no-slip walls of the channel moves every
/// population of a fluid cell to its own slot: two different (cell,
/// direction) pairs of fluid cells never land in the same slot.
pub proof fn lemma_channel_streaming_injective(
    x1: int, y1: int, z1: int, i1: int,
    x2: int, y2: int, z2: int, i2: int,
    nx: int, ny: int, nz: int, solid: Seq<bool>,
)
    requires
        0 <= x1 < nx, 0 <= y1 < ny, 0 <= z1 < nz, 0 <= i1 < d3q19::Q,
        0 <= x2 < nx, 0 <= y2 < ny, 0 <= z2 < nz, 0 <= i2 < d3q19::Q,
        nx * ny * nz <= usize::MAX,
        solid.len() == nx * ny * nz,
        !solid[grid_index(x1, y1, z1, nx, ny)],
        !solid[grid_index(x2, y2, z2, nx, ny)],
        (x1, y1, z1, i1) != (x2, y2, z2, i2),
    ensures
        landing_slot(grid_index(x1, y1, z1, nx, ny), i1, channel_route_spec(x1, y1, z1, i1, nx, ny, nz, solid))
            != landing_slot(grid_index(x2, y2, z2, nx, ny), i2, channel_route_spec(x2, y2, z2, i2, nx, ny, nz, solid)),
{
    let c1 = grid_index(x1, y1, z1, nx, ny);
    let c2 = grid_index(x2, y2, z2, nx, ny);
    lemma_d3q19_direction(i1);
    lemma_d3q19_direction(i2);
    d3q19::lemma_opposite_involution(i1);
    d3q19::lemma_opposite_involution(i2);
    d3q19::lemma_opposite_negates(i1);
    d3q19::lemma_opposite_negates(i2);
    lemma_wrap_inverse(x1, d3q19::E[i1][0] as int, nx);
    lemma_wrap_inverse(z1, d3q19::E[i1][2] as int, nz);
    lemma_wrap_inverse(x2, d3q19::E[i2][0] as int, nx);
    lemma_wrap_inverse(z2, d3q19::E[i2][2] as int, nz);
    let a1 = wrap(x1, d3q19::E[i1][0] as int, nx);
    let b1 = y1 + d3q19::E[i1][1] as int;
    let d1 = wrap(z1, d3q19::E[i1][2] as int, nz);
    let a2 = wrap(x2, d3q19::E[i2][0] as int, nx);
    let b2 = y2 + d3q19::E[i2][1] as int;
    let d2 = wrap(z2, d3q19::E[i2][2] as int, nz);
    lemma_grid_index_bounds(x1, y1, z1, nx, ny, nz);
    lemma_grid_index_bounds(x2, y2, z2, nx, ny, nz);
    let r1 = channel_route_spec(x1, y1, z1, i1, nx, ny, nz, solid);
    let r2 = channel_route_spec(x2, y2, z2, i2, nx, ny, nz, solid);
    if landing_slot(c1, i1, r1) == landing_slot(c2, i2, r2) {
        if r1 is Stream && r2 is Stream {
            lemma_grid_index_bounds(a1, b1, d1, nx, ny, nz);
            lemma_grid_index_bounds(a2, b2, d2, nx, ny, nz);
            lemma_grid_index_injective(a1, b1, d1, a2, b2, d2, nx, ny, nz);
            assert(i1 == i2);
            assert((x1, y1, z1) == (x2, y2, z2));
        } else if !(r1 is Stream) && !(r2 is Stream) {
            lemma_grid_index_injective(x1, y1, z1, x2, y2, z2, nx, ny, nz);
            assert(i1 == i2);
        } else if r1 is Stream {
            lemma_grid_index_bounds(a1, b1, d1, nx, ny, nz);
            lemma_grid_index_injective(a1, b1, d1, x2, y2, z2, nx, ny, nz);
            assert(i2 == d3q19::OPPOSITE[i1] as int);
            assert(b2 == y1 && a2 == x1 && d2 == z1);
            assert(false);
        } else {
            lemma_grid_index_bounds(a2, b2, d2, nx, ny, nz);
            lemma_grid_index_injective(a2, b2, d2, x1, y1, z1, nx, ny, nz);
            assert(i1 == d3q19::OPPOSITE[i2] as int);
            assert(b1 == y2 && a1 == x2 && d1 == z2);
            assert(false);
        }
    }
}

/// Streaming under the moving lid moves every population of a fluid cell to
/// its own slot, as in the channel.
pub proof fn lemma_lid_streaming_injective(
    x1: int, y1: int, z1: int, i1: int,
    x2: int, y2: int, z2: int, i2: int,
    nx: int, ny: int, nz: int, solid: Seq<bool>,
)
    requires
        0 <= x1 < nx, 0 <= y1 < ny, 0 <= z1 < nz, 0 <= i1 < d3q19::Q,
        0 <= x2 < nx, 0 <= y2 < ny, 0 <= z2 < nz, 0 <= i2 < d3q19::Q,
        nx * ny * nz <= usize::MAX,
        solid.len() == nx * ny * nz,
        !solid[grid_index(x1, y1, z1, nx, ny)],
        !solid[grid_index(x2, y2, z2, nx, ny)],
        (x1, y1, z1, i1) != (x2, y2, z2, i2),
    ensures
        landing_slot(grid_index(x1, y1, z1, nx, ny), i1, lid_route_spec(x1, y1, z1, i1, nx, ny, nz, solid))
            != landing_slot(grid_index(x2, y2, z2, nx, ny), i2, lid_route_spec(x2, y2, z2, i2, nx, ny, nz, solid)),
{
    lemma_lid_slots_match_channel(x1, y1, z1, i1, nx, ny, nz, solid);
    lemma_lid_slots_match_channel(x2, y2, z2, i2, nx, ny, nz, solid);
    lemma_channel_streaming_injective(x1, y1, z1, i1, x2, y2, z2, i2, nx, ny, nz, solid);
}

} // verus!

verus! {

/// The moving lid reflects a population exactly when the population leaves
/// through the top of the grid (`y + e_y > ny - 1`).  Every other move of the
/// lid step (reflection off the bottom wall or off a solid neighbour,
/// streaming to a fluid neighbour) is that of the channel step with two
/// plain no-slip walls, and a population leaving through the bottom is
/// reflected into the opposite direction without correction.
pub proof fn lemma_lid_corrects_only_at_the_top(
    x: int, y: int, z: int, i: int, nx: int, ny: int, nz: int, solid: Seq<bool>,
)
    requires
        0 <= i < d3q19::Q,
        0 <= y < ny,
    ensures
        (lid_route_spec(x, y, z, i, nx, ny, nz, solid) is MovingWall) <==> y + d3q19::E[i][1] > ny - 1,
        y + d3q19::E[i][1] <= ny - 1 ==> lid_route_spec(x, y, z, i, nx, ny, nz, solid)
            == channel_route_spec(x, y, z, i, nx, ny, nz, solid),
        y + d3q19::E[i][1] < 0 ==> lid_route_spec(x, y, z, i, nx, ny, nz, solid)
            == (Route::BounceBack { dir: d3q19::OPPOSITE[i] }),
        !(channel_route_spec(x, y, z, i, nx, ny, nz, solid) is MovingWall),
{
    lemma_d3q19_direction(i);
}

} // verus!
