//! D3Q19 velocity model: nineteen discrete velocities on a 3D lattice.
//!
//! The lattice weights are rational; they are stored exactly as numerators
//! over the common denominator [`W_DENOMINATOR`].
use vstd::prelude::*;

verus! {

/// Number of discrete velocities in D3Q19.
pub const Q: usize = 19;

/// Discrete velocity vectors: rest, six face neighbours, twelve edge
/// neighbours.
pub const E: [[i32; 3]; Q] = [
    [0, 0, 0],
    [1, 0, 0],
    [-1, 0, 0],
    [0, 1, 0],
    [0, -1, 0],
    [0, 0, 1],
    [0, 0, -1],
    [1, 1, 0],
    [-1, -1, 0],
    [1, -1, 0],
    [-1, 1, 0],
    [1, 0, 1],
    [-1, 0, -1],
    [1, 0, -1],
    [-1, 0, 1],
    [0, 1, 1],
    [0, -1, -1],
    [0, 1, -1],
    [0, -1, 1],
];

/// Common denominator of the lattice weights.
pub const W_DENOMINATOR: i32 = 36;

/// Lattice weight numerators: 1/3 at rest, 1/18 on faces, 1/36 on edges.
pub const W_NUMERATOR: [i32; Q] = [12, 2, 2, 2, 2, 2, 2, 1, 1, 1, 1, 1, 1, 1, 1, 1, 1, 1, 1];

/// `OPPOSITE[i]` is the index `j` with `eⱼ = −eᵢ`.
pub const OPPOSITE: [usize; Q] = [0, 2, 1, 4, 3, 6, 5, 8, 7, 10, 9, 12, 11, 14, 13, 16, 15, 18, 17];

/// Numerator of the squared lattice speed of sound, `cs² = 12/36 = 1/3`.
pub const CS2_NUMERATOR: i32 = 12;

/// `w * e` for a velocity component `e` in {-1, 0, 1}.
pub open spec fn unit_times(w: int, e: int) -> int {
    if e > 0 {
        w
    } else if e < 0 {
        -w
    } else {
        0
    }
}

/// `unit_times` is multiplication on the components that occur.
pub proof fn lemma_unit_times(w: int, e: int)
    requires
        -1 <= e <= 1,
    ensures
        unit_times(w, e) == w * e,
{
    assert(e == -1 ==> w * e == -w) by (nonlinear_arith);
    assert(e == 0 ==> w * e == 0) by (nonlinear_arith);
    assert(e == 1 ==> w * e == w) by (nonlinear_arith);
}

/// `Σ_{i<n} W_NUMERATOR[i] * eᵢ[a]^pa * eᵢ[b]^pb` for exponents in {0, 1}.
pub open spec fn moment(n: int, a: int, pa: bool, b: int, pb: bool) -> int
    decreases n,
{
    if n <= 0 {
        0
    } else {
        let i = n - 1;
        let fa: int = if pa { E[i][a] as int } else { 1 };
        let fb: int = if pb { E[i][b] as int } else { 1 };
        moment(n - 1, a, pa, b, pb) + unit_times(unit_times(W_NUMERATOR[i] as int, fa), fb)
    }
}

/// The opposite of the opposite of a direction is the direction itself.
pub proof fn lemma_opposite_involution(i: int)
    requires
        0 <= i < Q,
    ensures
        OPPOSITE[OPPOSITE[i] as int] as int == i,
        OPPOSITE[i] < Q,
{
    if i == 0 {
    } else if i == 1 {
    } else if i == 2 {
    } else if i == 3 {
    } else if i == 4 {
    } else if i == 5 {
    } else if i == 6 {
    } else if i == 7 {
    } else if i == 8 {
    } else if i == 9 {
    } else if i == 10 {
    } else if i == 11 {
    } else if i == 12 {
    } else if i == 13 {
    } else if i == 14 {
    } else if i == 15 {
    } else if i == 16 {
    } else if i == 17 {
    } else if i == 18 {
    }
}

/// The opposite direction has the negated velocity.
pub proof fn lemma_opposite_negates(i: int)
    requires
        0 <= i < Q,
    ensures
        E[OPPOSITE[i] as int][0] == -E[i][0],
        E[OPPOSITE[i] as int][1] == -E[i][1],
        E[OPPOSITE[i] as int][2] == -E[i][2],
{
    if i == 0 {
    } else if i == 1 {
    } else if i == 2 {
    } else if i == 3 {
    } else if i == 4 {
    } else if i == 5 {
    } else if i == 6 {
    } else if i == 7 {
    } else if i == 8 {
    } else if i == 9 {
    } else if i == 10 {
    } else if i == 11 {
    } else if i == 12 {
    } else if i == 13 {
    } else if i == 14 {
    } else if i == 15 {
    } else if i == 16 {
    } else if i == 17 {
    } else if i == 18 {
    }
}

/// Every velocity component is -1, 0 or 1.
pub proof fn lemma_unit_components(i: int, a: int)
    requires
        0 <= i < Q,
        0 <= a < 3,
    ensures
        -1 <= E[i][a] <= 1,
{
}

/// The table of velocities, entry by entry.
proof fn lemma_velocity_table()
    ensures
        E[0][0] == 0,
        E[0][1] == 0,
        E[0][2] == 0,
        E[1][0] == 1,
        E[1][1] == 0,
        E[1][2] == 0,
        E[2][0] == -1,
        E[2][1] == 0,
        E[2][2] == 0,
        E[3][0] == 0,
        E[3][1] == 1,
        E[3][2] == 0,
        E[4][0] == 0,
        E[4][1] == -1,
        E[4][2] == 0,
        E[5][0] == 0,
        E[5][1] == 0,
        E[5][2] == 1,
        E[6][0] == 0,
        E[6][1] == 0,
        E[6][2] == -1,
        E[7][0] == 1,
        E[7][1] == 1,
        E[7][2] == 0,
        E[8][0] == -1,
        E[8][1] == -1,
        E[8][2] == 0,
        E[9][0] == 1,
        E[9][1] == -1,
        E[9][2] == 0,
        E[10][0] == -1,
        E[10][1] == 1,
        E[10][2] == 0,
        E[11][0] == 1,
        E[11][1] == 0,
        E[11][2] == 1,
        E[12][0] == -1,
        E[12][1] == 0,
        E[12][2] == -1,
        E[13][0] == 1,
        E[13][1] == 0,
        E[13][2] == -1,
        E[14][0] == -1,
        E[14][1] == 0,
        E[14][2] == 1,
        E[15][0] == 0,
        E[15][1] == 1,
        E[15][2] == 1,
        E[16][0] == 0,
        E[16][1] == -1,
        E[16][2] == -1,
        E[17][0] == 0,
        E[17][1] == 1,
        E[17][2] == -1,
        E[18][0] == 0,
        E[18][1] == -1,
        E[18][2] == 1,
{
}

/// The table of weight numerators, entry by entry.
proof fn lemma_weight_table()
    ensures
        W_NUMERATOR[0] == 12,
        W_NUMERATOR[1] == 2,
        W_NUMERATOR[2] == 2,
        W_NUMERATOR[3] == 2,
        W_NUMERATOR[4] == 2,
        W_NUMERATOR[5] == 2,
        W_NUMERATOR[6] == 2,
        W_NUMERATOR[7] == 1,
        W_NUMERATOR[8] == 1,
        W_NUMERATOR[9] == 1,
        W_NUMERATOR[10] == 1,
        W_NUMERATOR[11] == 1,
        W_NUMERATOR[12] == 1,
        W_NUMERATOR[13] == 1,
        W_NUMERATOR[14] == 1,
        W_NUMERATOR[15] == 1,
        W_NUMERATOR[16] == 1,
        W_NUMERATOR[17] == 1,
        W_NUMERATOR[18] == 1,
{
}

/// The weights sum to one.
pub proof fn lemma_weights_sum_to_one()
    ensures
        moment(Q as int, 0, false, 0, false) == W_DENOMINATOR,
{
    lemma_velocity_table();
    lemma_weight_table();
    reveal_with_fuel(moment, 20);
}

/// First-moment isotropy `Σ wᵢ eᵢ = 0` along the three axes.
pub proof fn lemma_isotropy_first_moment()
    ensures
        moment(Q as int, 0, true, 0, false) == 0,
        moment(Q as int, 1, true, 0, false) == 0,
        moment(Q as int, 2, true, 0, false) == 0,
{
    lemma_velocity_table();
    lemma_weight_table();
    reveal_with_fuel(moment, 20);
}

/// Second-moment isotropy `Σ wᵢ eᵢₐ eᵢᵦ = cs² δₐᵦ`.
pub proof fn lemma_isotropy_second_moment()
    ensures
        moment(Q as int, 0, true, 0, true) == CS2_NUMERATOR,
        moment(Q as int, 1, true, 1, true) == CS2_NUMERATOR,
        moment(Q as int, 2, true, 2, true) == CS2_NUMERATOR,
        moment(Q as int, 0, true, 1, true) == 0,
        moment(Q as int, 0, true, 2, true) == 0,
        moment(Q as int, 1, true, 2, true) == 0,
        CS2_NUMERATOR * 3 == W_DENOMINATOR,
{
    lemma_velocity_table();
    lemma_weight_table();
    reveal_with_fuel(moment, 20);
}

} // verus!
