//! D2Q9 velocity model: nine discrete velocities on a 2D lattice.
//!
//! The lattice weights are rational; they are stored exactly as numerators
//! over the common denominator [`W_DENOMINATOR`], so that the moment
//! identities of the model hold without rounding.
use vstd::prelude::*;

verus! {

/// Number of discrete velocities in D2Q9.
pub const Q: usize = 9;

/// Discrete velocity vectors `eᵢ = (eᵢₓ, eᵢᵧ)`: rest, four cardinal
/// directions (right, up, left, down) and four diagonals.
pub const E: [[i32; 2]; Q] = [
    [0, 0],
    [1, 0],
    [0, 1],
    [-1, 0],
    [0, -1],
    [1, 1],
    [-1, 1],
    [-1, -1],
    [1, -1],
];

/// Common denominator of the lattice weights.
pub const W_DENOMINATOR: i32 = 36;

/// Lattice weight numerators: `wᵢ = W_NUMERATOR[i] / W_DENOMINATOR`, that is
/// 4/9 at rest, 1/9 on the cardinal and 1/36 on the diagonal directions.
pub const W_NUMERATOR: [i32; Q] = [16, 4, 4, 4, 4, 1, 1, 1, 1];

/// `OPPOSITE[i]` is the index `j` with `eⱼ = −eᵢ` (bounce-back partner).
pub const OPPOSITE: [usize; Q] = [0, 3, 4, 1, 2, 7, 8, 5, 6];

/// Numerator of the squared lattice speed of sound, `cs² = 12/36 = 1/3`.
pub const CS2_NUMERATOR: i32 = 12;

/// `w * e` for a velocity component `e` in {-1, 0, 1}.
pub open spec fn unit_times(w: int, e: int) -> int {
    if e > 0 {
        w
    } else if e < 0 {
        -w
    } else {
        0
    }
}

/// `unit_times` is multiplication on the components that occur.
pub proof fn lemma_unit_times(w: int, e: int)
    requires
        -1 <= e <= 1,
    ensures
        unit_times(w, e) == w * e,
{
    assert(e == -1 ==> w * e == -w) by (nonlinear_arith);
    assert(e == 0 ==> w * e == 0) by (nonlinear_arith);
    assert(e == 1 ==> w * e == w) by (nonlinear_arith);
}

/// `Σ_{i<n} W_NUMERATOR[i] * eᵢ[a]^pa * eᵢ[b]^pb` for exponents in {0, 1}.
pub open spec fn moment(n: int, a: int, pa: bool, b: int, pb: bool) -> int
    decreases n,
{
    if n <= 0 {
        0
    } else {
        let i = n - 1;
        let fa: int = if pa { E[i][a] as int } else { 1 };
        let fb: int = if pb { E[i][b] as int } else { 1 };
        moment(n - 1, a, pa, b, pb) + unit_times(unit_times(W_NUMERATOR[i] as int, fa), fb)
    }
}

/// The opposite of the opposite of a direction is the direction itself.
pub proof fn lemma_opposite_involution(i: int)
    requires
        0 <= i < Q,
    ensures
        OPPOSITE[OPPOSITE[i] as int] as int == i,
        OPPOSITE[i] < Q,
{
    if i == 0 {
    } else if i == 1 {
    } else if i == 2 {
    } else if i == 3 {
    } else if i == 4 {
    } else if i == 5 {
    } else if i == 6 {
    } else if i == 7 {
    } else if i == 8 {
    }
}

/// The opposite direction has the negated velocity.
pub proof fn lemma_opposite_negates(i: int)
    requires
        0 <= i < Q,
    ensures
        E[OPPOSITE[i] as int][0] == -E[i][0],
        E[OPPOSITE[i] as int][1] == -E[i][1],
{
    if i == 0 {
    } else if i == 1 {
    } else if i == 2 {
    } else if i == 3 {
    } else if i == 4 {
    } else if i == 5 {
    } else if i == 6 {
    } else if i == 7 {
    } else if i == 8 {
    }
}

/// The table of velocities, entry by entry.
proof fn lemma_velocity_table()
    ensures
        E[0][0] == 0,
        E[0][1] == 0,
        E[1][0] == 1,
        E[1][1] == 0,
        E[2][0] == 0,
        E[2][1] == 1,
        E[3][0] == -1,
        E[3][1] == 0,
        E[4][0] == 0,
        E[4][1] == -1,
        E[5][0] == 1,
        E[5][1] == 1,
        E[6][0] == -1,
        E[6][1] == 1,
        E[7][0] == -1,
        E[7][1] == -1,
        E[8][0] == 1,
        E[8][1] == -1,
{
}

/// The table of weight numerators, entry by entry.
proof fn lemma_weight_table()
    ensures
        W_NUMERATOR[0] == 16,
        W_NUMERATOR[1] == 4,
        W_NUMERATOR[2] == 4,
        W_NUMERATOR[3] == 4,
        W_NUMERATOR[4] == 4,
        W_NUMERATOR[5] == 1,
        W_NUMERATOR[6] == 1,
        W_NUMERATOR[7] == 1,
        W_NUMERATOR[8] == 1,
{
}

/// The weights sum to one: `Σ wᵢ = 1`.
pub proof fn lemma_weights_sum_to_one()
    ensures
        moment(Q as int, 0, false, 0, false) == W_DENOMINATOR,
{
    lemma_velocity_table();
    lemma_weight_table();
    reveal_with_fuel(moment, 10);
}

/// First-moment isotropy: `Σ wᵢ eᵢ = 0` along both axes.
pub proof fn lemma_isotropy_first_moment()
    ensures
        moment(Q as int, 0, true, 0, false) == 0,
        moment(Q as int, 1, true, 0, false) == 0,
{
    lemma_velocity_table();
    lemma_weight_table();
    reveal_with_fuel(moment, 10);
}

/// Second-moment isotropy: `Σ wᵢ eᵢₐ eᵢᵦ = cs² δₐᵦ`.
pub proof fn lemma_isotropy_second_moment()
    ensures
        moment(Q as int, 0, true, 0, true) == CS2_NUMERATOR,
        moment(Q as int, 1, true, 1, true) == CS2_NUMERATOR,
        moment(Q as int, 0, true, 1, true) == 0,
        CS2_NUMERATOR * 3 == W_DENOMINATOR,
{
    lemma_velocity_table();
    lemma_weight_table();
    reveal_with_fuel(moment, 10);
}

} // verus!
