//! Proved properties of the physics core.
//!
//! These public proof functions state, over the same specification
//! functions that the executable contracts are pinned to, the structural
//! laws of the engine: symmetry of the mass matrix, the simple-pendulum
//! reduction, determinism of the trajectory, and the singularity of any
//! configuration with a zero-length rod.

use vstd::prelude::*;
use crate::fx::{fx_add_s, fx_div_s, fx_mul_s, fx_neg_s, fx_sub_s};
use crate::math::{
    cent_entry_s, cent_sum_s, cent_term_s, grav_entry_s, mass_entry_s, mass_sum_s, max_i, min_i,
};
use crate::solver::{augment_s, dot_s, elim_col_s, elim_upto_s, lin_solve_s, sol_at_s};
use crate::logic::{
    accel_s, angles_1based_s, ang_vels_1based_s, deriv_s, mass_matrix_s, rhs_vec_s, rk4_step_s,
    state_s,
};

verus! {

/// The mass matrix is symmetric for every state and every parameter set:
/// entry (i, j) and entry (j, i) are the very same fixed-point value,
/// truncation included, because both are evaluated at the ordered index
/// pair (the true cosine is even in the angle difference).
pub proof fn lemma_mass_matrix_symmetric(
    masses: Seq<int>,
    lengths: Seq<int>,
    angles: Seq<int>,
    n: int,
    i: int,
    j: int,
)
    requires
        1 <= i <= n,
        1 <= j <= n,
    ensures
        mass_entry_s(masses, lengths, angles, n, i, j) == mass_entry_s(
            masses,
            lengths,
            angles,
            n,
            j,
            i,
        ),
{
    assert(min_i(i, j) == min_i(j, i));
    assert(max_i(i, j) == max_i(j, i));
}

/// Matrix form of the symmetry law: the assembled mass matrix equals its
/// transpose, entry for entry.
pub proof fn lemma_mass_matrix_symmetric_full(
    masses: Seq<int>,
    lengths: Seq<int>,
    angles: Seq<int>,
    n: int,
)
    requires
        1 <= n,
    ensures
        forall|r: int, c: int|
            0 <= r < n && 0 <= c < n ==> (#[trigger] mass_matrix_s(masses, lengths, angles, n)[r][c])
                == mass_matrix_s(masses, lengths, angles, n)[c][r],
{
    assert forall|r: int, c: int|
        0 <= r < n && 0 <= c < n implies (#[trigger] mass_matrix_s(masses, lengths, angles, n)[r][c])
        == mass_matrix_s(masses, lengths, angles, n)[c][r] by {
        lemma_mass_matrix_symmetric(masses, lengths, angles, n, r + 1, c + 1);
    }
}

/// Determinism: the trajectory is a pure function of the chain parameters,
/// the initial state, the step size, and the step count. Two values that
/// both satisfy the integrator's defining equation are equal, so two runs
/// with identical inputs yield identical samples, bit for bit.
pub proof fn lemma_solver_deterministic(
    masses: Seq<int>,
    lengths: Seq<int>,
    n: int,
    y0: Seq<int>,
    dt: int,
    k: int,
    s1: Option<Seq<int>>,
    s2: Option<Seq<int>>,
)
    requires
        s1 == state_s(masses, lengths, n, y0, dt, k),
        s2 == state_s(masses, lengths, n, y0, dt, k),
    ensures
        s1 == s2,
{
}

/// For a single pendulum the mass matrix reduces to the scalar m₁·l₁²,
/// and the derived acceleration is exactly −G₁ / (m₁·l₁²), the fixed-point
/// form of the classical equation α = −(g/l₁)·sin(θ₁).
pub proof fn lemma_simple_pendulum(
    masses: Seq<int>,
    lengths: Seq<int>,
    angles: Seq<int>,
    ang_vels: Seq<int>,
)
    requires
        i64::MIN as int <= masses[1] <= i64::MAX as int,
    ensures
        mass_entry_s(masses, lengths, angles, 1, 1, 1) == fx_mul_s(
            fx_mul_s(masses[1], lengths[1]),
            lengths[1],
        ),
        accel_s(masses, lengths, angles, ang_vels, 1) == (
        if mass_entry_s(masses, lengths, angles, 1, 1, 1) == 0 {
            None::<Seq<int>>
        } else {
            Some(
                seq![
                    fx_div_s(
                        fx_neg_s(grav_entry_s(masses, lengths, angles, 1, 1)),
                        mass_entry_s(masses, lengths, angles, 1, 1, 1),
                    )
                ],
            )
        }),
{
    let m11 = mass_entry_s(masses, lengths, angles, 1, 1, 1);
    let g1 = grav_entry_s(masses, lengths, angles, 1, 1);

    // The only suffix sum is m₁ itself, and cos(θ₁ − θ₁) is exactly one.
    assert(mass_sum_s(masses, 1, 2) == 0);
    assert(mass_sum_s(masses, 1, 1) == fx_add_s(masses[1], 0));
    assert(mass_sum_s(masses, 1, 1) == masses[1]);
    assert(fx_sub_s(angles[1], angles[1]) == 0);
    crate::trig::lemma_cos_zero();
    crate::fx::lemma_fx_mul_one(fx_mul_s(fx_mul_s(masses[1], lengths[1]), lengths[1]));
    assert(m11 == fx_mul_s(fx_mul_s(masses[1], lengths[1]), lengths[1]));

    // The centripetal term vanishes: sin(θ₁ − θ₁) is exactly zero.
    crate::trig::lemma_sin_zero();
    let base = fx_mul_s(fx_mul_s(mass_sum_s(masses, 1, max_i(1, 1)), lengths[1]), lengths[1]);
    crate::fx::lemma_fx_mul_zero(base);
    crate::fx::lemma_fx_mul_zero(fx_mul_s(ang_vels[1], ang_vels[1]));
    assert(cent_term_s(masses, lengths, angles, ang_vels, 1, 1, 1) == 0);
    assert(cent_sum_s(masses, lengths, angles, ang_vels, 1, 1, 0) == 0);
    assert(cent_entry_s(masses, lengths, angles, ang_vels, 1, 1) == fx_add_s(0, 0));

    // So the right-hand side is exactly −G₁.
    let rhs = rhs_vec_s(masses, lengths, angles, ang_vels, 1);
    assert(rhs[0] == fx_neg_s(fx_add_s(0, g1)));
    assert(fx_add_s(0, g1) == g1);
    assert(rhs[0] == fx_neg_s(g1));

    // Unfold the 1×1 solve.
    let mm = mass_matrix_s(masses, lengths, angles, 1);
    let aug0 = augment_s(mm, rhs, 1);
    assert(mm[0][0] == m11);
    assert(aug0[0] == mm[0].push(rhs[0]));
    assert(aug0[0][0] == m11);
    assert(aug0[0][1] == rhs[0]);
    assert(elim_upto_s(aug0, 1, 0) == Some(aug0));
    if m11 == 0 {
        assert(elim_upto_s(aug0, 1, 1) is None);
        assert(accel_s(masses, lengths, angles, ang_vels, 1) is None);
    } else {
        let e = elim_col_s(aug0, 1, 0);
        assert(e[0] == aug0[0]);
        assert(e =~= aug0);
        assert(elim_upto_s(aug0, 1, 1) == Some(aug0));
        assert(dot_s(aug0, 1, 0, 1) == 0);
        crate::fx::lemma_fx_zero_ops(rhs[0], m11);
        assert(fx_sub_s(rhs[0], 0) == rhs[0]);
        assert(sol_at_s(aug0, 1, 0) == fx_div_s(fx_neg_s(g1), m11));
        assert(Seq::new(1, |i: int| sol_at_s(aug0, 1, i)) =~= seq![
            fx_div_s(fx_neg_s(g1), m11),
        ]);
    }
}

/// Every centripetal partial sum of a row whose rod length is zero is
/// exactly zero.
proof fn lemma_cent_sum_zero(
    masses: Seq<int>,
    lengths: Seq<int>,
    angles: Seq<int>,
    ang_vels: Seq<int>,
    n: int,
    i: int,
    j: int,
)
    requires
        1 <= i <= n,
        lengths[i] == 0,
        0 <= j,
    ensures
        cent_sum_s(masses, lengths, angles, ang_vels, n, i, j) == 0,
    decreases j,
{
    if j >= 1 {
        lemma_cent_sum_zero(masses, lengths, angles, ang_vels, n, i, j - 1);
        crate::fx::lemma_fx_mul_zero(mass_sum_s(masses, n, max_i(i, j)));
        crate::fx::lemma_fx_mul_zero(lengths[j]);
        crate::fx::lemma_fx_mul_zero(sin_zero_helper(masses, lengths, angles, ang_vels, n, i, j));
        crate::fx::lemma_fx_mul_zero(fx_mul_s(ang_vels[j], ang_vels[j]));
        assert(cent_term_s(masses, lengths, angles, ang_vels, n, i, j) == 0);
    }
}

/// Names the sine factor of a centripetal term, so the zero-product lemmas
/// can be applied to it.
spec fn sin_zero_helper(
    masses: Seq<int>,
    lengths: Seq<int>,
    angles: Seq<int>,
    ang_vels: Seq<int>,
    n: int,
    i: int,
    j: int,
) -> int {
    crate::trig::sin_fx_s(fx_sub_s(angles[i], angles[j]))
}

/// A zero-length rod makes its whole row of the equations of motion zero:
/// every mass-matrix entry of the row, the centripetal entry, and the
/// gravity entry.
pub proof fn lemma_zero_length_row(
    masses: Seq<int>,
    lengths: Seq<int>,
    angles: Seq<int>,
    ang_vels: Seq<int>,
    n: int,
    i: int,
)
    requires
        1 <= i <= n,
        lengths[i] == 0,
    ensures
        forall|c: int| 1 <= c <= n ==> #[trigger] mass_entry_s(masses, lengths, angles, n, i, c)
            == 0,
        cent_entry_s(masses, lengths, angles, ang_vels, n, i) == 0,
        grav_entry_s(masses, lengths, angles, n, i) == 0,
{
    assert forall|c: int| 1 <= c <= n implies #[trigger] mass_entry_s(masses, lengths, angles, n, i, c)
        == 0 by {
        let lo = min_i(i, c);
        let hi = max_i(i, c);
        crate::fx::lemma_fx_mul_zero(mass_sum_s(masses, n, hi));
        crate::fx::lemma_fx_mul_zero(lengths[lo]);
        crate::fx::lemma_fx_mul_zero(lengths[hi]);
        crate::fx::lemma_fx_mul_zero(
            crate::trig::cos_fx_s(fx_sub_s(angles[lo], angles[hi])),
        );
    }
    lemma_cent_sum_zero(masses, lengths, angles, ang_vels, n, i, n);
    crate::fx::lemma_fx_mul_zero(fx_mul_s(mass_sum_s(masses, n, i), crate::math::FX_G as int));
    crate::fx::lemma_fx_mul_zero(crate::trig::sin_fx_s(angles[i]));
}

/// Forward elimination on a matrix with an all-zero row (in its matrix
/// columns) either fails early or keeps that row zero; once the pivot
/// column reaches the zero row, elimination must fail.
proof fn lemma_elim_zero_row(aug: Seq<Seq<int>>, n: int, z: int, c: int)
    requires
        aug.len() == n,
        forall|r: int| 0 <= r < n ==> (#[trigger] aug[r]).len() == n + 1,
        0 <= z < n,
        forall|col: int| 0 <= col < n ==> #[trigger] aug[z][col] == 0,
        0 <= c <= n,
    ensures
        c <= z ==> (elim_upto_s(aug, n, c) is None || forall|col: int|
            0 <= col < n ==> #[trigger] elim_upto_s(aug, n, c)->Some_0[z][col] == 0),
        c > z ==> elim_upto_s(aug, n, c) is None,
    decreases c,
{
    if c > 0 {
        lemma_elim_zero_row(aug, n, z, c - 1);
        if elim_upto_s(aug, n, c - 1) is Some {
            let prev = elim_upto_s(aug, n, c - 1)->Some_0;
            crate::solver::lemma_elim_props(aug, n, c - 1);
            if c - 1 == z {
                assert(prev[z][z] == 0);
                assert(elim_upto_s(aug, n, c) is None);
            } else if c - 1 < z {
                if prev[c - 1][c - 1] != 0 {
                    let cur = elim_col_s(prev, n, c - 1);
                    assert forall|col: int| 0 <= col < n implies #[trigger] cur[z][col] == 0 by {
                        assert(prev[z][c - 1] == 0);
                        crate::fx::lemma_fx_zero_ops(0, prev[c - 1][c - 1]);
                        assert(fx_div_s(prev[z][c - 1], prev[c - 1][c - 1]) == 0);
                        crate::fx::lemma_fx_mul_zero(prev[c - 1][col]);
                        assert(prev[z][col] == 0);
                        assert(cur[z][col] == fx_sub_s(0, 0));
                    }
                }
            }
        }
    }
}

/// A configuration with a zero-length rod assembles a singular system: the
/// derivative evaluation fails for every state vector.
pub proof fn lemma_zero_length_singular(
    masses: Seq<int>,
    lengths: Seq<int>,
    n: int,
    i: int,
    y: Seq<int>,
)
    requires
        1 <= i <= n,
        lengths[i] == 0,
    ensures
        deriv_s(masses, lengths, n, y) is None,
{
    let a1 = angles_1based_s(y, n);
    let w1 = ang_vels_1based_s(y, n);
    lemma_zero_length_row(masses, lengths, a1, w1, n, i);
    let mm = mass_matrix_s(masses, lengths, a1, n);
    let rhs = rhs_vec_s(masses, lengths, a1, w1, n);
    let aug0 = augment_s(mm, rhs, n);
    assert forall|r: int| 0 <= r < n implies (#[trigger] aug0[r]).len() == n + 1 by {
        assert(aug0[r] == mm[r].push(rhs[r]));
    }
    assert forall|col: int| 0 <= col < n implies #[trigger] aug0[i - 1][col] == 0 by {
        assert(aug0[i - 1] == mm[i - 1].push(rhs[i - 1]));
        assert(aug0[i - 1][col] == mm[i - 1][col]);
        assert(mm[i - 1][col] == mass_entry_s(masses, lengths, a1, n, i, col + 1));
    }
    lemma_elim_zero_row(aug0, n, i - 1, n);
    assert(elim_upto_s(aug0, n, n) is None);
    assert(lin_solve_s(mm, rhs, n) is None);
}

/// A configuration with a zero-length rod yields no trajectory at all: the
/// very first integration step fails, and with it every longer run.
pub proof fn lemma_zero_length_no_trajectory(
    masses: Seq<int>,
    lengths: Seq<int>,
    n: int,
    i: int,
    y0: Seq<int>,
    dt: int,
    k: int,
)
    requires
        1 <= i <= n,
        lengths[i] == 0,
        k >= 1,
    ensures
        state_s(masses, lengths, n, y0, dt, k) is None,
    decreases k,
{
    if k == 1 {
        assert(state_s(masses, lengths, n, y0, dt, 0) == Some(y0));
        lemma_zero_length_singular(masses, lengths, n, i, y0);
        assert(rk4_step_s(masses, lengths, n, y0, dt) is None);
    } else {
        lemma_zero_length_no_trajectory(masses, lengths, n, i, y0, dt, k - 1);
    }
}

} // verus!
