//! Projection of angular trajectories to Cartesian coordinates.
//!
//! For display, each state snapshot `[θ₁..θ_n, ω₁..ω_n]` is mapped to the
//! joint positions `x_k = x_{k-1} + l_k·sin(θ_k)`,
//! `y_k = y_{k-1} − l_k·cos(θ_k)` with `x₀ = y₀ = 0`. This is a pure
//! geometric transform of the solver output; it does not feed back into the
//! integration.

use vstd::prelude::*;
use crate::fx::{fx_add, fx_add_s, fx_mul, fx_mul_s, fx_sub, fx_sub_s, lift_s};
use crate::math::MAX_N;
use crate::trig::{cos_fx, cos_fx_s, sin_fx, sin_fx_s};

verus! {

/// Horizontal position of joint `k` (1-based), from the 1-based lengths and
/// the 0-based angle block of a state vector.
pub open spec fn pos_x_s(lengths: Seq<int>, state: Seq<int>, k: int) -> int
    decreases k,
{
    if k <= 0 {
        0
    } else {
        fx_add_s(pos_x_s(lengths, state, k - 1), fx_mul_s(lengths[k], sin_fx_s(state[k - 1])))
    }
}

/// Vertical position of joint `k` (1-based), measured downward from the
/// pivot.
pub open spec fn pos_y_s(lengths: Seq<int>, state: Seq<int>, k: int) -> int
    decreases k,
{
    if k <= 0 {
        0
    } else {
        fx_sub_s(pos_y_s(lengths, state, k - 1), fx_mul_s(lengths[k], cos_fx_s(state[k - 1])))
    }
}

/// The flattened coordinate row [x₁, y₁, x₂, y₂, ..] of one state snapshot.
pub open spec fn coords_s(lengths: Seq<int>, state: Seq<int>, n: int) -> Seq<int> {
    Seq::new(
        (2 * n) as nat,
        |i: int|
            if i % 2 == 0 {
                pos_x_s(lengths, state, i / 2 + 1)
            } else {
                pos_y_s(lengths, state, i / 2 + 1)
            },
    )
}

/// Converts each angular state snapshot into the flattened Cartesian joint
/// coordinates [x₁, y₁, x₂, y₂, ..] of its chain.
#[verifier::loop_isolation(false)]
pub fn compute_positions(sol: &Vec<Vec<i64>>, n: usize, lengths: &Vec<i64>) -> (positions: Vec<
    Vec<i64>,
>)
    requires
        1 <= n <= MAX_N,
        lengths@.len() == n + 1,
        forall|t: int| 0 <= t < sol@.len() ==> (#[trigger] sol@[t])@.len() >= n,
    ensures
        positions@.len() == sol@.len(),
        forall|t: int|
            0 <= t < sol@.len() ==> lift_s((#[trigger] positions@[t])@) == coords_s(
                lift_s(lengths@),
                lift_s(sol@[t]@),
                n as int,
            ),
{
    let mut positions: Vec<Vec<i64>> = Vec::new();
    let mut t: usize = 0;
    while t < sol.len()
        invariant
            t <= sol@.len(),
            positions@.len() == t,
            forall|tt: int|
                0 <= tt < t ==> lift_s((#[trigger] positions@[tt])@) == coords_s(
                    lift_s(lengths@),
                    lift_s(sol@[tt]@),
                    n as int,
                ),
        decreases sol@.len() - t,
    {
        let state = &sol[t];
        let mut step_coords: Vec<i64> = Vec::new();
        let mut curr_x: i64 = 0;
        let mut curr_y: i64 = 0;
        let mut k: usize = 1;
        while k <= n
            invariant
                t < sol@.len(),
                1 <= k <= n + 1,
                state == &sol@[t as int],
                step_coords@.len() == 2 * (k - 1),
                curr_x as int == pos_x_s(lift_s(lengths@), lift_s(state@), k - 1),
                curr_y as int == pos_y_s(lift_s(lengths@), lift_s(state@), k - 1),
                forall|j: int|
                    0 <= j < k - 1 ==> (#[trigger] step_coords@[2 * j]) as int == pos_x_s(
                        lift_s(lengths@),
                        lift_s(state@),
                        j + 1,
                    ),
                forall|j: int|
                    0 <= j < k - 1 ==> (#[trigger] step_coords@[2 * j + 1]) as int == pos_y_s(
                        lift_s(lengths@),
                        lift_s(state@),
                        j + 1,
                    ),
            decreases n + 1 - k,
        {
            let theta = state[k - 1];
            let len = lengths[k];

            curr_x = fx_add(curr_x, fx_mul(len, sin_fx(theta)));
            curr_y = fx_sub(curr_y, fx_mul(len, cos_fx(theta)));

            step_coords.push(curr_x);
            step_coords.push(curr_y);
            k = k + 1;
        }
        proof {
            let cs = coords_s(lift_s(lengths@), lift_s(state@), n as int);
            assert forall|i: int| 0 <= i < 2 * n implies lift_s(step_coords@)[i] == cs[i] by {
                if i % 2 == 0 {
                    assert(step_coords@[2 * (i / 2)] as int == pos_x_s(
                        lift_s(lengths@),
                        lift_s(state@),
                        i / 2 + 1,
                    ));
                } else {
                    assert(step_coords@[2 * (i / 2) + 1] as int == pos_y_s(
                        lift_s(lengths@),
                        lift_s(state@),
                        i / 2 + 1,
                    ));
                }
            }
            assert(lift_s(step_coords@) =~= cs);
        }
        positions.push(step_coords);
        t = t + 1;
    }
    positions
}

} // verus!
