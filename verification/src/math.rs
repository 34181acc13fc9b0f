//! Assembly of the Lagrangian equations of motion M·α + C + G = 0.
//!
//! For a chain of `n` pendulums the assembler builds, from the instantaneous
//! angles and angular velocities, the dense mass matrix `M`, the centripetal
//! vector `C`, and the gravity vector `G`. All inputs are kept 1-based, with
//! a sentinel zero at index 0, so the formulas match the textbook
//! derivation; the emitted matrix and vectors are 0-based.

use vstd::prelude::*;
use crate::fx::{fx_add, fx_add_s, fx_mul, fx_mul_s, fx_sub, fx_sub_s};
use crate::trig::{cos_fx, cos_fx_s, sin_fx, sin_fx_s};

verus! {

/// The gravitational constant 9.81 in the fixed-point scale.
pub const FX_G: i64 = 172579345095721;

/// Largest supported chain length, so index arithmetic cannot overflow.
pub const MAX_N: usize = 0x10000000;

pub open spec fn min_i(a: int, b: int) -> int {
    if a < b {
        a
    } else {
        b
    }
}

pub open spec fn max_i(a: int, b: int) -> int {
    if a < b {
        b
    } else {
        a
    }
}

/// Suffix mass sum: the masses of all segments from index `k` to `n`,
/// accumulated from the far end of the chain.
pub open spec fn mass_sum_s(masses: Seq<int>, n: int, k: int) -> int
    recommends
        1 <= k <= n + 1,
        masses.len() == n + 1,
    decreases n + 1 - k,
{
    if k > n || k < 0 {
        0
    } else {
        fx_add_s(masses[k], mass_sum_s(masses, n, k + 1))
    }
}

/// Entry (row, col) of the mass matrix, 1-based:
/// `(Σ_{k=max(row,col)}^{n} m_k) · l_row · l_col · cos(θ_row − θ_col)`.
/// The factors are taken in index order; since the true cosine is even in
/// the angle difference, evaluating at the ordered pair makes the matrix
/// symmetric exactly, truncation included.
pub open spec fn mass_entry_s(
    masses: Seq<int>,
    lengths: Seq<int>,
    angles: Seq<int>,
    n: int,
    row: int,
    col: int,
) -> int
    recommends
        1 <= row <= n,
        1 <= col <= n,
{
    let lo = min_i(row, col);
    let hi = max_i(row, col);
    fx_mul_s(
        fx_mul_s(fx_mul_s(mass_sum_s(masses, n, hi), lengths[lo]), lengths[hi]),
        cos_fx_s(fx_sub_s(angles[lo], angles[hi])),
    )
}

/// One coupling term of the centripetal vector, 1-based:
/// `(Σ_{k=max(i,j)}^{n} m_k) · l_i · l_j · sin(θ_i − θ_j) · ω_j²`.
pub open spec fn cent_term_s(
    masses: Seq<int>,
    lengths: Seq<int>,
    angles: Seq<int>,
    ang_vels: Seq<int>,
    n: int,
    i: int,
    j: int,
) -> int
    recommends
        1 <= i <= n,
        1 <= j <= n,
{
    fx_mul_s(
        fx_mul_s(
            fx_mul_s(fx_mul_s(mass_sum_s(masses, n, max_i(i, j)), lengths[i]), lengths[j]),
            sin_fx_s(fx_sub_s(angles[i], angles[j])),
        ),
        fx_mul_s(ang_vels[j], ang_vels[j]),
    )
}

/// Partial sum of the centripetal terms of row `i` over `j = 1..=j_end`,
/// accumulated left to right as the assembler computes it.
pub open spec fn cent_sum_s(
    masses: Seq<int>,
    lengths: Seq<int>,
    angles: Seq<int>,
    ang_vels: Seq<int>,
    n: int,
    i: int,
    j_end: int,
) -> int
    decreases j_end,
{
    if j_end < 1 {
        0
    } else {
        fx_add_s(
            cent_sum_s(masses, lengths, angles, ang_vels, n, i, j_end - 1),
            cent_term_s(masses, lengths, angles, ang_vels, n, i, j_end),
        )
    }
}

/// Entry `i` of the centripetal vector, 1-based.
pub open spec fn cent_entry_s(
    masses: Seq<int>,
    lengths: Seq<int>,
    angles: Seq<int>,
    ang_vels: Seq<int>,
    n: int,
    i: int,
) -> int {
    cent_sum_s(masses, lengths, angles, ang_vels, n, i, n)
}

/// Entry `i` of the gravity vector, 1-based:
/// `(Σ_{k=i}^{n} m_k) · g · l_i · sin(θ_i)`.
pub open spec fn grav_entry_s(
    masses: Seq<int>,
    lengths: Seq<int>,
    angles: Seq<int>,
    n: int,
    i: int,
) -> int
    recommends
        1 <= i <= n,
{
    fx_mul_s(
        fx_mul_s(fx_mul_s(mass_sum_s(masses, n, i), FX_G as int), lengths[i]),
        sin_fx_s(angles[i]),
    )
}

/// Assembler for the three terms of the equations of motion, holding one
/// snapshot of the chain parameters and state, all 1-based with a sentinel
/// zero at index 0.
pub struct NPendulumMath {
    pub g: i64,
    pub n: usize,
    pub masses: Vec<i64>,
    pub lengths: Vec<i64>,
    pub angles: Vec<i64>,
    pub ang_vels: Vec<i64>,
}

impl NPendulumMath {
    /// The assembler's shape invariant: a positive chain length within the
    /// supported bound, 1-based arrays of matching length, and the fixed
    /// gravitational constant.
    pub open spec fn wf(&self) -> bool {
        &&& 1 <= self.n <= MAX_N
        &&& self.masses@.len() == self.n + 1
        &&& self.lengths@.len() == self.n + 1
        &&& self.angles@.len() == self.n + 1
        &&& self.ang_vels@.len() == self.n + 1
        &&& self.g == FX_G
    }

    pub open spec fn masses_s(&self) -> Seq<int> {
        crate::fx::lift_s(self.masses@)
    }

    pub open spec fn lengths_s(&self) -> Seq<int> {
        crate::fx::lift_s(self.lengths@)
    }

    pub open spec fn angles_s(&self) -> Seq<int> {
        crate::fx::lift_s(self.angles@)
    }

    pub open spec fn ang_vels_s(&self) -> Seq<int> {
        crate::fx::lift_s(self.ang_vels@)
    }

    pub fn new(
        n: usize,
        masses: Vec<i64>,
        lengths: Vec<i64>,
        angles: Vec<i64>,
        ang_vels: Vec<i64>,
    ) -> (r: Self)
        requires
            1 <= n <= MAX_N,
            masses@.len() == n + 1,
            lengths@.len() == n + 1,
            angles@.len() == n + 1,
            ang_vels@.len() == n + 1,
        ensures
            r.wf(),
            r.n == n,
            r.masses == masses,
            r.lengths == lengths,
            r.angles == angles,
            r.ang_vels == ang_vels,
    {
        Self { g: FX_G, n, masses, lengths, angles, ang_vels }
    }

    /// Sum of the masses from index `k` to `n`, inclusive.
    fn mass_sum_from(&self, k: usize) -> (r: i64)
        requires
            self.wf(),
            1 <= k <= self.n + 1,
        ensures
            r as int == mass_sum_s(self.masses_s(), self.n as int, k as int),
    {
        let mut acc: i64 = 0;
        let mut i: usize = self.n + 1;
        while i > k
            invariant
                self.wf(),
                k <= i <= self.n + 1,
                acc as int == mass_sum_s(self.masses_s(), self.n as int, i as int),
            decreases i,
        {
            i = i - 1;
            acc = fx_add(self.masses[i], acc);
        }
        acc
    }

    /// The dense mass matrix `M`, 0-based, with
    /// `M[r][c] == mass_entry_s(.., r + 1, c + 1)`.
    pub fn set_mass_matrix(&self) -> (m: Vec<Vec<i64>>)
        requires
            self.wf(),
        ensures
            m@.len() == self.n,
            forall|r: int| 0 <= r < self.n ==> (#[trigger] m@[r])@.len() == self.n,
            forall|r: int, c: int|
                0 <= r < self.n && 0 <= c < self.n ==> (#[trigger] m@[r]@[c]) as int
                    == mass_entry_s(
                    self.masses_s(),
                    self.lengths_s(),
                    self.angles_s(),
                    self.n as int,
                    r + 1,
                    c + 1,
                ),
    {
        let n = self.n;
        let mut mat: Vec<Vec<i64>> = Vec::new();
        let mut row: usize = 1;
        while row <= n
            invariant
                self.wf(),
                n == self.n,
                1 <= row <= n + 1,
                mat@.len() == row - 1,
                forall|r: int| 0 <= r < row - 1 ==> (#[trigger] mat@[r])@.len() == n,
                forall|r: int, c: int|
                    0 <= r < row - 1 && 0 <= c < n ==> (#[trigger] mat@[r]@[c]) as int
                        == mass_entry_s(
                        self.masses_s(),
                        self.lengths_s(),
                        self.angles_s(),
                        self.n as int,
                        r + 1,
                        c + 1,
                    ),
            decreases n + 1 - row,
        {
            let mut rowv: Vec<i64> = Vec::new();
            let mut col: usize = 1;
            while col <= n
                invariant
                    self.wf(),
                    n == self.n,
                    1 <= row <= n,
                    1 <= col <= n + 1,
                    rowv@.len() == col - 1,
                    forall|c: int|
                        0 <= c < col - 1 ==> (#[trigger] rowv@[c]) as int == mass_entry_s(
                            self.masses_s(),
                            self.lengths_s(),
                            self.angles_s(),
                            self.n as int,
                            row as int,
                            c + 1,
                        ),
                decreases n + 1 - col,
            {
                let lo: usize = if row < col { row } else { col };
                let hi: usize = if row < col { col } else { row };
                let ms = self.mass_sum_from(hi);
                let term = fx_mul(
                    fx_mul(fx_mul(ms, self.lengths[lo]), self.lengths[hi]),
                    cos_fx(fx_sub(self.angles[lo], self.angles[hi])),
                );
                rowv.push(term);
                col = col + 1;
            }
            mat.push(rowv);
            row = row + 1;
        }
        mat
    }

    /// The centripetal vector `C`, 0-based, with
    /// `C[i] == cent_entry_s(.., i + 1)`.
    pub fn set_centripetal_matrix(&self) -> (c: Vec<i64>)
        requires
            self.wf(),
        ensures
            c@.len() == self.n,
            forall|i: int|
                0 <= i < self.n ==> (#[trigger] c@[i]) as int == cent_entry_s(
                    self.masses_s(),
                    self.lengths_s(),
                    self.angles_s(),
                    self.ang_vels_s(),
                    self.n as int,
                    i + 1,
                ),
    {
        let n = self.n;
        let mut cv: Vec<i64> = Vec::new();
        let mut i: usize = 1;
        while i <= n
            invariant
                self.wf(),
                n == self.n,
                1 <= i <= n + 1,
                cv@.len() == i - 1,
                forall|r: int|
                    0 <= r < i - 1 ==> (#[trigger] cv@[r]) as int == cent_entry_s(
                        self.masses_s(),
                        self.lengths_s(),
                        self.angles_s(),
                        self.ang_vels_s(),
                        self.n as int,
                        r + 1,
                    ),
            decreases n + 1 - i,
        {
            let mut f_term: i64 = 0;
            let mut j: usize = 1;
            while j <= n
                invariant
                    self.wf(),
                    n == self.n,
                    1 <= i <= n,
                    1 <= j <= n + 1,
                    f_term as int == cent_sum_s(
                        self.masses_s(),
                        self.lengths_s(),
                        self.angles_s(),
                        self.ang_vels_s(),
                        self.n as int,
                        i as int,
                        j - 1,
                    ),
                decreases n + 1 - j,
            {
                let k: usize = if i < j { j } else { i };
                let ms = self.mass_sum_from(k);
                let term = fx_mul(
                    fx_mul(
                        fx_mul(fx_mul(ms, self.lengths[i]), self.lengths[j]),
                        sin_fx(fx_sub(self.angles[i], self.angles[j])),
                    ),
                    fx_mul(self.ang_vels[j], self.ang_vels[j]),
                );
                f_term = fx_add(f_term, term);
                j = j + 1;
            }
            cv.push(f_term);
            i = i + 1;
        }
        cv
    }

    /// The gravity vector `G`, 0-based, with `G[i] == grav_entry_s(.., i + 1)`.
    pub fn set_grav_matrix(&self) -> (g: Vec<i64>)
        requires
            self.wf(),
        ensures
            g@.len() == self.n,
            forall|i: int|
                0 <= i < self.n ==> (#[trigger] g@[i]) as int == grav_entry_s(
                    self.masses_s(),
                    self.lengths_s(),
                    self.angles_s(),
                    self.n as int,
                    i + 1,
                ),
    {
        let n = self.n;
        let mut gv: Vec<i64> = Vec::new();
        let mut i: usize = 1;
        while i <= n
            invariant
                self.wf(),
                n == self.n,
                1 <= i <= n + 1,
                gv@.len() == i - 1,
                forall|r: int|
                    0 <= r < i - 1 ==> (#[trigger] gv@[r]) as int == grav_entry_s(
                        self.masses_s(),
                        self.lengths_s(),
                        self.angles_s(),
                        self.n as int,
                        r + 1,
                    ),
            decreases n + 1 - i,
        {
            let ms = self.mass_sum_from(i);
            let term = fx_mul(
                fx_mul(fx_mul(ms, self.g), self.lengths[i]),
                sin_fx(self.angles[i]),
            );
            gv.push(term);
            i = i + 1;
        }
        gv
    }
}

} // verus!
