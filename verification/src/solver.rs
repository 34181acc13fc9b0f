//! Direct dense linear solver for M·α = R.
//!
//! The mass matrix of a physically valid chain is symmetric positive
//! definite, so the system is solved by Gaussian elimination on the
//! augmented matrix followed by back substitution. A zero pivot means the
//! assembled system is singular — a degenerate configuration such as a
//! zero-length rod — and is reported as [`SingularSystemError`] rather than
//! propagated as garbage values. Every arithmetic step is mirrored exactly
//! by the specification functions, so the returned solution is a pure
//! function of the matrix and right-hand side.

use vstd::prelude::*;
use crate::fx::{fx_add, fx_add_s, fx_div, fx_div_s, fx_mul, fx_mul_s, fx_sub, fx_sub_s, lift_s};
use crate::math::MAX_N;

verus! {

/// The assembled mass matrix is not invertible for the given state: a
/// degenerate physical configuration. Fatal to the simulation run.
#[derive(Clone, Copy, PartialEq, Eq, Structural, Debug)]
pub struct SingularSystemError;

/// View of a vector of raw fixed-point rows as a matrix of integers.
pub open spec fn lift_mat(v: Seq<Vec<i64>>) -> Seq<Seq<int>> {
    v.map_values(|row: Vec<i64>| lift_s(row@))
}

/// The n×(n+1) augmented matrix [M | rhs].
pub open spec fn augment_s(m: Seq<Seq<int>>, rhs: Seq<int>, n: int) -> Seq<Seq<int>> {
    Seq::new(n as nat, |r: int| m[r].push(rhs[r]))
}

/// One elimination step: clear column `c` below the pivot row `c`. Rows up
/// to `c` are unchanged; each lower row `r` has the multiple
/// `aug[r][c] / aug[c][c]` of the pivot row subtracted from it.
pub open spec fn elim_col_s(aug: Seq<Seq<int>>, n: int, c: int) -> Seq<Seq<int>> {
    Seq::new(
        aug.len(),
        |r: int|
            if r <= c {
                aug[r]
            } else {
                Seq::new(
                    (n + 1) as nat,
                    |j: int|
                        fx_sub_s(
                            aug[r][j],
                            fx_mul_s(fx_div_s(aug[r][c], aug[c][c]), aug[c][j]),
                        ),
                )
            },
    )
}

/// Forward elimination of the first `c` columns. `None` means a zero pivot
/// was hit: the system is singular.
pub open spec fn elim_upto_s(aug: Seq<Seq<int>>, n: int, c: int) -> Option<Seq<Seq<int>>>
    decreases c,
{
    if c <= 0 {
        Some(aug)
    } else {
        match elim_upto_s(aug, n, c - 1) {
            Option::None => None,
            Option::Some(a) => if a[c - 1][c - 1] == 0 {
                None
            } else {
                Some(elim_col_s(a, n, c - 1))
            },
        }
    }
}

/// Back substitution, element `i` of the solution of the eliminated
/// augmented matrix `a`.
pub open spec fn sol_at_s(a: Seq<Seq<int>>, n: int, i: int) -> int
    decreases n - i, n + 1int,
{
    if i < 0 || i >= n {
        0
    } else {
        fx_div_s(fx_sub_s(a[i][n], dot_s(a, n, i, n)), a[i][i])
    }
}

/// Partial inner product Σ_{k=i+1}^{j-1} a[i][k] · x_k of row `i` with the
/// already-computed solution entries, accumulated left to right.
pub open spec fn dot_s(a: Seq<Seq<int>>, n: int, i: int, j: int) -> int
    decreases n - i, j,
{
    if i < 0 || j <= i + 1 || j > n + 1 {
        0
    } else {
        fx_add_s(dot_s(a, n, i, j - 1), fx_mul_s(a[i][j - 1], sol_at_s(a, n, j - 1)))
    }
}

/// The full solve: forward elimination, then back substitution; `None`
/// exactly when elimination hits a zero pivot.
pub open spec fn lin_solve_s(m: Seq<Seq<int>>, rhs: Seq<int>, n: int) -> Option<Seq<int>> {
    match elim_upto_s(augment_s(m, rhs, n), n, n) {
        Option::None => None,
        Option::Some(a) => Some(Seq::new(n as nat, |i: int| sol_at_s(a, n, i))),
    }
}

/// Once elimination has failed, it stays failed for every larger column
/// count.
pub proof fn lemma_elim_none_mono(aug: Seq<Seq<int>>, n: int, c1: int, c2: int)
    requires
        0 <= c1 <= c2,
        elim_upto_s(aug, n, c1) is None,
    ensures
        elim_upto_s(aug, n, c2) is None,
    decreases c2 - c1,
{
    if c2 > c1 {
        lemma_elim_none_mono(aug, n, c1, c2 - 1);
    }
}

/// Shape and pivots of a successful elimination: the matrix keeps its n
/// rows of n+1 columns, and every diagonal entry of a fully eliminated
/// matrix is the pivot that was checked, hence nonzero.
pub proof fn lemma_elim_props(aug: Seq<Seq<int>>, n: int, c: int)
    requires
        aug.len() == n,
        forall|r: int| 0 <= r < n ==> (#[trigger] aug[r]).len() == n + 1,
        0 <= c <= n,
        elim_upto_s(aug, n, c) is Some,
    ensures
        elim_upto_s(aug, n, c)->Some_0.len() == n,
        forall|r: int|
            0 <= r < n ==> (#[trigger] elim_upto_s(aug, n, c)->Some_0[r]).len() == n + 1,
        forall|i: int| 0 <= i < c ==> (#[trigger] elim_upto_s(aug, n, c)->Some_0[i][i]) != 0,
    decreases c,
{
    if c > 0 {
        lemma_elim_props(aug, n, c - 1);
        let prev = elim_upto_s(aug, n, c - 1)->Some_0;
        let cur = elim_upto_s(aug, n, c)->Some_0;
        assert(cur == elim_col_s(prev, n, c - 1));
        assert forall|i: int| 0 <= i < c implies (#[trigger] cur[i][i]) != 0 by {
            assert(cur[i] == prev[i]);
        }
    }
}

/// Solve the linear system `m · x = rhs` by Gaussian elimination on the
/// augmented matrix and back substitution. Returns the solution pinned to
/// [`lin_solve_s`], or [`SingularSystemError`] exactly when a pivot is zero.
#[verifier::loop_isolation(false)]
pub fn solve_linear(m: &Vec<Vec<i64>>, rhs: &Vec<i64>, n: usize) -> (res: Result<
    Vec<i64>,
    SingularSystemError,
>)
    requires
        1 <= n <= MAX_N,
        m@.len() == n,
        rhs@.len() == n,
        forall|r: int| 0 <= r < n ==> (#[trigger] m@[r])@.len() == n,
    ensures
        ({
            let sol = lin_solve_s(lift_mat(m@), lift_s(rhs@), n as int);
            match res {
                Ok(x) => sol == Some(lift_s(x@)) && x@.len() == n,
                Err(_) => sol is None,
            }
        }),
{
    let ghost aug0 = augment_s(lift_mat(m@), lift_s(rhs@), n as int);

    // Build the augmented matrix [M | rhs].
    let mut aug: Vec<Vec<i64>> = Vec::new();
    let mut r: usize = 0;
    while r < n
        invariant
            r <= n,
            n <= MAX_N,
            m@.len() == n,
            rhs@.len() == n,
            forall|k: int| 0 <= k < n ==> (#[trigger] m@[k])@.len() == n,
            aug0 == augment_s(lift_mat(m@), lift_s(rhs@), n as int),
            aug@.len() == r,
            forall|k: int| 0 <= k < r ==> (#[trigger] aug@[k])@.len() == n + 1,
            forall|k: int| 0 <= k < r ==> lift_s((#[trigger] aug@[k])@) == aug0[k],
        decreases n - r,
    {
        let mut rowv: Vec<i64> = Vec::new();
        let mut j: usize = 0;
        while j < n
            invariant
                r < n,
                m@.len() == n,
                forall|k: int| 0 <= k < n ==> (#[trigger] m@[k])@.len() == n,
                j <= n,
                rowv@.len() == j,
                forall|k: int| 0 <= k < j ==> (#[trigger] rowv@[k]) == m@[r as int]@[k],
            decreases n - j,
        {
            rowv.push(m[r][j]);
            j = j + 1;
        }
        rowv.push(rhs[r]);
        proof {
            assert(lift_s(rowv@) =~= lift_mat(m@)[r as int].push(lift_s(rhs@)[r as int]));
        }
        aug.push(rowv);
        r = r + 1;
    }

    // Forward elimination.
    let mut c: usize = 0;
    while c < n
        invariant
            c <= n,
            1 <= n <= MAX_N,
            aug@.len() == n,
            forall|k: int| 0 <= k < n ==> (#[trigger] aug@[k])@.len() == n + 1,
            elim_upto_s(aug0, n as int, c as int) == Some(lift_mat(aug@)),
        decreases n - c,
    {
        let piv = aug[c][c];
        if piv == 0 {
            proof {
                assert(lift_mat(aug@)[c as int][c as int] == piv as int);
                assert(elim_upto_s(aug0, n as int, c as int + 1) is None);
                lemma_elim_none_mono(aug0, n as int, c as int + 1, n as int);
            }
            return Err(SingularSystemError);
        }
        let ghost prev = lift_mat(aug@);
        proof {
            assert(prev[c as int][c as int] == piv as int);
        }
        let mut rr: usize = c + 1;
        while rr < n
            invariant
                c < n <= MAX_N,
                c < rr <= n,
                aug@.len() == n,
                forall|k: int| 0 <= k < n ==> (#[trigger] aug@[k])@.len() == n + 1,
                piv as int == prev[c as int][c as int],
                piv != 0,
                prev.len() == n,
                forall|k: int| 0 <= k < n ==> (#[trigger] prev[k]).len() == n + 1,
                forall|k: int|
                    0 <= k < n && (k <= c || k >= rr) ==> lift_s((#[trigger] aug@[k])@)
                        == prev[k],
                forall|k: int|
                    c < k < rr ==> lift_s((#[trigger] aug@[k])@) == elim_col_s(
                        prev,
                        n as int,
                        c as int,
                    )[k],
            decreases n - rr,
        {
            let f = fx_div(aug[rr][c], piv);
            proof {
                assert(lift_s(aug@[rr as int]@) == prev[rr as int]);
                assert(f as int == fx_div_s(prev[rr as int][c as int], prev[c as int][c as int]));
            }
            let mut newrow: Vec<i64> = Vec::new();
            let mut j: usize = 0;
            while j < n + 1
                invariant
                    c < n,
                    c < rr < n,
                    j <= n + 1,
                    aug@.len() == n,
                    forall|k: int| 0 <= k < n ==> (#[trigger] aug@[k])@.len() == n + 1,
                    lift_s(aug@[rr as int]@) == prev[rr as int],
                    lift_s(aug@[c as int]@) == prev[c as int],
                    prev[rr as int].len() == n + 1,
                    prev[c as int].len() == n + 1,
                    f as int == fx_div_s(prev[rr as int][c as int], prev[c as int][c as int]),
                    newrow@.len() == j,
                    forall|k: int|
                        0 <= k < j ==> (#[trigger] newrow@[k]) as int == fx_sub_s(
                            prev[rr as int][k],
                            fx_mul_s(
                                fx_div_s(prev[rr as int][c as int], prev[c as int][c as int]),
                                prev[c as int][k],
                            ),
                        ),
                decreases n + 1 - j,
            {
                newrow.push(fx_sub(aug[rr][j], fx_mul(f, aug[c][j])));
                j = j + 1;
            }
            aug[rr] = newrow;
            proof {
                assert(lift_s(aug@[rr as int]@) =~= elim_col_s(prev, n as int, c as int)[
                    rr as int]);
            }
            rr = rr + 1;
        }
        proof {
            assert(lift_mat(aug@) =~= elim_col_s(prev, n as int, c as int));
            assert(elim_upto_s(aug0, n as int, c as int + 1) == Some(lift_mat(aug@)));
        }
        c = c + 1;
    }

    let ghost emat = lift_mat(aug@);
    proof {
        lemma_elim_props(aug0, n as int, n as int);
        assert(elim_upto_s(aug0, n as int, n as int) == Some(emat));
    }

    // Back substitution.
    let mut x: Vec<i64> = Vec::new();
    let mut k: usize = 0;
    while k < n
        invariant
            k <= n,
            x@.len() == k,
        decreases n - k,
    {
        x.push(0);
        k = k + 1;
    }
    let mut i: usize = n;
    while i > 0
        invariant
            i <= n <= MAX_N,
            aug@.len() == n,
            forall|kk: int| 0 <= kk < n ==> (#[trigger] aug@[kk])@.len() == n + 1,
            emat == lift_mat(aug@),
            forall|kk: int| 0 <= kk < n ==> (#[trigger] emat[kk][kk]) != 0,
            x@.len() == n,
            forall|kk: int|
                i <= kk < n ==> (#[trigger] x@[kk]) as int == sol_at_s(emat, n as int, kk),
        decreases i,
    {
        i = i - 1;
        let mut acc: i64 = 0;
        let mut j: usize = i + 1;
        while j < n
            invariant
                i < n <= MAX_N,
                i < j <= n,
                aug@.len() == n,
                forall|kk: int| 0 <= kk < n ==> (#[trigger] aug@[kk])@.len() == n + 1,
                emat == lift_mat(aug@),
                x@.len() == n,
                forall|kk: int|
                    i < kk < n ==> (#[trigger] x@[kk]) as int == sol_at_s(emat, n as int, kk),
                acc as int == dot_s(emat, n as int, i as int, j as int),
            decreases n - j,
        {
            acc = fx_add(acc, fx_mul(aug[i][j], x[j]));
            j = j + 1;
        }
        proof {
            assert(aug@[i as int]@[i as int] as int == emat[i as int][i as int]);
            assert(aug@[i as int]@[n as int] as int == emat[i as int][n as int]);
        }
        let xi = fx_div(fx_sub(aug[i][n], acc), aug[i][i]);
        x[i] = xi;
    }
    proof {
        assert(lift_s(x@) =~= Seq::new(n as nat, |ii: int| sol_at_s(emat, n as int, ii)));
    }
    Ok(x)
}

} // verus!
