//! The simulation driver: derivative evaluation and fixed-step RK4.
//!
//! The 2n-dimensional state vector is `y = [θ₁..θ_n, ω₁..ω_n]`. The
//! derivative `dy/dt = [ω, α]` is obtained by assembling the equations of
//! motion and solving M·α = −(C + G); the integrator advances the state with
//! the classic four-stage Runge-Kutta scheme at a fixed step
//! `dt = t_max / (n_points − 1)`. A run either yields a complete trajectory
//! of exactly `n_points` samples or fails as a whole with
//! [`SingularSystemError`].

use vstd::prelude::*;
use crate::fx::{fx_add, fx_add_s, fx_div, fx_div_s, fx_mul, fx_mul_s, fx_neg, fx_neg_s, lift_s};
use crate::math::{
    MAX_N, NPendulumMath, cent_entry_s, grav_entry_s, mass_entry_s,
};
use crate::solver::{SingularSystemError, lift_mat, lin_solve_s, solve_linear};

verus! {

/// One half in the fixed-point scale: the RK4 midpoint factor.
pub const FX_HALF: i64 = 8796093022208;

/// Two in the fixed-point scale: the RK4 midpoint weight.
pub const FX_TWO: i64 = 35184372088832;

/// Six in the fixed-point scale: the RK4 averaging divisor.
pub const FX_SIX: i64 = 105553116266496;

/// Largest supported simulation duration (raw fixed-point), so the time
/// axis cannot overflow.
pub const MAX_T: i64 = 0x3fffffffffffffff;

/// The 1-based angle vector [0, θ₁, .., θ_n] read out of a state vector.
pub open spec fn angles_1based_s(y: Seq<int>, n: int) -> Seq<int> {
    Seq::new((n + 1) as nat, |i: int| if i == 0 { 0int } else { y[i - 1] })
}

/// The 1-based angular-velocity vector [0, ω₁, .., ω_n] read out of a state
/// vector.
pub open spec fn ang_vels_1based_s(y: Seq<int>, n: int) -> Seq<int> {
    Seq::new((n + 1) as nat, |i: int| if i == 0 { 0int } else { y[n + i - 1] })
}

/// The assembled n×n mass matrix.
pub open spec fn mass_matrix_s(masses: Seq<int>, lengths: Seq<int>, angles: Seq<int>, n: int) -> Seq<
    Seq<int>,
> {
    Seq::new(
        n as nat,
        |r: int| Seq::new(n as nat, |c: int| mass_entry_s(masses, lengths, angles, n, r + 1, c + 1)),
    )
}

/// The assembled right-hand side R = −(C + G).
pub open spec fn rhs_vec_s(
    masses: Seq<int>,
    lengths: Seq<int>,
    angles: Seq<int>,
    ang_vels: Seq<int>,
    n: int,
) -> Seq<int> {
    Seq::new(
        n as nat,
        |i: int|
            fx_neg_s(
                fx_add_s(
                    cent_entry_s(masses, lengths, angles, ang_vels, n, i + 1),
                    grav_entry_s(masses, lengths, angles, n, i + 1),
                ),
            ),
    )
}

/// The angular accelerations α solving M·α = −(C + G); `None` exactly when
/// the assembled system is singular.
pub open spec fn accel_s(
    masses: Seq<int>,
    lengths: Seq<int>,
    angles: Seq<int>,
    ang_vels: Seq<int>,
    n: int,
) -> Option<Seq<int>> {
    lin_solve_s(
        mass_matrix_s(masses, lengths, angles, n),
        rhs_vec_s(masses, lengths, angles, ang_vels, n),
        n,
    )
}

/// The state derivative dy/dt = [ω, α].
pub open spec fn deriv_s(masses: Seq<int>, lengths: Seq<int>, n: int, y: Seq<int>) -> Option<
    Seq<int>,
> {
    match accel_s(masses, lengths, angles_1based_s(y, n), ang_vels_1based_s(y, n), n) {
        Option::None => None,
        Option::Some(al) => Some(
            Seq::new((2 * n) as nat, |i: int| if i < n { y[n + i] } else { al[i - n] }),
        ),
    }
}

/// The intermediate RK4 state y + k·s, elementwise.
pub open spec fn comb_s(y: Seq<int>, k: Seq<int>, s: int, len: int) -> Seq<int> {
    Seq::new(len as nat, |i: int| fx_add_s(y[i], fx_mul_s(k[i], s)))
}

/// The RK4 stage combination k1 + 2·k2 + 2·k3 + k4, at index `i`.
pub open spec fn rk4_sum_s(k1: Seq<int>, k2: Seq<int>, k3: Seq<int>, k4: Seq<int>, i: int) -> int {
    fx_add_s(
        fx_add_s(
            fx_add_s(k1[i], fx_mul_s(k2[i], FX_TWO as int)),
            fx_mul_s(k3[i], FX_TWO as int),
        ),
        k4[i],
    )
}

/// One RK4 step: y' = y + (k1 + 2·k2 + 2·k3 + k4)·(dt/6); `None` exactly
/// when any of the four derivative evaluations hits a singular system.
pub open spec fn rk4_step_s(masses: Seq<int>, lengths: Seq<int>, n: int, y: Seq<int>, dt: int) -> Option<
    Seq<int>,
> {
    let dt2 = fx_mul_s(dt, FX_HALF as int);
    let dt6 = fx_div_s(dt, FX_SIX as int);
    match deriv_s(masses, lengths, n, y) {
        Option::None => None,
        Option::Some(k1) => match deriv_s(masses, lengths, n, comb_s(y, k1, dt2, 2 * n)) {
            Option::None => None,
            Option::Some(k2) => match deriv_s(masses, lengths, n, comb_s(y, k2, dt2, 2 * n)) {
                Option::None => None,
                Option::Some(k3) => match deriv_s(masses, lengths, n, comb_s(y, k3, dt, 2 * n)) {
                    Option::None => None,
                    Option::Some(k4) => Some(
                        Seq::new(
                            (2 * n) as nat,
                            |i: int|
                                fx_add_s(y[i], fx_mul_s(rk4_sum_s(k1, k2, k3, k4, i), dt6)),
                        ),
                    ),
                },
            },
        },
    }
}

/// The state after `k` RK4 steps from `y0`; `None` exactly when some step
/// up to the k-th fails on a singular system.
pub open spec fn state_s(
    masses: Seq<int>,
    lengths: Seq<int>,
    n: int,
    y0: Seq<int>,
    dt: int,
    k: int,
) -> Option<Seq<int>>
    decreases k,
{
    if k <= 0 {
        Some(y0)
    } else {
        match state_s(masses, lengths, n, y0, dt, k - 1) {
            Option::None => None,
            Option::Some(y) => rk4_step_s(masses, lengths, n, y, dt),
        }
    }
}

/// The initial state vector [θ₁..θ_n, ω₁..ω_n] built from the 1-based
/// input arrays.
pub open spec fn init_state_s(angles: Seq<int>, ang_vels: Seq<int>, n: int) -> Seq<int> {
    Seq::new((2 * n) as nat, |i: int| if i < n { angles[i + 1] } else { ang_vels[i - n + 1] })
}

/// Once a step has failed, every later state is failed too.
pub proof fn lemma_state_none_mono(
    masses: Seq<int>,
    lengths: Seq<int>,
    n: int,
    y0: Seq<int>,
    dt: int,
    k1: int,
    k2: int,
)
    requires
        0 <= k1 <= k2,
        state_s(masses, lengths, n, y0, dt, k1) is None,
    ensures
        state_s(masses, lengths, n, y0, dt, k2) is None,
    decreases k2 - k1,
{
    if k2 > k1 {
        lemma_state_none_mono(masses, lengths, n, y0, dt, k1, k2 - 1);
    }
}

/// An element-for-element copy of a raw vector: each emitted trajectory
/// sample is an independent snapshot.
fn copy_vec(v: &Vec<i64>) -> (r: Vec<i64>)
    ensures
        r@ == v@,
{
    let mut r: Vec<i64> = Vec::new();
    let mut i: usize = 0;
    while i < v.len()
        invariant
            i <= v@.len(),
            r@.len() == i,
            forall|k: int| 0 <= k < i ==> (#[trigger] r@[k]) == v@[k],
        decreases v@.len() - i,
    {
        r.push(v[i]);
        i = i + 1;
    }
    proof {
        assert(r@ =~= v@);
    }
    r
}

/// The simulation driver for one chain: the parameters are immutable for
/// the duration of a run, and every run is a pure function of its inputs.
pub struct NPendulumSolver {
    pub n: usize,
    pub masses: Vec<i64>,
    pub lengths: Vec<i64>,
}

impl NPendulumSolver {
    /// A positive chain length within the supported bound, with 1-based
    /// mass and length arrays (sentinel zero at index 0).
    pub open spec fn wf(&self) -> bool {
        &&& 1 <= self.n <= MAX_N
        &&& self.masses@.len() == self.n + 1
        &&& self.lengths@.len() == self.n + 1
    }

    pub open spec fn masses_s(&self) -> Seq<int> {
        lift_s(self.masses@)
    }

    pub open spec fn lengths_s(&self) -> Seq<int> {
        lift_s(self.lengths@)
    }

    pub fn new(n: usize, masses: Vec<i64>, lengths: Vec<i64>) -> (r: Self)
        requires
            1 <= n <= MAX_N,
            masses@.len() == n + 1,
            lengths@.len() == n + 1,
        ensures
            r.wf(),
            r.n == n,
            r.masses == masses,
            r.lengths == lengths,
    {
        Self { n, masses, lengths }
    }

    /// Computes α = M⁻¹·(−C − G) for the given 1-based state snapshot.
    #[verifier::loop_isolation(false)]
    pub fn accelerations(&self, angles: &Vec<i64>, ang_vels: &Vec<i64>) -> (res: Result<
        Vec<i64>,
        SingularSystemError,
    >)
        requires
            self.wf(),
            angles@.len() == self.n + 1,
            ang_vels@.len() == self.n + 1,
        ensures
            ({
                let sol = accel_s(
                    self.masses_s(),
                    self.lengths_s(),
                    lift_s(angles@),
                    lift_s(ang_vels@),
                    self.n as int,
                );
                match res {
                    Ok(a) => sol == Some(lift_s(a@)) && a@.len() == self.n,
                    Err(_) => sol is None,
                }
            }),
    {
        let n = self.n;
        let math = NPendulumMath::new(
            n,
            copy_vec(&self.masses),
            copy_vec(&self.lengths),
            copy_vec(angles),
            copy_vec(ang_vels),
        );

        let m_mat = math.set_mass_matrix();
        let c_vec = math.set_centripetal_matrix();
        let g_vec = math.set_grav_matrix();

        // RHS = -(C + G)
        let mut rhs: Vec<i64> = Vec::new();
        let mut i: usize = 0;
        while i < n
            invariant
                i <= n,
                rhs@.len() == i,
                forall|k: int|
                    0 <= k < i ==> (#[trigger] rhs@[k]) as int == fx_neg_s(
                        fx_add_s(
                            cent_entry_s(
                                self.masses_s(),
                                self.lengths_s(),
                                lift_s(angles@),
                                lift_s(ang_vels@),
                                self.n as int,
                                k + 1,
                            ),
                            grav_entry_s(
                                self.masses_s(),
                                self.lengths_s(),
                                lift_s(angles@),
                                self.n as int,
                                k + 1,
                            ),
                        ),
                    ),
            decreases n - i,
        {
            rhs.push(fx_neg(fx_add(c_vec[i], g_vec[i])));
            i = i + 1;
        }
        proof {
            assert forall|r: int| 0 <= r < n implies lift_mat(m_mat@)[r] =~= mass_matrix_s(
                self.masses_s(),
                self.lengths_s(),
                lift_s(angles@),
                self.n as int,
            )[r] by {}
            assert(lift_mat(m_mat@) =~= mass_matrix_s(
                self.masses_s(),
                self.lengths_s(),
                lift_s(angles@),
                self.n as int,
            ));
            assert(lift_s(rhs@) =~= rhs_vec_s(
                self.masses_s(),
                self.lengths_s(),
                lift_s(angles@),
                lift_s(ang_vels@),
                self.n as int,
            ));
        }
        solve_linear(&m_mat, &rhs, n)
    }

    /// Computes dy/dt = [ω, α] for the state vector y = [θ, ω].
    #[verifier::loop_isolation(false)]
    pub fn deriv(&self, y: &Vec<i64>) -> (res: Result<Vec<i64>, SingularSystemError>)
        requires
            self.wf(),
            y@.len() == 2 * self.n,
        ensures
            ({
                let d = deriv_s(self.masses_s(), self.lengths_s(), self.n as int, lift_s(y@));
                match res {
                    Ok(v) => d == Some(lift_s(v@)) && v@.len() == 2 * self.n,
                    Err(_) => d is None,
                }
            }),
    {
        let n = self.n;

        // Prepare 1-indexed snapshots for the assembler.
        let mut angles: Vec<i64> = Vec::new();
        angles.push(0);
        let mut i: usize = 0;
        while i < n
            invariant
                i <= n,
                angles@.len() == i + 1,
                angles@[0] == 0,
                forall|k: int| 1 <= k <= i ==> (#[trigger] angles@[k]) == y@[k - 1],
            decreases n - i,
        {
            angles.push(y[i]);
            i = i + 1;
        }
        let mut ang_vels: Vec<i64> = Vec::new();
        ang_vels.push(0);
        let mut i: usize = 0;
        while i < n
            invariant
                i <= n,
                ang_vels@.len() == i + 1,
                ang_vels@[0] == 0,
                forall|k: int| 1 <= k <= i ==> (#[trigger] ang_vels@[k]) == y@[n + k - 1],
            decreases n - i,
        {
            ang_vels.push(y[n + i]);
            i = i + 1;
        }
        proof {
            assert(lift_s(angles@) =~= angles_1based_s(lift_s(y@), n as int));
            assert(lift_s(ang_vels@) =~= ang_vels_1based_s(lift_s(y@), n as int));
        }

        let alpha = match self.accelerations(&angles, &ang_vels) {
            Ok(a) => a,
            Err(e) => {
                return Err(e);
            },
        };

        let mut dydt: Vec<i64> = Vec::new();
        // dθ/dt = ω
        let mut i: usize = 0;
        while i < n
            invariant
                i <= n,
                dydt@.len() == i,
                forall|k: int| 0 <= k < i ==> (#[trigger] dydt@[k]) == y@[n + k],
            decreases n - i,
        {
            dydt.push(y[n + i]);
            i = i + 1;
        }
        // dω/dt = α
        let mut i: usize = 0;
        while i < n
            invariant
                i <= n,
                dydt@.len() == n + i,
                forall|k: int| 0 <= k < n ==> (#[trigger] dydt@[k]) == y@[n + k],
                forall|k: int| 0 <= k < i ==> (#[trigger] dydt@[n + k]) == alpha@[k],
            decreases n - i,
        {
            dydt.push(alpha[i]);
            i = i + 1;
        }
        proof {
            let d = deriv_s(self.masses_s(), self.lengths_s(), self.n as int, lift_s(y@));
            assert(accel_s(
                self.masses_s(),
                self.lengths_s(),
                angles_1based_s(lift_s(y@), n as int),
                ang_vels_1based_s(lift_s(y@), n as int),
                n as int,
            ) == Some(lift_s(alpha@)));
            assert(d is Some);
            assert forall|i: int| 0 <= i < 2 * n implies lift_s(dydt@)[i] == d->Some_0[i] by {
                if i < n {
                    assert(dydt@[i] == y@[n + i]);
                } else {
                    assert(dydt@[n + (i - n)] == alpha@[i - n]);
                }
            }
            assert(lift_s(dydt@) =~= d->Some_0);
        }
        Ok(dydt)
    }

    /// The intermediate RK4 state y + k·s, elementwise.
    #[verifier::loop_isolation(false)]
    fn comb(y: &Vec<i64>, k: &Vec<i64>, s: i64) -> (r: Vec<i64>)
        requires
            y@.len() == k@.len(),
        ensures
            r@.len() == y@.len(),
            lift_s(r@) == comb_s(lift_s(y@), lift_s(k@), s as int, y@.len() as int),
    {
        let mut r: Vec<i64> = Vec::new();
        let mut i: usize = 0;
        while i < y.len()
            invariant
                i <= y@.len(),
                r@.len() == i,
                forall|j: int|
                    0 <= j < i ==> (#[trigger] r@[j]) as int == fx_add_s(
                        y@[j] as int,
                        fx_mul_s(k@[j] as int, s as int),
                    ),
            decreases y@.len() - i,
        {
            r.push(fx_add(y[i], fx_mul(k[i], s)));
            i = i + 1;
        }
        proof {
            assert(lift_s(r@) =~= comb_s(lift_s(y@), lift_s(k@), s as int, y@.len() as int));
        }
        r
    }

    /// One RK4 step with step size `dt`.
    #[verifier::loop_isolation(false)]
    fn rk4_step(&self, y: &Vec<i64>, dt: i64) -> (res: Result<Vec<i64>, SingularSystemError>)
        requires
            self.wf(),
            y@.len() == 2 * self.n,
        ensures
            ({
                let s = rk4_step_s(
                    self.masses_s(),
                    self.lengths_s(),
                    self.n as int,
                    lift_s(y@),
                    dt as int,
                );
                match res {
                    Ok(v) => s == Some(lift_s(v@)) && v@.len() == 2 * self.n,
                    Err(_) => s is None,
                }
            }),
    {
        let n = self.n;
        let dt2 = fx_mul(dt, FX_HALF);
        let k1 = match self.deriv(y) {
            Ok(v) => v,
            Err(e) => {
                return Err(e);
            },
        };
        let y2 = Self::comb(y, &k1, dt2);
        let k2 = match self.deriv(&y2) {
            Ok(v) => v,
            Err(e) => {
                return Err(e);
            },
        };
        let y3 = Self::comb(y, &k2, dt2);
        let k3 = match self.deriv(&y3) {
            Ok(v) => v,
            Err(e) => {
                return Err(e);
            },
        };
        let y4 = Self::comb(y, &k3, dt);
        let k4 = match self.deriv(&y4) {
            Ok(v) => v,
            Err(e) => {
                return Err(e);
            },
        };
        let dt6 = fx_div(dt, FX_SIX);
        let mut ny: Vec<i64> = Vec::new();
        let mut i: usize = 0;
        while i < 2 * n
            invariant
                i <= 2 * n,
                ny@.len() == i,
                forall|j: int|
                    0 <= j < i ==> (#[trigger] ny@[j]) as int == fx_add_s(
                        y@[j] as int,
                        fx_mul_s(
                            rk4_sum_s(lift_s(k1@), lift_s(k2@), lift_s(k3@), lift_s(k4@), j),
                            fx_div_s(dt as int, FX_SIX as int),
                        ),
                    ),
            decreases 2 * n - i,
        {
            let sum = fx_add(
                fx_add(fx_add(k1[i], fx_mul(k2[i], FX_TWO)), fx_mul(k3[i], FX_TWO)),
                k4[i],
            );
            ny.push(fx_add(y[i], fx_mul(sum, dt6)));
            i = i + 1;
        }
        proof {
            assert(lift_s(ny@) =~= rk4_step_s(
                self.masses_s(),
                self.lengths_s(),
                self.n as int,
                lift_s(y@),
                dt as int,
            )->Some_0);
        }
        Ok(ny)
    }

    /// Main integration loop: `n_points` samples at uniform spacing
    /// `dt = t_max / (n_points − 1)`, the first being the initial state; the
    /// step taken after the last recorded sample is computed and discarded.
    /// Returns the time axis and the state snapshots, or
    /// [`SingularSystemError`] if any step hits a singular system.
    #[verifier::loop_isolation(false)]
    #[verifier::rlimit(50)]
    pub fn solve(
        &self,
        initial_angles: Vec<i64>,
        initial_ang_vels: Vec<i64>,
        t_max: i64,
        n_points: usize,
    ) -> (res: Result<(Vec<i64>, Vec<Vec<i64>>), SingularSystemError>)
        requires
            self.wf(),
            initial_angles@.len() == self.n + 1,
            initial_ang_vels@.len() == self.n + 1,
            0 < t_max <= MAX_T,
            2 <= n_points <= MAX_N,
        ensures
            ({
                let y0 = init_state_s(
                    lift_s(initial_angles@),
                    lift_s(initial_ang_vels@),
                    self.n as int,
                );
                let dt = t_max as int / (n_points - 1) as int;
                match res {
                    Ok(ts) => {
                        &&& ts.0@.len() == n_points
                        &&& ts.1@.len() == n_points
                        &&& forall|k: int|
                            0 <= k < n_points ==> (#[trigger] ts.0@[k]) as int == k * dt
                        &&& forall|k: int|
                            0 <= k < n_points ==> state_s(
                                self.masses_s(),
                                self.lengths_s(),
                                self.n as int,
                                y0,
                                dt,
                                k,
                            ) == Some(lift_s((#[trigger] ts.1@[k])@))
                        &&& lift_s(ts.1@[0]@) == y0
                        &&& state_s(
                            self.masses_s(),
                            self.lengths_s(),
                            self.n as int,
                            y0,
                            dt,
                            n_points as int,
                        ) is Some
                    },
                    Err(_) => state_s(
                        self.masses_s(),
                        self.lengths_s(),
                        self.n as int,
                        y0,
                        dt,
                        n_points as int,
                    ) is None,
                }
            }),
    {
        let n = self.n;
        let dt: i64 = ((t_max as u64) / ((n_points - 1) as u64)) as i64;
        let ghost y0 = init_state_s(
            lift_s(initial_angles@),
            lift_s(initial_ang_vels@),
            self.n as int,
        );
        proof {
            assert(dt as int == t_max as int / (n_points - 1) as int);
            vstd::arithmetic::div_mod::lemma_fundamental_div_mod(
                t_max as int,
                (n_points - 1) as int,
            );
            assert((n_points - 1) as int * (dt as int) <= t_max as int);
        }

        // Initial state vector [θ1...θn, ω1...ωn].
        let mut y: Vec<i64> = Vec::new();
        let mut i: usize = 0;
        while i < n
            invariant
                i <= n,
                y@.len() == i,
                forall|k: int| 0 <= k < i ==> (#[trigger] y@[k]) == initial_angles@[k + 1],
            decreases n - i,
        {
            y.push(initial_angles[i + 1]);
            i = i + 1;
        }
        let mut i: usize = 0;
        while i < n
            invariant
                i <= n,
                y@.len() == n + i,
                forall|k: int| 0 <= k < n ==> (#[trigger] y@[k]) == initial_angles@[k + 1],
                forall|k: int| 0 <= k < i ==> (#[trigger] y@[n + k]) == initial_ang_vels@[k + 1],
            decreases n - i,
        {
            y.push(initial_ang_vels[i + 1]);
            i = i + 1;
        }
        proof {
            assert forall|k: int| 0 <= k < 2 * n implies lift_s(y@)[k] == y0[k] by {
                if k < n {
                    assert(y@[k] == initial_angles@[k + 1]);
                } else {
                    assert(y@[n + (k - n)] == initial_ang_vels@[k - n + 1]);
                }
            }
            assert(lift_s(y@) =~= y0);
        }

        let mut t_axis: Vec<i64> = Vec::new();
        let mut sol: Vec<Vec<i64>> = Vec::new();
        let mut curr_t: i64 = 0;
        let mut step: usize = 0;
        while step < n_points
            invariant
                step <= n_points,
                t_axis@.len() == step,
                sol@.len() == step,
                y@.len() == 2 * n,
                curr_t as int == step as int * dt as int,
                state_s(self.masses_s(), self.lengths_s(), n as int, y0, dt as int, step as int)
                    == Some(lift_s(y@)),
                forall|k: int| 0 <= k < step ==> (#[trigger] t_axis@[k]) as int == k * dt as int,
                forall|k: int|
                    0 <= k < step ==> state_s(
                        self.masses_s(),
                        self.lengths_s(),
                        n as int,
                        y0,
                        dt as int,
                        k,
                    ) == Some(lift_s((#[trigger] sol@[k])@)),
            decreases n_points - step,
        {
            proof {
                vstd::arithmetic::mul::lemma_mul_inequality(
                    step as int,
                    (n_points - 1) as int,
                    dt as int,
                );
            }
            t_axis.push(curr_t);
            sol.push(copy_vec(&y));
            match self.rk4_step(&y, dt) {
                Ok(ny) => {
                    y = ny;
                },
                Err(_) => {
                    proof {
                        lemma_state_none_mono(
                            self.masses_s(),
                            self.lengths_s(),
                            n as int,
                            y0,
                            dt as int,
                            step as int + 1,
                            n_points as int,
                        );
                    }
                    return Err(SingularSystemError);
                },
            }
            proof {
                assert((step as int + 1) * dt as int == step as int * dt as int + dt as int)
                    by (nonlinear_arith);
            }
            curr_t = curr_t + dt;
            step = step + 1;
        }
        Ok((t_axis, sol))
    }
}

} // verus!
