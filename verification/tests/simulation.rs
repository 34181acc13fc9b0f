use npendulum::geom::compute_positions;
use npendulum::logic::NPendulumSolver;
use npendulum::math::NPendulumMath;

const SCALE: f64 = 17592186044416.0;
const G: f64 = 9.81;

fn fx(x: f64) -> i64 {
    (x * SCALE).round() as i64
}

fn fl(v: i64) -> f64 {
    (v as f64) / SCALE
}

fn fl_vec(v: &[i64]) -> Vec<f64> {
    v.iter().map(|&x| fl(x)).collect()
}

/// Suffix mass sum in floating point, 0-based over plain parameter arrays.
fn mass_sum(masses: &[f64], k: usize) -> f64 {
    masses[k..].iter().sum()
}

/// Total energy (kinetic + potential) of a chain state, in floating point.
fn energy(masses: &[f64], lengths: &[f64], state: &[f64]) -> f64 {
    let n = masses.len();
    let theta = &state[..n];
    let omega = &state[n..];
    let mut ke = 0.0;
    for i in 0..n {
        for j in 0..n {
            let ms = mass_sum(masses, i.max(j));
            ke += 0.5 * ms * lengths[i] * lengths[j] * (theta[i] - theta[j]).cos() * omega[i]
                * omega[j];
        }
    }
    let mut pe = 0.0;
    for i in 0..n {
        pe -= mass_sum(masses, i) * G * lengths[i] * theta[i].cos();
    }
    ke + pe
}

#[test]
fn simple_pendulum_mass_matrix_is_m_l_squared() {
    let masses = vec![0, fx(1.3)];
    let lengths = vec![0, fx(0.8)];
    let angles = vec![0, fx(0.3)];
    let ang_vels = vec![0, 0];
    let math = NPendulumMath::new(1, masses, lengths, angles, ang_vels);
    let m = math.set_mass_matrix();
    assert_eq!(m.len(), 1);
    assert_eq!(m[0].len(), 1);
    assert!((fl(m[0][0]) - 1.3 * 0.8 * 0.8).abs() < 1e-9);
}

#[test]
fn simple_pendulum_acceleration_matches_classical_equation() {
    let theta = 0.3;
    let solver = NPendulumSolver::new(1, vec![0, fx(1.0)], vec![0, fx(1.0)]);
    let alpha = solver
        .accelerations(&vec![0, fx(theta)], &vec![0, 0])
        .unwrap();
    assert_eq!(alpha.len(), 1);
    let expected = -G * theta.sin();
    assert!((fl(alpha[0]) - expected).abs() < 1e-7);
}

#[test]
fn simple_pendulum_tracks_linearized_solution() {
    // Small amplitude, short time: θ(t) ≈ θ0·cos(√(g/l)·t).
    let theta0 = 0.001;
    let solver = NPendulumSolver::new(1, vec![0, fx(1.0)], vec![0, fx(1.0)]);
    let (t_axis, sol) = solver
        .solve(vec![0, fx(theta0)], vec![0, 0], fx(0.1), 11)
        .unwrap();
    assert_eq!(sol.len(), 11);
    for k in 0..11 {
        let t = fl(t_axis[k]);
        let expected = theta0 * (G.sqrt() * t).cos();
        assert!((fl(sol[k][0]) - expected).abs() < 1e-6);
    }
}

#[test]
fn energy_is_approximately_conserved() {
    // Double pendulum released horizontally, t_max = 10, 1000 samples.
    let solver = NPendulumSolver::new(2, vec![0, fx(1.0), fx(1.0)], vec![0, fx(1.0), fx(1.0)]);
    let half_pi = std::f64::consts::FRAC_PI_2;
    let (_t, sol) = solver
        .solve(
            vec![0, fx(half_pi), fx(half_pi)],
            vec![0, 0, 0],
            fx(10.0),
            1000,
        )
        .unwrap();
    let masses = [1.0, 1.0];
    let lengths = [1.0, 1.0];
    let e0 = energy(&masses, &lengths, &fl_vec(&sol[0]));
    // Energy scale of this configuration: lifting both rods from rest is
    // about 3·g·l ≈ 29.4; drift must stay under 1% of it.
    for state in &sol {
        let e = energy(&masses, &lengths, &fl_vec(state));
        assert!((e - e0).abs() < 0.294);
    }
}

#[test]
fn mass_matrix_is_symmetric_exactly() {
    let masses = vec![0, fx(1.5), fx(2.0), fx(0.7)];
    let lengths = vec![0, fx(0.9), fx(1.1), fx(1.3)];
    let angles = vec![0, fx(0.4), fx(-1.2), fx(2.9)];
    let ang_vels = vec![0, fx(0.3), fx(-0.8), fx(1.7)];
    let math = NPendulumMath::new(3, masses, lengths, angles, ang_vels);
    let m = math.set_mass_matrix();
    for i in 0..3 {
        for j in 0..3 {
            assert_eq!(m[i][j], m[j][i]);
        }
    }
}

#[test]
fn identical_inputs_give_bit_identical_trajectories() {
    let solver = NPendulumSolver::new(2, vec![0, fx(1.0), fx(2.0)], vec![0, fx(1.0), fx(0.5)]);
    let init_a = vec![0, fx(1.0), fx(-0.5)];
    let init_w = vec![0, fx(0.2), 0];
    let r1 = solver
        .solve(init_a.clone(), init_w.clone(), fx(2.0), 100)
        .unwrap();
    let r2 = solver.solve(init_a, init_w, fx(2.0), 100).unwrap();
    assert_eq!(r1.0, r2.0);
    assert_eq!(r1.1, r2.1);
}

#[test]
fn trajectory_has_exactly_n_points_samples() {
    let solver = NPendulumSolver::new(2, vec![0, fx(1.0), fx(1.0)], vec![0, fx(1.0), fx(1.0)]);
    let init_a = vec![0, fx(0.7), fx(-0.2)];
    let init_w = vec![0, fx(0.1), fx(0.3)];
    let t_max = fx(5.0);
    let n_points = 50;
    let (t_axis, sol) = solver
        .solve(init_a.clone(), init_w.clone(), t_max, n_points)
        .unwrap();
    assert_eq!(t_axis.len(), n_points);
    assert_eq!(sol.len(), n_points);
    // First sample is exactly the supplied initial state.
    assert_eq!(sol[0], vec![init_a[1], init_a[2], init_w[1], init_w[2]]);
    // Times start at 0 with uniform spacing t_max / (n_points - 1).
    let dt = t_max / (n_points as i64 - 1);
    for k in 0..n_points {
        assert_eq!(t_axis[k], k as i64 * dt);
    }
}

#[test]
fn minimal_two_point_run() {
    let solver = NPendulumSolver::new(1, vec![0, fx(1.0)], vec![0, fx(1.0)]);
    let (t_axis, sol) = solver.solve(vec![0, fx(0.5)], vec![0, 0], fx(1.0), 2).unwrap();
    assert_eq!(t_axis.len(), 2);
    assert_eq!(sol.len(), 2);
    assert_eq!(t_axis[0], 0);
    assert_eq!(t_axis[1], fx(1.0));
    assert_eq!(sol[0], vec![fx(0.5), 0]);
}

#[test]
fn zero_length_rod_is_reported_singular() {
    let solver = NPendulumSolver::new(2, vec![0, fx(1.0), fx(1.0)], vec![0, fx(1.0), 0]);
    let res = solver.solve(vec![0, fx(1.0), fx(1.0)], vec![0, 0, 0], fx(1.0), 100);
    assert!(res.is_err());
    let res2 = solver.accelerations(&vec![0, fx(1.0), fx(1.0)], &vec![0, 0, 0]);
    assert!(res2.is_err());
}

#[test]
fn horizontal_double_pendulum_scenario() {
    // N=2, unit masses and lengths, both rods horizontal, at rest.
    let half_pi = std::f64::consts::FRAC_PI_2;
    let solver = NPendulumSolver::new(2, vec![0, fx(1.0), fx(1.0)], vec![0, fx(1.0), fx(1.0)]);
    let (_t, sol) = solver
        .solve(vec![0, fx(half_pi), fx(half_pi)], vec![0, 0, 0], fx(1.0), 100)
        .unwrap();
    assert_eq!(sol.len(), 100);
    assert_eq!(sol[0], vec![fx(half_pi), fx(half_pi), 0, 0]);
    // Gravity pulls both rods downward: the angles fall monotonically over
    // the first few steps.
    for k in 1..6 {
        assert!(sol[k][0] < sol[k - 1][0]);
        assert!(sol[k][1] < sol[k - 1][1]);
    }
}

#[test]
fn positions_of_hanging_chain() {
    // Both rods straight down: joints at (0,-1) and (0,-2).
    let sol = vec![vec![0, 0, 0, 0]];
    let pos = compute_positions(&sol, 2, &vec![0, fx(1.0), fx(1.0)]);
    assert_eq!(pos.len(), 1);
    assert_eq!(pos[0].len(), 4);
    assert!((fl(pos[0][0]) - 0.0).abs() < 1e-9);
    assert!((fl(pos[0][1]) + 1.0).abs() < 1e-9);
    assert!((fl(pos[0][2]) - 0.0).abs() < 1e-9);
    assert!((fl(pos[0][3]) + 2.0).abs() < 1e-9);
}

#[test]
fn positions_of_horizontal_chain() {
    // Both rods horizontal: joints at (1,0) and (2,0).
    let half_pi = std::f64::consts::FRAC_PI_2;
    let sol = vec![vec![fx(half_pi), fx(half_pi), 0, 0]];
    let pos = compute_positions(&sol, 2, &vec![0, fx(1.0), fx(1.0)]);
    assert!((fl(pos[0][0]) - 1.0).abs() < 1e-9);
    assert!(fl(pos[0][1]).abs() < 1e-9);
    assert!((fl(pos[0][2]) - 2.0).abs() < 1e-9);
    assert!(fl(pos[0][3]).abs() < 1e-9);
}

#[test]
fn centripetal_and_gravity_vectors_match_formulas() {
    // N=2 at distinct angles with nonzero velocities: check against the
    // closed-form entries computed in floating point.
    let (m1, m2) = (1.0, 2.0);
    let (l1, l2) = (0.5, 1.5);
    let (a1, a2) = (0.7, -0.4);
    let (w1, w2) = (0.3, -1.1);
    let math = NPendulumMath::new(
        2,
        vec![0, fx(m1), fx(m2)],
        vec![0, fx(l1), fx(l2)],
        vec![0, fx(a1), fx(a2)],
        vec![0, fx(w1), fx(w2)],
    );
    let c = math.set_centripetal_matrix();
    let g = math.set_grav_matrix();
    let c1 = m2 * l1 * l2 * (a1 - a2).sin() * w2 * w2;
    let c2 = m2 * l2 * l1 * (a2 - a1).sin() * w1 * w1;
    let g1 = (m1 + m2) * G * l1 * a1.sin();
    let g2 = m2 * G * l2 * a2.sin();
    assert!((fl(c[0]) - c1).abs() < 1e-7);
    assert!((fl(c[1]) - c2).abs() < 1e-7);
    assert!((fl(g[0]) - g1).abs() < 1e-7);
    assert!((fl(g[1]) - g2).abs() < 1e-7);
}

#[test]
fn fixed_point_trig_matches_float_trig() {
    // Sweep several turns in both directions, hitting all four quadrants.
    let mut a = -13.0;
    while a <= 13.0 {
        let c = npendulum::trig::cos_fx(fx(a));
        let s = npendulum::trig::sin_fx(fx(a));
        assert!((fl(c) - a.cos()).abs() < 1e-9);
        assert!((fl(s) - a.sin()).abs() < 1e-9);
        a += 0.173;
    }
}

#[test]
fn fixed_point_arithmetic_saturates() {
    assert_eq!(npendulum::fx::fx_mul(i64::MAX, fx(2.0)), i64::MAX);
    assert_eq!(npendulum::fx::fx_mul(i64::MAX, fx(-2.0)), i64::MIN);
    assert_eq!(npendulum::fx::fx_add(i64::MAX, i64::MAX), i64::MAX);
    assert_eq!(npendulum::fx::fx_sub(i64::MIN, i64::MAX), i64::MIN);
    assert_eq!(npendulum::fx::fx_mul(fx(3.0), fx(0.5)), fx(1.5));
    assert_eq!(npendulum::fx::fx_div(fx(1.0), fx(-2.0)), fx(-0.5));
}
