use odesolve::abam4::{abam4, correct, predict, shift};
use odesolve::config::{IntegrationSpec, SolveError};
use odesolve::integrator::{integrate, Integrator};
use odesolve::rate::RateFunction;
use odesolve::rk4::rk4;
use odesolve::scalar::Scalar;
use odesolve::semiconductor::{abam4_pred_corr, Oscillator};

#[derive(Clone, Copy, Debug, PartialEq)]
struct Real(f64);

impl Scalar for Real {
    fn from_count(n: u64) -> Self {
        Real(n as f64)
    }

    fn floor_count(self) -> usize {
        self.0.floor() as usize
    }

    fn plus(self, rhs: Self) -> Self {
        Real(self.0 + rhs.0)
    }

    fn minus(self, rhs: Self) -> Self {
        Real(self.0 - rhs.0)
    }

    fn times(self, rhs: Self) -> Self {
        Real(self.0 * rhs.0)
    }

    fn over(self, rhs: Self) -> Self {
        Real(self.0 / rhs.0)
    }

    fn magnitude(self) -> Self {
        Real(self.0.abs())
    }

    fn powi(self, n: i32) -> Self {
        Real(self.0.powi(n))
    }

    fn log10(self) -> Self {
        Real(self.0.log10())
    }

    fn less_than(self, rhs: Self) -> bool {
        self.0 < rhs.0
    }

    fn equals(self, rhs: Self) -> bool {
        self.0 == rhs.0
    }
}

fn pair(a: f64, b: f64) -> [Real; 2] {
    [Real(a), Real(b)]
}

/// `x' = v, v' = -x`: from `[1, 0]` the solution is `[cos t, -sin t]`.
struct Harmonic;

impl RateFunction<Real> for Harmonic {
    fn rate(&self, w: &[Real; 2]) -> [Real; 2] {
        [w[1], Real(0.0 - w[0].0)]
    }
}

fn request(w0: [Real; 2], t0: f64, tf: f64, dt: f64) -> IntegrationSpec<Real> {
    IntegrationSpec::new(w0, Real(t0), Real(tf), Real(dt)).unwrap()
}

fn history() -> [[Real; 2]; 4] {
    [pair(1.0, 2.0), pair(3.0, 5.0), pair(7.0, 11.0), pair(13.0, 17.0)]
}

#[test]
fn predict_applies_the_adams_bashforth_weights() {
    let wpred = predict(&pair(0.5, 0.25), &history(), Real(0.1));
    assert_eq!(wpred, pair(2.1833333333333336, 2.1375));
    // 0 + (24/24) * (55*1 - 59*1 + 37*1 - 9*1) = 24
    let flat = [pair(1.0, 0.0); 4];
    assert_eq!(predict(&pair(0.0, 0.0), &flat, Real(24.0)), pair(24.0, 0.0));
    // Only the newest entry counts 55, only the oldest -9.
    let newest = [pair(0.0, 0.0), pair(0.0, 0.0), pair(0.0, 0.0), pair(1.0, 0.0)];
    assert_eq!(predict(&pair(0.0, 0.0), &newest, Real(24.0)), pair(55.0, 0.0));
    let oldest = [pair(1.0, 0.0), pair(0.0, 0.0), pair(0.0, 0.0), pair(0.0, 0.0)];
    assert_eq!(predict(&pair(0.0, 0.0), &oldest, Real(24.0)), pair(-9.0, 0.0));
}

#[test]
fn correct_applies_the_adams_moulton_weights() {
    let wnew = correct(&pair(0.5, 0.25), &history(), &pair(19.0, 23.0), Real(0.1));
    assert_eq!(wnew, pair(2.1083333333333334, 2.25));
    // The oldest entry of the history plays no part.
    let mut other = history();
    other[0] = pair(-100.0, 100.0);
    assert_eq!(correct(&pair(0.5, 0.25), &other, &pair(19.0, 23.0), Real(0.1)), wnew);
    // 0 + (24/24) * (9*1 + 19*0 - 5*0 + 0) = 9
    let none = [pair(0.0, 0.0); 4];
    assert_eq!(correct(&pair(0.0, 0.0), &none, &pair(1.0, 1.0), Real(24.0)), pair(9.0, 9.0));
    let third = [pair(0.0, 0.0), pair(0.0, 0.0), pair(1.0, 0.0), pair(0.0, 0.0)];
    assert_eq!(correct(&pair(0.0, 0.0), &third, &pair(0.0, 0.0), Real(24.0)), pair(-5.0, 0.0));
}

#[test]
fn shift_drops_the_oldest_derivative() {
    let mut h = history();
    shift(&mut h, pair(19.0, 23.0));
    assert_eq!(h, [pair(3.0, 5.0), pair(7.0, 11.0), pair(13.0, 17.0), pair(19.0, 23.0)]);
    shift(&mut h, pair(0.0, 1.0));
    assert_eq!(h, [pair(7.0, 11.0), pair(13.0, 17.0), pair(19.0, 23.0), pair(0.0, 1.0)]);
}

#[test]
fn abam4_run_of_the_harmonic_oscillator() {
    let spec = request(pair(1.0, 0.0), 0.0, 0.5, 0.1);
    let traj = abam4(&Harmonic, &spec).unwrap();
    let expected = [
        pair(1.0, 0.0),
        pair(0.9950041666666667, -0.09983333333333333),
        pair(0.9800665972395833, -0.19866916527777778),
        pair(0.9553365428639757, -0.29551996253066265),
        pair(0.9210611303126534, -0.3894183843478196),
        pair(0.877582717429459, -0.4794258773237896),
    ];
    assert_eq!(traj.states.len(), 6);
    for i in 0..6 {
        assert_eq!(traj.states[i], expected[i]);
    }
    assert_eq!(
        traj.time,
        vec![Real(0.0), Real(0.1), Real(0.2), Real(0.30000000000000004), Real(0.4), Real(0.5)]
    );
}

#[test]
fn abam4_first_four_states_are_those_of_rk4() {
    for (dt, alpha) in [(1e-3, 0.5), (1e-2, 2.5), (1e-1, 3.5)] {
        let model = Oscillator { alpha: Real(alpha) };
        let spec = request(pair(0.0, 0.1), 0.0, 10.0, dt);
        let multistep = abam4(&model, &spec).unwrap();
        let single_step = rk4(&model, &spec);
        for i in 0..4 {
            assert_eq!(multistep.states[i][0].0.to_bits(), single_step.states[i][0].0.to_bits());
            assert_eq!(multistep.states[i][1].0.to_bits(), single_step.states[i][1].0.to_bits());
        }
        assert_ne!(multistep.states[4], single_step.states[4]);
    }
}

#[test]
fn abam4_step_count_and_time_grid() {
    let spec = request(pair(1.0, 0.0), 0.5, 3.0, 0.3);
    let traj = abam4(&Harmonic, &spec).unwrap();
    assert_eq!(traj.states.len(), 9);
    assert_eq!(traj.time.len(), 9);
    for i in 0..9 {
        assert_eq!(traj.time[i], Real(0.5 + (i as f64) * 0.3));
    }
    assert_eq!(traj.states[0], pair(1.0, 0.0));
}

#[test]
fn abam4_needs_four_steps() {
    for (tf, steps) in [(0.05, 0usize), (0.15, 1), (0.25, 2), (0.35, 3)] {
        let spec = request(pair(1.0, 0.0), 0.0, tf, 0.1);
        assert_eq!(spec.steps(), steps);
        assert_eq!(abam4(&Harmonic, &spec).unwrap_err(), SolveError::InvalidConfiguration);
        assert_eq!(
            integrate(Integrator::Abam4, &Harmonic, &spec).unwrap_err(),
            SolveError::InvalidConfiguration
        );
        assert_eq!(integrate(Integrator::Rk4, &Harmonic, &spec).unwrap().states.len(), steps + 1);
    }
    let spec = request(pair(1.0, 0.0), 0.0, 0.45, 0.1);
    assert_eq!(spec.steps(), 4);
    assert_eq!(abam4(&Harmonic, &spec).unwrap().states.len(), 5);
}

#[test]
fn abam4_is_deterministic() {
    let model = Oscillator { alpha: Real(1.5) };
    let spec = request(pair(0.0, 0.1), 0.0, 20.0, 1e-2);
    let first = abam4(&model, &spec).unwrap();
    let second = abam4(&model, &spec).unwrap();
    assert_eq!(first.states.len(), 2001);
    assert_eq!(second.states.len(), 2001);
    for i in 0..first.states.len() {
        assert_eq!(first.time[i].0.to_bits(), second.time[i].0.to_bits());
        assert_eq!(first.states[i][0].0.to_bits(), second.states[i][0].0.to_bits());
        assert_eq!(first.states[i][1].0.to_bits(), second.states[i][1].0.to_bits());
    }
}

#[test]
fn integrate_picks_the_method() {
    let spec = request(pair(1.0, 0.0), 0.0, 0.5, 0.1);
    let by_rk4 = integrate(Integrator::Rk4, &Harmonic, &spec).unwrap();
    let by_abam4 = integrate(Integrator::Abam4, &Harmonic, &spec).unwrap();
    assert_eq!(by_rk4.states, rk4(&Harmonic, &spec).states);
    assert_eq!(by_abam4.states, abam4(&Harmonic, &spec).unwrap().states);
    assert_ne!(by_rk4.states[5], by_abam4.states[5]);
    assert!(Integrator::Rk4.accepts(0));
    assert!(!Integrator::Abam4.accepts(3));
    assert!(Integrator::Abam4.accepts(4));
}

#[test]
fn oscillator_rk4_and_abam4_agree_at_a_fine_step() {
    let model = Oscillator { alpha: Real(0.5) };
    let spec = request(pair(0.0, 0.1), 0.0, 100.0, 1e-3);
    let single_step = rk4(&model, &spec);
    let multistep = abam4(&model, &spec).unwrap();
    assert_eq!(single_step.states.len(), 100_001);
    assert_eq!(multistep.states.len(), 100_001);
    let a = single_step.final_state();
    let b = multistep.final_state();
    for c in 0..2 {
        let relative = (a[c].0 - b[c].0).abs() / a[c].0.abs();
        assert!(relative < 1e-3);
    }
}

#[test]
fn oscillator_abam4_degrades_at_a_coarse_step() {
    let coarse = abam4_pred_corr(Real(3.5), Real(1e-1), Real(0.0), Real(100.0)).unwrap();
    let fine = abam4_pred_corr(Real(3.5), Real(1e-3), Real(0.0), Real(100.0)).unwrap();
    assert_eq!(coarse.states.len(), 1001);
    assert_eq!(fine.states.len(), 100_001);
    let mut worst: f64 = 0.0;
    for i in 0..coarse.states.len() {
        for c in 0..2 {
            let gap = (coarse.states[i][c].0 - fine.states[100 * i][c].0).abs();
            if !(gap <= worst) {
                worst = gap;
            }
        }
    }
    // The coarse run strays visibly from the fine one ...
    assert!(!(worst < 1e-2));
    for c in 0..2 {
        let a = coarse.final_state()[c].0;
        let b = fine.final_state()[c].0;
        assert!(!((a - b).abs() / b.abs() < 1e-3));
    }
    // ... while the same step is harmless at a gentle coupling.
    let coarse = abam4_pred_corr(Real(0.5), Real(1e-1), Real(0.0), Real(100.0)).unwrap();
    let fine = abam4_pred_corr(Real(0.5), Real(1e-3), Real(0.0), Real(100.0)).unwrap();
    let mut worst: f64 = 0.0;
    for i in 0..coarse.states.len() {
        for c in 0..2 {
            let gap = (coarse.states[i][c].0 - fine.states[100 * i][c].0).abs();
            if !(gap <= worst) {
                worst = gap;
            }
        }
    }
    assert!(worst < 1e-3);
}
