use odesolve::config::{IntegrationSpec, SolveError};
use odesolve::convergence::{analyze, final_state_of, measure, sample, scaled, ErrorSample};
use odesolve::integrator::Integrator;
use odesolve::rate::RateFunction;
use odesolve::rk4::rk4;
use odesolve::scalar::Scalar;

#[derive(Clone, Copy, Debug, PartialEq)]
struct Real(f64);

impl Scalar for Real {
    fn from_count(n: u64) -> Self {
        Real(n as f64)
    }

    fn floor_count(self) -> usize {
        self.0.floor() as usize
    }

    fn plus(self, rhs: Self) -> Self {
        Real(self.0 + rhs.0)
    }

    fn minus(self, rhs: Self) -> Self {
        Real(self.0 - rhs.0)
    }

    fn times(self, rhs: Self) -> Self {
        Real(self.0 * rhs.0)
    }

    fn over(self, rhs: Self) -> Self {
        Real(self.0 / rhs.0)
    }

    fn magnitude(self) -> Self {
        Real(self.0.abs())
    }

    fn powi(self, n: i32) -> Self {
        Real(self.0.powi(n))
    }

    fn log10(self) -> Self {
        Real(self.0.log10())
    }

    fn less_than(self, rhs: Self) -> bool {
        self.0 < rhs.0
    }

    fn equals(self, rhs: Self) -> bool {
        self.0 == rhs.0
    }
}

fn pair(a: f64, b: f64) -> [Real; 2] {
    [Real(a), Real(b)]
}

/// `x' = v, v' = -x`: from `[1, 0]` the solution is `[cos t, -sin t]`.
struct Harmonic;

impl RateFunction<Real> for Harmonic {
    fn rate(&self, w: &[Real; 2]) -> [Real; 2] {
        [w[1], Real(0.0 - w[0].0)]
    }
}

/// Nothing moves.
struct Still;

impl RateFunction<Real> for Still {
    fn rate(&self, _w: &[Real; 2]) -> [Real; 2] {
        [Real(0.0), Real(0.0)]
    }
}

fn request(w0: [Real; 2], t0: f64, tf: f64, dt: f64) -> IntegrationSpec<Real> {
    IntegrationSpec::new(w0, Real(t0), Real(tf), Real(dt)).unwrap()
}

fn reals(values: &[f64]) -> Vec<Real> {
    values.iter().map(|v| Real(*v)).collect()
}

#[test]
fn measure_is_the_logarithm_of_the_relative_error() {
    assert_eq!(measure(Real(1.1), Real(1.0)), Real(((1.1f64 - 1.0).abs() / 1.0f64).log10()));
    assert_eq!(measure(Real(-3.0), Real(-2.0)), Real((1.0f64 / 2.0).log10()));
    assert_eq!(measure(Real(2.0), Real(-2.0)), Real(2.0f64.log10()));
    assert_eq!(measure(Real(11.0), Real(1.0)), Real(1.0));
}

#[test]
fn measure_floors_the_error() {
    let floor = Real((1e-16f64).log10());
    assert_eq!(floor, Real(-16.0));
    assert_eq!(measure(Real(1.0), Real(1.0)), floor);
    assert_eq!(measure(Real(1.0 + 1e-17), Real(1.0)), floor);
    assert_eq!(measure(Real(5.0), Real(5.0 + 1e-20)), floor);
    // An error above the floor is kept.
    let above = measure(Real(1.0 + 4.0 * f64::EPSILON), Real(1.0));
    assert_eq!(above, Real((4.0 * f64::EPSILON).log10()));
    assert!(above.0 > -16.0);
    // An undefined error is floored as well.
    assert_eq!(measure(Real(f64::NAN), Real(1.0)), floor);
}

#[test]
fn analyze_orders_the_report_by_rising_inverse_step() {
    let base = request(pair(1.0, 0.0), 0.0, 2.0, 0.0125);
    let multipliers = reals(&[1.0, 2.0, 4.0, 8.0, 16.0]);
    let report = analyze(Integrator::Rk4, &Harmonic, &base, &multipliers).unwrap();
    assert_eq!(report.len(), 4);
    assert_eq!(report[0].inverse_dt, Real(1.0 / (16.0 * 0.0125)));
    assert_eq!(report[1].inverse_dt, Real(1.0 / (8.0 * 0.0125)));
    assert_eq!(report[2].inverse_dt, Real(1.0 / (4.0 * 0.0125)));
    assert_eq!(report[3].inverse_dt, Real(1.0 / (2.0 * 0.0125)));
    for k in 1..4 {
        assert!(report[k - 1].inverse_dt.0 < report[k].inverse_dt.0);
    }
}

#[test]
fn analyze_measures_against_the_first_run() {
    let base = request(pair(1.0, 0.0), 0.0, 2.0, 0.0125);
    let multipliers = reals(&[1.0, 2.0, 4.0, 8.0, 16.0]);
    let report = analyze(Integrator::Rk4, &Harmonic, &base, &multipliers).unwrap();
    let last = |dt: f64| rk4(&Harmonic, &request(pair(1.0, 0.0), 0.0, 2.0, dt)).final_state();
    let exact = last(1.0 * 0.0125);
    for k in 0..4 {
        let m = multipliers[4 - k].0;
        let w = last(m * 0.0125);
        for c in 0..2 {
            let relative = (w[c].0 - exact[c].0).abs() / exact[c].0.abs();
            assert_eq!(report[k].log_error[c], Real(relative.max(1e-16).log10()));
        }
    }
}

#[test]
fn analyze_follows_the_multipliers_as_given() {
    let base = request(pair(1.0, 0.0), 0.0, 2.0, 0.05);
    let report =
        analyze(Integrator::Rk4, &Harmonic, &base, &reals(&[2.0, 1.0, 3.0])).unwrap();
    assert_eq!(report.len(), 2);
    assert_eq!(report[0].inverse_dt, Real(1.0 / (3.0 * 0.05)));
    assert_eq!(report[1].inverse_dt, Real(1.0 / (1.0 * 0.05)));
    let last = |dt: f64| rk4(&Harmonic, &request(pair(1.0, 0.0), 0.0, 2.0, dt)).final_state();
    let exact = last(2.0 * 0.05);
    let w = last(1.0 * 0.05);
    let relative = (w[0].0 - exact[0].0).abs() / exact[0].0.abs();
    assert_eq!(report[1].log_error[0], Real(relative.log10()));
}

#[test]
fn analyze_shows_fourth_order_convergence() {
    let base = request(pair(1.0, 0.0), 0.0, 2.0, 0.0125);
    let multipliers = reals(&[1.0, 2.0, 4.0, 8.0, 16.0]);
    let report = analyze(Integrator::Rk4, &Harmonic, &base, &multipliers).unwrap();
    // Halving the step takes about log10(16) = 1.2 off the logarithm.
    for k in 1..4 {
        for c in 0..2 {
            let drop = report[k - 1].log_error[c].0 - report[k].log_error[c].0;
            assert!(drop > 1.0 && drop < 1.4);
        }
    }
}

#[test]
fn analyze_floors_exact_agreement() {
    let base = request(pair(2.0, -3.0), 0.0, 1.0, 0.1);
    let report = analyze(Integrator::Rk4, &Still, &base, &reals(&[1.0, 2.0, 4.0])).unwrap();
    assert_eq!(
        report,
        vec![
            ErrorSample { inverse_dt: Real(1.0 / 0.4), log_error: pair(-16.0, -16.0) },
            ErrorSample { inverse_dt: Real(1.0 / 0.2), log_error: pair(-16.0, -16.0) },
        ]
    );
}

#[test]
fn analyze_with_one_multiplier_reports_nothing() {
    let base = request(pair(1.0, 0.0), 0.0, 2.0, 0.1);
    let report = analyze(Integrator::Rk4, &Harmonic, &base, &reals(&[1.0])).unwrap();
    assert!(report.is_empty());
}

#[test]
fn analyze_rejects_a_zero_reference() {
    let multipliers = reals(&[1.0, 2.0]);
    let base = request(pair(0.0, 1.0), 0.0, 1.0, 0.1);
    assert_eq!(
        analyze(Integrator::Rk4, &Still, &base, &multipliers).unwrap_err(),
        SolveError::DivisionByZero
    );
    let base = request(pair(1.0, -0.0), 0.0, 1.0, 0.1);
    assert_eq!(
        analyze(Integrator::Rk4, &Still, &base, &multipliers).unwrap_err(),
        SolveError::DivisionByZero
    );
    // Without a second run there is still no reference to divide by.
    assert_eq!(
        analyze(Integrator::Rk4, &Still, &base, &reals(&[1.0])).unwrap_err(),
        SolveError::DivisionByZero
    );
}

#[test]
fn analyze_rejects_runs_that_cannot_be_made() {
    let base = request(pair(1.0, 0.0), 0.0, 1.0, 0.1);
    let invalid = SolveError::InvalidConfiguration;
    assert_eq!(analyze(Integrator::Rk4, &Harmonic, &base, &reals(&[])).unwrap_err(), invalid);
    assert_eq!(
        analyze(Integrator::Rk4, &Harmonic, &base, &reals(&[1.0, 0.0])).unwrap_err(),
        invalid
    );
    assert_eq!(
        analyze(Integrator::Rk4, &Harmonic, &base, &reals(&[1.0, 2.0, -4.0])).unwrap_err(),
        invalid
    );
    assert_eq!(
        analyze(Integrator::Rk4, &Harmonic, &base, &reals(&[f64::NAN, 1.0])).unwrap_err(),
        invalid
    );
    // Four times the step leaves two steps: enough for one method only.
    assert_eq!(
        analyze(Integrator::Abam4, &Harmonic, &base, &reals(&[1.0, 2.0, 4.0])).unwrap_err(),
        invalid
    );
    assert!(analyze(Integrator::Rk4, &Harmonic, &base, &reals(&[1.0, 2.0, 4.0])).is_ok());
    assert!(analyze(Integrator::Abam4, &Harmonic, &base, &reals(&[1.0, 2.0])).is_ok());
}

#[test]
fn analyze_checks_every_run_before_the_reference() {
    // The reference would end with a zero component, but a later run
    // cannot be made: that is found first.
    let base = request(pair(0.0, 1.0), 0.0, 1.0, 0.1);
    assert_eq!(
        analyze(Integrator::Rk4, &Still, &base, &reals(&[1.0, -1.0])).unwrap_err(),
        SolveError::InvalidConfiguration
    );
}

#[test]
fn analyze_with_the_predictor_corrector() {
    let base = request(pair(1.0, 0.0), 0.0, 2.0, 0.0125);
    let multipliers = reals(&[1.0, 2.0, 4.0]);
    let by_abam4 = analyze(Integrator::Abam4, &Harmonic, &base, &multipliers).unwrap();
    let by_rk4 = analyze(Integrator::Rk4, &Harmonic, &base, &multipliers).unwrap();
    assert_eq!(by_abam4.len(), 2);
    assert_eq!(by_abam4[0].inverse_dt, by_rk4[0].inverse_dt);
    assert_ne!(by_abam4[0].log_error, by_rk4[0].log_error);
    assert!(by_abam4[1].log_error[0].0 < by_abam4[0].log_error[0].0);
}

#[test]
fn analyze_is_deterministic() {
    let base = request(pair(1.0, 0.0), 0.0, 2.0, 0.0125);
    let multipliers = reals(&[1.0, 2.0, 4.0, 8.0, 16.0]);
    let first = analyze(Integrator::Abam4, &Harmonic, &base, &multipliers).unwrap();
    let second = analyze(Integrator::Abam4, &Harmonic, &base, &multipliers).unwrap();
    assert_eq!(first.len(), second.len());
    for k in 0..first.len() {
        assert_eq!(first[k].inverse_dt.0.to_bits(), second[k].inverse_dt.0.to_bits());
        for c in 0..2 {
            assert_eq!(first[k].log_error[c].0.to_bits(), second[k].log_error[c].0.to_bits());
        }
    }
}

#[test]
fn scaled_multiplies_the_step() {
    let base = request(pair(1.0, 0.0), 0.0, 1.0, 0.1);
    let s = scaled(Integrator::Rk4, &base, Real(4.0)).unwrap();
    assert_eq!(s.dt(), Real(0.4));
    assert_eq!(s.steps(), 2);
    assert_eq!(s.initial(), pair(1.0, 0.0));
    assert_eq!(s.t0(), Real(0.0));
    assert_eq!(s.tf(), Real(1.0));
    assert_eq!(
        scaled(Integrator::Abam4, &base, Real(4.0)).unwrap_err(),
        SolveError::InvalidConfiguration
    );
    assert_eq!(
        scaled(Integrator::Rk4, &base, Real(0.0)).unwrap_err(),
        SolveError::InvalidConfiguration
    );
}

#[test]
fn final_state_and_sample_of_one_run() {
    let spec = request(pair(1.0, 0.0), 0.0, 0.5, 0.1);
    let w = final_state_of(Integrator::Rk4, &Harmonic, &spec).unwrap();
    assert_eq!(w, pair(0.8775827305044371, -0.4794251576239398));
    let w = final_state_of(Integrator::Abam4, &Harmonic, &spec).unwrap();
    assert_eq!(w, pair(0.877582717429459, -0.4794258773237896));
    let p = sample(Integrator::Rk4, &Harmonic, &spec, &pair(1.0, -0.5)).unwrap();
    assert_eq!(p.inverse_dt, Real(1.0 / 0.1));
    assert_eq!(p.log_error[0], Real((0.8775827305044371f64 - 1.0).abs().log10()));
    assert_eq!(
        p.log_error[1],
        Real(((-0.4794251576239398f64 + 0.5).abs() / 0.5).log10())
    );
    let short = request(pair(1.0, 0.0), 0.0, 0.25, 0.1);
    assert_eq!(
        final_state_of(Integrator::Abam4, &Harmonic, &short).unwrap_err(),
        SolveError::InvalidConfiguration
    );
    assert_eq!(
        sample(Integrator::Abam4, &Harmonic, &short, &pair(1.0, 1.0)).unwrap_err(),
        SolveError::InvalidConfiguration
    );
}
