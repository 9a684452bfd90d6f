//! Convergence analysis: the same problem integrated with a family of step
//! sizes, each result measured against the run with the finest step.
use crate::config::{feasible, step_count, IntegrationModel, IntegrationSpec, SolveError};
use crate::integrator::{admits, integrate, state_at, Integrator};
use crate::rate::{computes, RateFunction};
use crate::scalar::{implements, implements_log10, ratio, Arithmetic, Scalar};
use vstd::prelude::*;

verus! {

/// One point of a convergence plot.
#[derive(Debug, PartialEq)]
pub struct ErrorSample<T> {
    /// The reciprocal `1 / dt` of the step size of the run.
    pub inverse_dt: T,
    /// For each component of the final state, the base-10 logarithm of its
    /// relative error against the reference run.
    pub log_error: [T; 2],
}

/// The smallest relative error that is reported: `1 / 10^16`.
pub open spec fn error_floor<T>(m: Arithmetic<T>) -> T {
    m.ratio(1, 10_000_000_000_000_000)
}

/// The relative error `|value - exact| / |exact|`.
pub open spec fn relative_error<T>(m: Arithmetic<T>, value: T, exact: T) -> T {
    m.quotient(m.magnitude_of(m.difference(value, exact)), m.magnitude_of(exact))
}

/// `error`, raised to the floor where it does not lie above it.
pub open spec fn floored<T>(m: Arithmetic<T>, error: T) -> T {
    if m.is_less(error_floor(m), error) {
        error
    } else {
        error_floor(m)
    }
}

/// The base-10 logarithm of the floored relative error of `value` against
/// `exact`.
pub open spec fn log_error<T>(m: Arithmetic<T>, value: T, exact: T) -> T {
    m.log10_of(floored(m, relative_error(m, value, exact)))
}

/// The step size of the run with multiplier `k`: `k * base.dt`.
pub open spec fn scaled_step<T>(m: Arithmetic<T>, base: IntegrationModel<T>, k: T) -> T {
    m.product(k, base.dt)
}

/// The number of steps of the run with multiplier `k`.
pub open spec fn scaled_count<T>(m: Arithmetic<T>, base: IntegrationModel<T>, k: T) -> usize {
    step_count(m, base.t0, base.tf, scaled_step(m, base, k))
}

/// The run with multiplier `k` can be made: its request is feasible and
/// `method` admits its length.
pub open spec fn admissible<T>(
    method: Integrator,
    m: Arithmetic<T>,
    base: IntegrationModel<T>,
    k: T,
) -> bool {
    &&& feasible(m, base.t0, base.tf, scaled_step(m, base, k))
    &&& admits(method, scaled_count(m, base, k) as nat)
}

/// The last state of the run with multiplier `k`.
pub open spec fn final_state<T>(
    method: Integrator,
    m: Arithmetic<T>,
    g: spec_fn([T; 2]) -> [T; 2],
    base: IntegrationModel<T>,
    k: T,
) -> [T; 2] {
    state_at(
        method,
        m,
        g,
        base.initial,
        scaled_step(m, base, k),
        scaled_count(m, base, k) as nat,
    )
}

/// A component of `w` equals zero.
pub open spec fn has_zero<T>(m: Arithmetic<T>, w: [T; 2]) -> bool {
    m.is_equal(w[0], m.count(0)) || m.is_equal(w[1], m.count(0))
}

/// The point of the convergence plot for a run with the step `dt` that ends
/// in the state `w`, measured against the final state `exact` of the
/// reference run: `1 / dt` and the logarithm of the error of each component.
pub open spec fn error_sample<T>(m: Arithmetic<T>, dt: T, w: [T; 2], exact: [T; 2]) -> ErrorSample<
    T,
> {
    ErrorSample {
        inverse_dt: m.quotient(m.count(1), dt),
        log_error: [log_error(m, w[0], exact[0]), log_error(m, w[1], exact[1])],
    }
}

/// The point of the convergence plot for the run with multiplier `k`.
pub open spec fn scaled_sample<T>(
    method: Integrator,
    m: Arithmetic<T>,
    g: spec_fn([T; 2]) -> [T; 2],
    base: IntegrationModel<T>,
    k: T,
    exact: [T; 2],
) -> ErrorSample<T> {
    error_sample(m, scaled_step(m, base, k), final_state(method, m, g, base, k), exact)
}

/// The outcome of a convergence analysis of `base` over the multipliers
/// `ks`.
///
/// Every multiplier `k` stands for a run with step `k * base.dt`. The run of
/// the first multiplier is the reference. The report has one point for
/// every other multiplier, in the reverse of their order. There is no
/// report if there is no multiplier or one of the runs cannot be made, nor
/// if the final state of the reference has a zero component.
pub open spec fn analysis<T>(
    method: Integrator,
    m: Arithmetic<T>,
    g: spec_fn([T; 2]) -> [T; 2],
    base: IntegrationModel<T>,
    ks: Seq<T>,
) -> Result<Seq<ErrorSample<T>>, SolveError> {
    if ks.len() == 0 || exists|j: int|
        0 <= j < ks.len() && !#[trigger] admissible(method, m, base, ks[j]) {
        Err(SolveError::InvalidConfiguration)
    } else {
        let exact = final_state(method, m, g, base, ks[0]);
        if has_zero(m, exact) {
            Err(SolveError::DivisionByZero)
        } else {
            Ok(
                Seq::new(
                    (ks.len() - 1) as nat,
                    |j: int| scaled_sample(method, m, g, base, ks[ks.len() - 1 - j], exact),
                ),
            )
        }
    }
}

/// The outcome `r` of an analysis is the expected one: the same error, or a
/// report with the same points in the same order.
pub open spec fn agrees<T>(
    r: Result<Vec<ErrorSample<T>>, SolveError>,
    expected: Result<Seq<ErrorSample<T>>, SolveError>,
) -> bool {
    match r {
        Ok(report) => expected == Ok::<Seq<ErrorSample<T>>, SolveError>(report@),
        Err(e) => expected == Err::<Seq<ErrorSample<T>>, SolveError>(e),
    }
}

/// `w` is the last state of the run of `spec` with `method` and the rate
/// function `f`.
pub open spec fn is_final_state<T: Scalar, R: RateFunction<T>>(
    w: [T; 2],
    method: Integrator,
    f: &R,
    spec: IntegrationModel<T>,
) -> bool {
    forall|m: Arithmetic<T>, g: spec_fn([T; 2]) -> [T; 2]|
        #![trigger implements(m), computes(f, g)]
        implements(m) && computes(f, g) ==> w == state_at(
            method,
            m,
            g,
            spec.initial,
            spec.dt,
            spec.steps,
        )
}

/// `p` is the point of the convergence plot for the run of `spec` with
/// `method` and the rate function `f`, measured against `exact`.
pub open spec fn is_sample<T: Scalar, R: RateFunction<T>>(
    p: ErrorSample<T>,
    method: Integrator,
    f: &R,
    spec: IntegrationModel<T>,
    exact: [T; 2],
) -> bool {
    forall|m: Arithmetic<T>, g: spec_fn([T; 2]) -> [T; 2]|
        #![trigger implements(m), computes(f, g)]
        implements(m) && implements_log10(m) && computes(f, g) ==> p == error_sample(
            m,
            spec.dt,
            state_at(method, m, g, spec.initial, spec.dt, spec.steps),
            exact,
        )
}

/// `r` is the outcome of the convergence analysis of `base` over the
/// multipliers `ks` with `method` and the rate function `f`: it is the
/// analysis in every arithmetic that `T` implements, logarithm included, for
/// every function that `f` computes.
pub open spec fn is_analysis<T: Scalar, R: RateFunction<T>>(
    r: Result<Vec<ErrorSample<T>>, SolveError>,
    method: Integrator,
    f: &R,
    base: IntegrationModel<T>,
    ks: Seq<T>,
) -> bool {
    forall|m: Arithmetic<T>, g: spec_fn([T; 2]) -> [T; 2]|
        #![trigger implements(m), computes(f, g)]
        implements(m) && implements_log10(m) && computes(f, g) ==> agrees(
            r,
            analysis(method, m, g, base, ks),
        )
}

/// Measures `value` against `exact`: the base-10 logarithm of the relative
/// error, which is first raised to `1 / 10^16` so that exact agreement has a
/// finite logarithm.
pub fn measure<T: Scalar>(value: T, exact: T) -> (r: T)
    ensures
        forall|m: Arithmetic<T>| #[trigger]
            implements(m) && implements_log10(m) ==> r == log_error(m, value, exact),
{
    let floor = ratio::<T>(1, 10_000_000_000_000_000);
    let error = value.minus(exact).magnitude().over(exact.magnitude());
    if floor.less_than(error) {
        error.log10()
    } else {
        floor.log10()
    }
}

/// `s` is the request of `base` with its step multiplied by `k`, and
/// `method` admits it: span and initial state are those of `base`, and in
/// every arithmetic that `T` implements the step is `k * base.dt`, the run
/// can be made, and the step count is the one that follows.
pub open spec fn is_scaled<T: Scalar>(
    s: IntegrationModel<T>,
    method: Integrator,
    base: IntegrationModel<T>,
    k: T,
) -> bool {
    &&& admits(method, s.steps)
    &&& s.initial == base.initial
    &&& s.t0 == base.t0
    &&& s.tf == base.tf
    &&& forall|m: Arithmetic<T>| #[trigger]
        implements(m) ==> {
            &&& s.dt == scaled_step(m, base, k)
            &&& s.steps == scaled_count(m, base, k)
            &&& admissible(method, m, base, k)
        }
}

/// Checks the run of `base` with its step multiplied by `k`.
pub fn scaled<T: Scalar>(method: Integrator, base: &IntegrationSpec<T>, k: T) -> (r: Result<
    IntegrationSpec<T>,
    SolveError,
>)
    ensures
        match r {
            Ok(s) => is_scaled(s@, method, base@, k),
            Err(e) => e == SolveError::InvalidConfiguration,
        },
        forall|m: Arithmetic<T>| #[trigger]
            implements(m) ==> (r is Ok <==> admissible(method, m, base@, k)),
{
    let s = IntegrationSpec::new(base.initial(), base.t0(), base.tf(), k.times(base.dt()))?;
    if method.accepts(s.steps()) {
        Ok(s)
    } else {
        Err(SolveError::InvalidConfiguration)
    }
}

/// The last state of the run of `spec` with `method`, if the method admits
/// the request.
pub fn final_state_of<T: Scalar, R: RateFunction<T>>(
    method: Integrator,
    f: &R,
    spec: &IntegrationSpec<T>,
) -> (r: Result<[T; 2], SolveError>)
    ensures
        r is Ok <==> admits(method, spec@.steps),
        match r {
            Ok(w) => is_final_state(w, method, f, spec@),
            Err(e) => e == SolveError::InvalidConfiguration,
        },
{
    let traj = integrate(method, f, spec)?;
    Ok(traj.final_state())
}

/// The point of the convergence plot for the run of `spec`, measured
/// against the final state `exact` of the reference run.
pub fn sample<T: Scalar, R: RateFunction<T>>(
    method: Integrator,
    f: &R,
    spec: &IntegrationSpec<T>,
    exact: &[T; 2],
) -> (r: Result<ErrorSample<T>, SolveError>)
    ensures
        r is Ok <==> admits(method, spec@.steps),
        match r {
            Ok(p) => is_sample(p, method, f, spec@, *exact),
            Err(e) => e == SolveError::InvalidConfiguration,
        },
{
    let w = final_state_of(method, f, spec)?;
    let inverse_dt = T::from_count(1).over(spec.dt());
    let log_error = [measure(w[0], exact[0]), measure(w[1], exact[1])];
    Ok(ErrorSample { inverse_dt, log_error })
}

/// Runs `base` once for every multiplier of its step and reports how far
/// the coarser runs end from the first one.
///
/// All requests are checked before the first run starts. The reference run
/// is made next, and its final state is tested for a zero component before
/// any error is formed.
pub fn analyze<T: Scalar, R: RateFunction<T>>(
    method: Integrator,
    f: &R,
    base: &IntegrationSpec<T>,
    multipliers: &Vec<T>,
) -> (r: Result<Vec<ErrorSample<T>>, SolveError>)
    ensures
        match r {
            Ok(report) => report@.len() + 1 == multipliers@.len(),
            Err(e) => e == SolveError::InvalidConfiguration || e == SolveError::DivisionByZero,
        },
        is_analysis(r, method, f, base@, multipliers@),
{
    let count = multipliers.len();
    if count == 0 {
        return Err(SolveError::InvalidConfiguration);
    }
    let mut specs: Vec<IntegrationSpec<T>> = Vec::new();
    let mut j: usize = 0;
    while j < count
        invariant
            j <= count,
            count == multipliers@.len(),
            specs@.len() == j,
            forall|i: int|
                #![trigger specs@[i]]
                0 <= i < j ==> is_scaled(specs@[i]@, method, base@, multipliers@[i]),
        decreases count - j,
    {
        let s = scaled(method, base, multipliers[j])?;
        specs.push(s);
        j = j + 1;
    }
    let exact = final_state_of(method, f, &specs[0])?;
    proof {
        assert forall|m: Arithmetic<T>, i: int| implements(m) && 0 <= i < count implies
            #[trigger] admissible(method, m, base@, multipliers@[i]) by {
            assert(is_scaled(specs@[i]@, method, base@, multipliers@[i]));
        }
        assert(is_scaled(specs@[0]@, method, base@, multipliers@[0]));
    }
    let zero = T::from_count(0);
    if exact[0].equals(zero) {
        return Err(SolveError::DivisionByZero);
    }
    if exact[1].equals(zero) {
        return Err(SolveError::DivisionByZero);
    }
    let mut report: Vec<ErrorSample<T>> = Vec::new();
    let mut j: usize = count;
    while j > 1
        invariant
            1 <= j <= count,
            count == multipliers@.len(),
            specs@.len() == count,
            report@.len() == count - j,
            forall|i: int|
                #![trigger specs@[i]]
                0 <= i < count ==> is_scaled(specs@[i]@, method, base@, multipliers@[i]),
            forall|m: Arithmetic<T>, i: int|
                implements(m) && 0 <= i < count ==> #[trigger] admissible(
                    method,
                    m,
                    base@,
                    multipliers@[i],
                ),
            forall|m: Arithmetic<T>, g: spec_fn([T; 2]) -> [T; 2]|
                #![trigger implements(m), computes(f, g)]
                implements(m) && implements_log10(m) && computes(f, g) ==> {
                    &&& exact == final_state(method, m, g, base@, multipliers@[0])
                    &&& forall|i: int|
                        #![trigger report@[i]]
                        0 <= i < report@.len() ==> report@[i] == scaled_sample(
                            method,
                            m,
                            g,
                            base@,
                            multipliers@[count - 1 - i],
                            exact,
                        )
                },
        decreases j,
    {
        j = j - 1;
        let p = sample(method, f, &specs[j], &exact)?;
        report.push(p);
    }
    assert forall|m: Arithmetic<T>, g: spec_fn([T; 2]) -> [T; 2]|
        #![trigger implements(m), computes(f, g)]
        implements(m) && implements_log10(m) && computes(f, g) implies analysis(
        method,
        m,
        g,
        base@,
        multipliers@,
    ) == Ok::<Seq<ErrorSample<T>>, SolveError>(report@) by {
        let expected = Seq::new(
            (count - 1) as nat,
            |i: int|
                scaled_sample(
                    method,
                    m,
                    g,
                    base@,
                    multipliers@[multipliers@.len() - 1 - i],
                    exact,
                ),
        );
        assert(report@ =~= expected);
    }
    Ok(report)
}

} // verus!
