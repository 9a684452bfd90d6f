//! What holds of every run, stated over the integrators themselves.
//!
//! Each law speaks of the values that a call may return: `traj` is a result
//! of `rk4(f, &spec)` when `call_ensures(rk4, (f, &spec), traj)` holds. The
//! number type enters through an arithmetic `m` that it implements, or
//! through the assumption that there is one.
use crate::abam4::abam4;
use crate::config::{step_count, IntegrationSpec, SolveError};
use crate::convergence::{analyze, ErrorSample};
use crate::integrator::Integrator;
use crate::rate::{computes, pure, RateFunction};
use crate::rk4::{grid_time, rk4};
use crate::scalar::{deterministic, implements, implements_log10, Arithmetic, Scalar};
use crate::trajectory::Trajectory;
use vstd::prelude::*;

verus! {

/// A Runge-Kutta run has one sample more than whole steps of size `dt` fit
/// between `t0` and `tf`, and as many times as states.
pub proof fn law_rk4_step_count<T: Scalar, R: RateFunction<T>>(
    m: Arithmetic<T>,
    f: &R,
    spec: IntegrationSpec<T>,
    traj: Trajectory<T>,
)
    requires
        implements(m),
        spec.well_formed(),
        call_ensures(rk4::<T, R>, (f, &spec), traj),
    ensures
        traj.states@.len() == step_count(m, spec@.t0, spec@.tf, spec@.dt) + 1,
        traj.time@.len() == traj.states@.len(),
{
}

/// A predictor-corrector run has one sample more than whole steps of size
/// `dt` fit between `t0` and `tf`, and as many times as states.
pub proof fn law_abam4_step_count<T: Scalar, R: RateFunction<T>>(
    m: Arithmetic<T>,
    f: &R,
    spec: IntegrationSpec<T>,
    traj: Trajectory<T>,
)
    requires
        implements(m),
        spec.well_formed(),
        call_ensures(abam4::<T, R>, (f, &spec), Ok::<Trajectory<T>, SolveError>(traj)),
    ensures
        traj.states@.len() == step_count(m, spec@.t0, spec@.tf, spec@.dt) + 1,
        traj.time@.len() == traj.states@.len(),
{
}

/// A Runge-Kutta run starts at `t0`, and the time of every later sample `i`
/// is `t0 + i * dt`, computed from the index.
pub proof fn law_rk4_time_grid<T: Scalar, R: RateFunction<T>>(
    m: Arithmetic<T>,
    f: &R,
    spec: IntegrationSpec<T>,
    traj: Trajectory<T>,
    i: int,
)
    requires
        implements(m),
        call_ensures(rk4::<T, R>, (f, &spec), traj),
        0 <= i < traj.time@.len(),
    ensures
        i == 0 ==> traj.time@[i] == spec@.t0,
        i >= 1 ==> traj.time@[i] == grid_time(m, spec@.t0, spec@.dt, i as nat),
{
}

/// The time of every sample `i` of a predictor-corrector run is
/// `t0 + i * dt`, computed from the index.
pub proof fn law_abam4_time_grid<T: Scalar, R: RateFunction<T>>(
    m: Arithmetic<T>,
    f: &R,
    spec: IntegrationSpec<T>,
    traj: Trajectory<T>,
    i: int,
)
    requires
        implements(m),
        call_ensures(abam4::<T, R>, (f, &spec), Ok::<Trajectory<T>, SolveError>(traj)),
        0 <= i < traj.time@.len(),
    ensures
        traj.time@[i] == grid_time(m, spec@.t0, spec@.dt, i as nat),
{
}

/// The first four states of a predictor-corrector run are the first four
/// states of the Runge-Kutta run of the same request with the same rate
/// function.
pub proof fn law_bootstrap_agreement<T: Scalar, R: RateFunction<T>>(
    f: &R,
    spec: IntegrationSpec<T>,
    multistep: Trajectory<T>,
    single_step: Trajectory<T>,
)
    requires
        deterministic::<T>(),
        pure(f),
        call_ensures(abam4::<T, R>, (f, &spec), Ok::<Trajectory<T>, SolveError>(multistep)),
        call_ensures(rk4::<T, R>, (f, &spec), single_step),
    ensures
        multistep.states@.len() >= 4,
        single_step.states@.len() >= 4,
        forall|i: int| 0 <= i < 4 ==> multistep.states@[i] == single_step.states@[i],
{
    let m = choose|m: Arithmetic<T>| implements(m);
    let g = choose|g: spec_fn([T; 2]) -> [T; 2]| computes(f, g);
    assert(implements(m) && computes(f, g));
}

/// Two Runge-Kutta runs of the same request with the same rate function
/// return the same times and the same states.
pub proof fn law_rk4_determinism<T: Scalar, R: RateFunction<T>>(
    f: &R,
    spec: IntegrationSpec<T>,
    first: Trajectory<T>,
    second: Trajectory<T>,
)
    requires
        deterministic::<T>(),
        pure(f),
        call_ensures(rk4::<T, R>, (f, &spec), first),
        call_ensures(rk4::<T, R>, (f, &spec), second),
    ensures
        first.time@ == second.time@,
        first.states@ == second.states@,
{
    let m = choose|m: Arithmetic<T>| implements(m);
    let g = choose|g: spec_fn([T; 2]) -> [T; 2]| computes(f, g);
    assert(implements(m) && computes(f, g));
    assert(first.time@ =~= second.time@);
    assert(first.states@ =~= second.states@);
}

/// Two predictor-corrector runs of the same request with the same rate
/// function both fail, or return the same times and the same states.
pub proof fn law_abam4_determinism<T: Scalar, R: RateFunction<T>>(
    f: &R,
    spec: IntegrationSpec<T>,
    first: Result<Trajectory<T>, SolveError>,
    second: Result<Trajectory<T>, SolveError>,
)
    requires
        deterministic::<T>(),
        pure(f),
        call_ensures(abam4::<T, R>, (f, &spec), first),
        call_ensures(abam4::<T, R>, (f, &spec), second),
    ensures
        match (first, second) {
            (Ok(a), Ok(b)) => a.time@ == b.time@ && a.states@ == b.states@,
            (Err(a), Err(b)) => a == b,
            _ => false,
        },
{
    let m = choose|m: Arithmetic<T>| implements(m);
    let g = choose|g: spec_fn([T; 2]) -> [T; 2]| computes(f, g);
    assert(implements(m) && computes(f, g));
    match (first, second) {
        (Ok(a), Ok(b)) => {
            assert(a.time@ =~= b.time@);
            assert(a.states@ =~= b.states@);
        },
        _ => {},
    }
}

/// Two convergence analyses of the same request with the same method, rate
/// function and multipliers both fail in the same way, or return the same
/// report.
pub proof fn law_analysis_determinism<T: Scalar, R: RateFunction<T>>(
    m: Arithmetic<T>,
    method: Integrator,
    f: &R,
    base: IntegrationSpec<T>,
    multipliers: Vec<T>,
    first: Result<Vec<ErrorSample<T>>, SolveError>,
    second: Result<Vec<ErrorSample<T>>, SolveError>,
)
    requires
        implements(m),
        implements_log10(m),
        pure(f),
        call_ensures(analyze::<T, R>, (method, f, &base, &multipliers), first),
        call_ensures(analyze::<T, R>, (method, f, &base, &multipliers), second),
    ensures
        match (first, second) {
            (Ok(a), Ok(b)) => a@ == b@,
            (Err(a), Err(b)) => a == b,
            _ => false,
        },
{
    let g = choose|g: spec_fn([T; 2]) -> [T; 2]| computes(f, g);
    assert(implements(m) && computes(f, g));
}

/// A Runge-Kutta run of a request without a whole step is the single
/// sample `(t0, initial)`.
pub proof fn law_degenerate_span<T: Scalar, R: RateFunction<T>>(
    f: &R,
    spec: IntegrationSpec<T>,
    traj: Trajectory<T>,
)
    requires
        spec@.steps == 0,
        call_ensures(rk4::<T, R>, (f, &spec), traj),
    ensures
        traj.time@ == seq![spec@.t0],
        traj.states@ == seq![spec@.initial],
{
    assert(traj.time@ =~= seq![spec@.t0]);
    assert(traj.states@ =~= seq![spec@.initial]);
}

} // verus!
