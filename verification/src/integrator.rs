//! The choice between the two integration methods.
use crate::abam4::{abam4, abam4_state_at, is_abam4_run};
use crate::config::{IntegrationSpec, SolveError};
use crate::rate::RateFunction;
use crate::rk4::{is_rk4_run, rk4, rk4_state_at};
use crate::scalar::{Arithmetic, Scalar};
use crate::trajectory::Trajectory;
use vstd::prelude::*;

verus! {

/// The integration method of a run.
#[derive(Clone, Copy, Debug, PartialEq, Eq)]
pub enum Integrator {
    /// The classical fourth-order Runge-Kutta method.
    Rk4,
    /// The four-step Adams-Bashforth / Adams-Moulton predictor-corrector.
    Abam4,
}

/// Whether `method` can integrate a request of `steps` steps.
pub open spec fn admits(method: Integrator, steps: nat) -> bool {
    match method {
        Integrator::Rk4 => true,
        Integrator::Abam4 => steps >= 4,
    }
}

impl Integrator {
    /// Whether the method can integrate a request of `steps` steps.
    pub fn accepts(&self, steps: usize) -> (b: bool)
        ensures
            b == admits(*self, steps as nat),
    {
        match self {
            Integrator::Rk4 => true,
            Integrator::Abam4 => steps >= 4,
        }
    }
}

/// The state that `method` prescribes for sample `i` of the run from `w0`,
/// for the rate function `g`.
pub open spec fn state_at<T>(
    method: Integrator,
    m: Arithmetic<T>,
    g: spec_fn([T; 2]) -> [T; 2],
    w0: [T; 2],
    dt: T,
    i: nat,
) -> [T; 2] {
    match method {
        Integrator::Rk4 => rk4_state_at(m, g, w0, dt, i),
        Integrator::Abam4 => abam4_state_at(m, g, w0, dt, i),
    }
}

/// Every state of `traj` up to sample `n` is the one that `method`
/// prescribes for the rate function `g`.
pub open spec fn follows<T>(
    method: Integrator,
    traj: Trajectory<T>,
    m: Arithmetic<T>,
    g: spec_fn([T; 2]) -> [T; 2],
    w0: [T; 2],
    dt: T,
    n: nat,
) -> bool {
    forall|i: int|
        #![trigger traj.states@[i]]
        0 <= i <= n ==> traj.states@[i] == state_at(method, m, g, w0, dt, i as nat)
}

/// The first sample whose time is computed from its index: the
/// Runge-Kutta method takes the time of sample `0` as it is given.
pub open spec fn first_on_grid(method: Integrator) -> nat {
    match method {
        Integrator::Rk4 => 1,
        Integrator::Abam4 => 0,
    }
}

/// `traj` is a run of `n` steps from `(t0, w0)` with `method` and the rate
/// function `f`.
pub open spec fn is_run<T: Scalar, R: RateFunction<T>>(
    method: Integrator,
    traj: Trajectory<T>,
    f: &R,
    w0: [T; 2],
    t0: T,
    dt: T,
    n: nat,
) -> bool {
    match method {
        Integrator::Rk4 => is_rk4_run(traj, f, w0, t0, dt, n),
        Integrator::Abam4 => is_abam4_run(traj, f, w0, t0, dt, n),
    }
}

/// Integrates the request `spec` with the chosen method.
pub fn integrate<T: Scalar, R: RateFunction<T>>(
    method: Integrator,
    f: &R,
    spec: &IntegrationSpec<T>,
) -> (r: Result<Trajectory<T>, SolveError>)
    ensures
        r is Ok <==> admits(method, spec@.steps),
        match r {
            Ok(traj) => is_run(
                method,
                traj,
                f,
                spec@.initial,
                spec@.t0,
                spec@.dt,
                spec@.steps,
            ),
            Err(e) => e == SolveError::InvalidConfiguration,
        },
{
    match method {
        Integrator::Rk4 => Ok(rk4(f, spec)),
        Integrator::Abam4 => abam4(f, spec),
    }
}

} // verus!
