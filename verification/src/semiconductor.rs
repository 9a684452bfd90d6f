//! A nonlinear oscillator, `y'' = a*y' - (y')^3 - y`, as the first-order
//! system `z' = [z2, a*z2 - z2^3 - z1]`, integrated with either method for
//! a range of the coupling `a`.
use crate::config::{feasible, step_count, IntegrationSpec, SolveError};
use crate::integrator::{
    admits, first_on_grid, follows, integrate, state_at, Integrator,
};
use crate::rate::{computes, RateFunction};
use crate::rk4::{grid_time, on_grid, time_grid};
use crate::scalar::{implements, implements_powi, ratio, Arithmetic, Scalar};
use crate::trajectory::Trajectory;
use vstd::prelude::*;

verus! {

/// The derivative of the oscillator with coupling `alpha` at the state `z`:
/// `[z[1], alpha * z[1] - z[1]^3 - z[0]]`.
pub open spec fn slope<T>(m: Arithmetic<T>, alpha: T, z: [T; 2]) -> [T; 2] {
    [z[1], m.difference(m.difference(m.product(alpha, z[1]), m.power(z[1], 3)), z[0])]
}

/// The derivative of the oscillator with coupling `alpha`, as a function of
/// the state.
pub open spec fn slope_law<T>(m: Arithmetic<T>, alpha: T) -> spec_fn([T; 2]) -> [T; 2] {
    |z: [T; 2]| slope(m, alpha, z)
}

/// `dz` is the derivative of the oscillator with coupling `alpha` at the
/// state `z`: its first component is `z[1]`, and in every arithmetic that
/// `T` implements, powers included, it is the slope.
pub open spec fn is_slope<T: Scalar>(alpha: T, z: [T; 2], dz: [T; 2]) -> bool {
    &&& dz[0] == z[1]
    &&& forall|m: Arithmetic<T>| #[trigger]
        implements(m) && implements_powi(m) ==> dz == slope(m, alpha, z)
}

/// The state in which every run of this module starts: `[0, 0.1]`.
pub open spec fn initial_state<T>(m: Arithmetic<T>) -> [T; 2] {
    [m.count(0), m.ratio(1, 10)]
}

/// Writes the derivative of the oscillator with coupling `alpha` at the
/// state `z` to `dz`.
pub fn rate<T: Scalar>(alpha: T, z: &[T; 2], dz: &mut [T; 2])
    ensures
        is_slope(alpha, *z, *final(dz)),
{
    dz[0] = z[1];
    dz[1] = alpha.times(z[1]).minus(z[1].powi(3)).minus(z[0]);
    assert forall|m: Arithmetic<T>| #[trigger]
        implements(m) && implements_powi(m) implies *dz == slope(m, alpha, *z) by {
        assert(*dz =~= slope(m, alpha, *z));
    }
}

/// The oscillator with a fixed coupling.
#[derive(Debug)]
pub struct Oscillator<T> {
    /// The coupling `a` of the linear damping term.
    pub alpha: T,
}

impl<T: Scalar> RateFunction<T> for Oscillator<T> {
    fn rate(&self, z: &[T; 2]) -> (dz: [T; 2])
        ensures
            is_slope(self.alpha, *z, dz),
    {
        let mut dz = [z[0], z[1]];
        rate(self.alpha, z, &mut dz);
        dz
    }
}

impl<T: Scalar> Oscillator<T> {
    /// In an arithmetic that `T` implements, powers included, the rate
    /// function of the oscillator computes its derivative.
    pub proof fn lemma_computes_slope(&self, m: Arithmetic<T>)
        requires
            implements(m),
            implements_powi(m),
        ensures
            computes(self, slope_law(m, self.alpha)),
    {
    }
}

/// What a run of the oscillator with coupling `alpha` over `[t0, tf]` with
/// the step `dt` returns under `method`.
///
/// In every arithmetic that `T` implements, the run is accepted exactly
/// when the request is feasible and the method admits its length; it then
/// starts at `[0, 0.1]`, has as many steps as fit the span, and its times
/// lie on the grid. Where the arithmetic covers powers too, every state is
/// the one that the method prescribes.
pub open spec fn integrated<T: Scalar>(
    method: Integrator,
    alpha: T,
    dt: T,
    t0: T,
    tf: T,
    r: Result<Trajectory<T>, SolveError>,
) -> bool {
    &&& match r {
        Ok(traj) => {
            let n = (traj.states@.len() - 1) as nat;
            &&& traj.well_formed()
            &&& method == Integrator::Rk4 ==> traj.time@[0] == t0
            &&& forall|m: Arithmetic<T>| #[trigger]
                implements(m) ==> {
                    &&& n == step_count(m, t0, tf, dt)
                    &&& traj.states@[0] == initial_state(m)
                    &&& on_grid(traj, m, t0, dt, first_on_grid(method), n)
                }
            &&& forall|m: Arithmetic<T>| #[trigger]
                implements(m) && implements_powi(m) ==> follows(
                    method,
                    traj,
                    m,
                    slope_law(m, alpha),
                    initial_state(m),
                    dt,
                    n,
                )
        },
        Err(e) => e == SolveError::InvalidConfiguration,
    }
    &&& forall|m: Arithmetic<T>| #[trigger]
        implements(m) ==> (r is Ok <==> feasible(m, t0, tf, dt) && admits(
            method,
            step_count(m, t0, tf, dt) as nat,
        ))
}

/// Integrates the oscillator with `method`.
fn run_with<T: Scalar>(method: Integrator, alpha: T, dt: T, t0: T, tf: T) -> (r: Result<
    Trajectory<T>,
    SolveError,
>)
    ensures
        integrated(method, alpha, dt, t0, tf, r),
{
    let start = [T::from_count(0), ratio::<T>(1, 10)];
    let spec = IntegrationSpec::new(start, t0, tf, dt)?;
    let model = Oscillator { alpha };
    let r = integrate(method, &model, &spec);
    proof {
        assert forall|m: Arithmetic<T>| #[trigger]
            implements(m) && implements_powi(m) implies computes(
            &model,
            slope_law(m, alpha),
        ) by {
            model.lemma_computes_slope(m);
        }
    }
    r
}

/// Integrates the oscillator with coupling `alpha` from `[0, 0.1]` over
/// `[t0, tf]` with the Runge-Kutta method and the step `dt`.
pub fn rk4<T: Scalar>(alpha: T, dt: T, t0: T, tf: T) -> (r: Result<Trajectory<T>, SolveError>)
    ensures
        integrated(Integrator::Rk4, alpha, dt, t0, tf, r),
{
    run_with(Integrator::Rk4, alpha, dt, t0, tf)
}

/// Integrates the oscillator with coupling `alpha` from `[0, 0.1]` over
/// `[t0, tf]` with the predictor-corrector method and the step `dt`. The
/// span must hold at least four steps.
pub fn abam4_pred_corr<T: Scalar>(alpha: T, dt: T, t0: T, tf: T) -> (r: Result<
    Trajectory<T>,
    SolveError,
>)
    ensures
        integrated(Integrator::Abam4, alpha, dt, t0, tf, r),
{
    run_with(Integrator::Abam4, alpha, dt, t0, tf)
}

/// The runs of the oscillator for a range of couplings, over one time grid.
#[derive(Debug)]
pub struct Sweep<T> {
    /// The grid, one time for every sample.
    pub time: Vec<T>,
    /// The coupling of each run.
    pub alphas: Vec<T>,
    /// The states of each run, in the order of `alphas`.
    pub solutions: Vec<Vec<[T; 2]>>,
}

/// The couplings of a sweep: `0.5, 1.5, 2.5, 3.5, 4.5`.
pub open spec fn couplings<T>(m: Arithmetic<T>) -> Seq<T> {
    seq![m.ratio(1, 2), m.ratio(3, 2), m.ratio(5, 2), m.ratio(7, 2), m.ratio(9, 2)]
}

/// What [`solve`] returns for `method` and the step `dt`.
///
/// A sweep holds five runs of equal length over the span `[0, 100]` and a
/// time for every sample. In every arithmetic that `T` implements, the
/// sweep is made exactly when the request is feasible and the method admits
/// its length; the runs then have the five couplings, the times lie on the
/// grid from its first point on, and every run starts at `[0, 0.1]`. Where
/// the arithmetic covers powers too, every state of every run is the one
/// that the method prescribes.
pub open spec fn swept<T: Scalar>(method: Integrator, dt: T, r: Result<Sweep<T>, SolveError>) -> bool {
    &&& match r {
        Ok(sweep) => {
            let n = (sweep.time@.len() - 1) as nat;
            &&& sweep.time@.len() >= 1
            &&& sweep.alphas@.len() == 5
            &&& sweep.solutions@.len() == 5
            &&& forall|k: int|
                #![trigger sweep.solutions@[k]]
                0 <= k < 5 ==> sweep.solutions@[k]@.len() == n + 1
            &&& forall|m: Arithmetic<T>| #[trigger]
                implements(m) ==> {
                    &&& n == step_count(m, m.count(0), m.count(100), dt)
                    &&& sweep.alphas@ == couplings(m)
                    &&& forall|i: int|
                        #![trigger sweep.time@[i]]
                        0 <= i <= n ==> sweep.time@[i] == grid_time(m, m.count(0), dt, i as nat)
                    &&& forall|k: int|
                        #![trigger sweep.solutions@[k]]
                        0 <= k < 5 ==> sweep.solutions@[k]@[0] == initial_state(m)
                }
            &&& forall|m: Arithmetic<T>| #[trigger]
                implements(m) && implements_powi(m) ==> forall|k: int, i: int|
                    #![trigger sweep.solutions@[k]@[i]]
                    0 <= k < 5 && 0 <= i <= n ==> sweep.solutions@[k]@[i] == state_at(
                        method,
                        m,
                        slope_law(m, couplings(m)[k]),
                        initial_state(m),
                        dt,
                        i as nat,
                    )
        },
        Err(e) => e == SolveError::InvalidConfiguration,
    }
    &&& forall|m: Arithmetic<T>| #[trigger]
        implements(m) ==> (r is Ok <==> feasible(m, m.count(0), m.count(100), dt) && admits(
            method,
            step_count(m, m.count(0), m.count(100), dt) as nat,
        ))
}

/// Integrates the oscillator from `[0, 0.1]` over `[0, 100]` with `method`
/// and the step `dt`, once for each of the couplings `0.5, 1.5, 2.5, 3.5`
/// and `4.5`, and lays out the time grid that the runs share.
pub fn solve<T: Scalar>(method: Integrator, dt: T) -> (r: Result<Sweep<T>, SolveError>)
    ensures
        swept(method, dt, r),
{
    let t0 = T::from_count(0);
    let tf = T::from_count(100);
    let start = [T::from_count(0), ratio::<T>(1, 10)];
    let spec = IntegrationSpec::new(start, t0, tf, dt)?;
    let n = spec.steps();
    if !method.accepts(n) {
        return Err(SolveError::InvalidConfiguration);
    }
    let time = time_grid(t0, dt, n);
    let mut alphas: Vec<T> = Vec::new();
    alphas.push(ratio::<T>(1, 2));
    alphas.push(ratio::<T>(3, 2));
    alphas.push(ratio::<T>(5, 2));
    alphas.push(ratio::<T>(7, 2));
    alphas.push(ratio::<T>(9, 2));
    assert forall|m: Arithmetic<T>| #[trigger] implements(m) implies alphas@ == couplings(m) by {
        assert(alphas@ =~= couplings(m));
    }
    let mut solutions: Vec<Vec<[T; 2]>> = Vec::new();
    let mut k: usize = 0;
    while k < 5
        invariant
            k <= 5,
            alphas@.len() == 5,
            spec@.steps == n,
            spec@.dt == dt,
            spec@.initial == start,
            admits(method, n as nat),
            solutions@.len() == k,
            forall|j: int|
                #![trigger solutions@[j]]
                0 <= j < k ==> solutions@[j]@.len() == n + 1 && solutions@[j]@[0] == start,
            forall|m: Arithmetic<T>| #[trigger]
                implements(m) && implements_powi(m) ==> forall|j: int, i: int|
                    #![trigger solutions@[j]@[i]]
                    0 <= j < k && 0 <= i <= n ==> solutions@[j]@[i] == state_at(
                        method,
                        m,
                        slope_law(m, alphas@[j]),
                        start,
                        dt,
                        i as nat,
                    ),
        decreases 5 - k,
    {
        let model = Oscillator { alpha: alphas[k] };
        let traj = integrate(method, &model, &spec)?;
        proof {
            assert forall|m: Arithmetic<T>| #[trigger]
                implements(m) && implements_powi(m) implies follows(
                method,
                traj,
                m,
                slope_law(m, model.alpha),
                start,
                dt,
                n as nat,
            ) by {
                model.lemma_computes_slope(m);
            }
        }
        solutions.push(traj.states);
        k = k + 1;
    }
    Ok(Sweep { time, alphas, solutions })
}

} // verus!
