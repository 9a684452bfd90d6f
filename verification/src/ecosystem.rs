//! Two species that compete for the same resources, integrated with the
//! Runge-Kutta method.
use crate::config::{feasible, step_count, IntegrationModel, IntegrationSpec, SolveError};
use crate::convergence::{agrees, analysis, analyze, ErrorSample};
use crate::integrator::Integrator;
use crate::rate::{computes, RateFunction};
use crate::rk4::{follows_rk4, on_grid, rk4};
use crate::scalar::{implements, implements_log10, ratio, Arithmetic, Scalar};
use crate::trajectory::Trajectory;
use vstd::prelude::*;

verus! {

/// A competitive two-species system. Population `i` grows at the rate
/// `n[i] * (a[i] - b[i] * n[i] - c[i] * n[j])`, where `j` is the other
/// species.
#[derive(Debug)]
pub struct Ecosystem<T> {
    /// The populations at the start.
    pub ic: [T; 2],
    /// The growth rate of each species.
    pub a: [T; 2],
    /// How strongly each species limits itself.
    pub b: [T; 2],
    /// How strongly each species is held back by the other.
    pub c: [T; 2],
    /// The time span `[t0, tf]`.
    pub ts: [T; 2],
}

impl<T: Scalar> Ecosystem<T> {
    /// A system with the given populations, coefficients and time span.
    pub fn new(ic: [T; 2], a: [T; 2], b: [T; 2], c: [T; 2], ts: [T; 2]) -> (eco: Ecosystem<T>)
        ensures
            eco == (Ecosystem { ic, a, b, c, ts }),
    {
        Ecosystem { ic, a, b, c, ts }
    }

    /// The system that [`compare`] and [`run`] study: both species start at
    /// `100000`, grow at `0.1`, limit themselves with `8e-7` and each other
    /// with `1e-6` and `1e-7`, over the span `[0, 10]`. Every fraction is the
    /// quotient of two whole numbers.
    pub open spec fn standard_model(m: Arithmetic<T>) -> Ecosystem<T> {
        Ecosystem {
            ic: [m.count(100_000), m.count(100_000)],
            a: [m.ratio(1, 10), m.ratio(1, 10)],
            b: [m.ratio(8, 10_000_000), m.ratio(8, 10_000_000)],
            c: [m.ratio(1, 1_000_000), m.ratio(1, 10_000_000)],
            ts: [m.count(0), m.count(10)],
        }
    }

    /// The system that [`compare`] and [`run`] study.
    pub fn standard() -> (eco: Ecosystem<T>)
        ensures
            forall|m: Arithmetic<T>| #[trigger] implements(m) ==> eco == Self::standard_model(m),
    {
        let start = T::from_count(100_000);
        let growth = ratio::<T>(1, 10);
        let limit = ratio::<T>(8, 10_000_000);
        Ecosystem {
            ic: [start, start],
            a: [growth, growth],
            b: [limit, limit],
            c: [ratio::<T>(1, 1_000_000), ratio::<T>(1, 10_000_000)],
            ts: [T::from_count(0), T::from_count(10)],
        }
    }

    /// The growth of both populations at the populations `pop`:
    /// `pop[i] * (a[i] - b[i] * pop[i] - c[i] * pop[j])`.
    pub open spec fn growth(&self, m: Arithmetic<T>, pop: [T; 2]) -> [T; 2] {
        [
            m.product(
                pop[0],
                m.difference(
                    m.difference(self.a[0], m.product(self.b[0], pop[0])),
                    m.product(self.c[0], pop[1]),
                ),
            ),
            m.product(
                pop[1],
                m.difference(
                    m.difference(self.a[1], m.product(self.b[1], pop[1])),
                    m.product(self.c[1], pop[0]),
                ),
            ),
        ]
    }

    /// The growth law as a function of the populations.
    pub open spec fn growth_law(&self, m: Arithmetic<T>) -> spec_fn([T; 2]) -> [T; 2] {
        |pop: [T; 2]| self.growth(m, pop)
    }

    /// `d_pop` is the growth at the populations `pop` in every arithmetic
    /// that `T` implements.
    pub open spec fn is_growth(&self, pop: [T; 2], d_pop: [T; 2]) -> bool {
        forall|m: Arithmetic<T>| #[trigger] implements(m) ==> d_pop == self.growth(m, pop)
    }

    /// In an arithmetic that `T` implements, the rate function of the
    /// system computes its growth law.
    pub proof fn lemma_computes_growth(&self, m: Arithmetic<T>)
        requires
            implements(m),
        ensures
            computes(self, self.growth_law(m)),
    {
    }

    /// What [`Ecosystem::solve`] returns for the step `dt`.
    ///
    /// An accepted run starts at the initial populations and the start of
    /// the span. In every arithmetic that `T` implements, the run is
    /// accepted exactly when the request is feasible; it then has as many
    /// steps as fit the span, its later times lie on the grid, and every
    /// state is the one that the Runge-Kutta method prescribes for the
    /// growth law.
    pub open spec fn solved(&self, dt: T, r: Result<Trajectory<T>, SolveError>) -> bool {
        &&& match r {
            Ok(traj) => {
                let n = (traj.states@.len() - 1) as nat;
                &&& traj.well_formed()
                &&& traj.states@[0] == self.ic
                &&& traj.time@[0] == self.ts[0]
                &&& forall|m: Arithmetic<T>| #[trigger]
                    implements(m) ==> {
                        &&& n == step_count(m, self.ts[0], self.ts[1], dt)
                        &&& on_grid(traj, m, self.ts[0], dt, 1, n)
                        &&& follows_rk4(traj, m, self.growth_law(m), self.ic, dt, n)
                    }
            },
            Err(e) => e == SolveError::InvalidConfiguration,
        }
        &&& forall|m: Arithmetic<T>| #[trigger]
            implements(m) ==> (r is Ok <==> feasible(m, self.ts[0], self.ts[1], dt))
    }

    /// Integrates the system over its time span with steps of size `dt`.
    ///
    /// The step must be positive and the span must run forward and hold
    /// fewer than `usize::MAX` steps; otherwise nothing is integrated.
    pub fn solve(&self, dt: T) -> (r: Result<Trajectory<T>, SolveError>)
        ensures
            self.solved(dt, r),
    {
        let spec = IntegrationSpec::new(self.ic, self.ts[0], self.ts[1], dt)?;
        let traj = rk4(self, &spec);
        proof {
            assert forall|m: Arithmetic<T>| #[trigger] implements(m) implies follows_rk4(
                traj,
                m,
                self.growth_law(m),
                self.ic,
                dt,
                spec@.steps,
            ) by {
                self.lemma_computes_growth(m);
            }
        }
        Ok(traj)
    }
}

impl<T: Scalar> RateFunction<T> for Ecosystem<T> {
    fn rate(&self, pop: &[T; 2]) -> (d_pop: [T; 2])
        ensures
            self.is_growth(*pop, d_pop),
    {
        [
            pop[0].times(self.a[0].minus(self.b[0].times(pop[0])).minus(self.c[0].times(pop[1]))),
            pop[1].times(self.a[1].minus(self.b[1].times(pop[1])).minus(self.c[1].times(pop[0]))),
        ]
    }
}

/// The step multipliers of [`compare`]: `1, 2, 4, 8, 16`.
pub open spec fn doublings<T>(m: Arithmetic<T>) -> Seq<T> {
    seq![m.count(1), m.count(2), m.count(4), m.count(8), m.count(16)]
}

/// The outcome of [`compare`] for the base step `dt`: the convergence
/// analysis of the standard system under the Runge-Kutta method, with the
/// steps `dt, 2*dt, 4*dt, 8*dt, 16*dt`, unless `dt` itself is no feasible
/// step for the span.
pub open spec fn comparison<T: Scalar>(m: Arithmetic<T>, dt: T) -> Result<
    Seq<ErrorSample<T>>,
    SolveError,
> {
    let eco = Ecosystem::<T>::standard_model(m);
    if !feasible(m, eco.ts[0], eco.ts[1], dt) {
        Err(SolveError::InvalidConfiguration)
    } else {
        analysis(
            Integrator::Rk4,
            m,
            eco.growth_law(m),
            IntegrationModel {
                initial: eco.ic,
                t0: eco.ts[0],
                tf: eco.ts[1],
                dt,
                steps: step_count(m, eco.ts[0], eco.ts[1], dt) as nat,
            },
            doublings(m),
        )
    }
}

/// `r` is the outcome of [`compare`] for the base step `dt` in every
/// arithmetic that `T` implements, logarithm included.
pub open spec fn is_comparison<T: Scalar>(
    r: Result<Vec<ErrorSample<T>>, SolveError>,
    dt: T,
) -> bool {
    forall|m: Arithmetic<T>| #[trigger]
        implements(m) && implements_log10(m) ==> agrees(r, comparison(m, dt))
}

/// Integrates the standard system with the steps `dt, 2*dt, 4*dt, 8*dt` and
/// `16*dt` and measures the four coarser results against the finest one.
///
/// The report is ordered by falling step size, ready to be drawn against
/// `1 / dt`.
pub fn compare<T: Scalar>(dt: T) -> (r: Result<Vec<ErrorSample<T>>, SolveError>)
    ensures
        match r {
            Ok(report) => report@.len() == 4,
            Err(e) => e == SolveError::InvalidConfiguration || e == SolveError::DivisionByZero,
        },
        is_comparison(r, dt),
{
    let eco = Ecosystem::<T>::standard();
    let base = IntegrationSpec::new(eco.ic, eco.ts[0], eco.ts[1], dt)?;
    let mut multipliers: Vec<T> = Vec::new();
    multipliers.push(T::from_count(1));
    multipliers.push(T::from_count(2));
    multipliers.push(T::from_count(4));
    multipliers.push(T::from_count(8));
    multipliers.push(T::from_count(16));
    let r = analyze(Integrator::Rk4, &eco, &base, &multipliers);
    proof {
        assert forall|m: Arithmetic<T>| #[trigger]
            implements(m) && implements_log10(m) implies agrees(r, comparison(m, dt)) by {
            eco.lemma_computes_growth(m);
            assert(multipliers@ =~= doublings(m));
            assert(base@ == (IntegrationModel {
                initial: eco.ic,
                t0: eco.ts[0],
                tf: eco.ts[1],
                dt,
                steps: step_count(m, eco.ts[0], eco.ts[1], dt) as nat,
            }));
        }
    }
    r
}

/// What a study of the standard system produces.
#[derive(Debug)]
pub struct Study<T> {
    /// The populations over time.
    pub trajectory: Trajectory<T>,
    /// The convergence report, or the reason why there is none.
    pub errors: Result<Vec<ErrorSample<T>>, SolveError>,
}

/// Studies the standard system at the step `dt`: integrates it, then
/// compares the step against its multiples.
///
/// A failed comparison does not take the trajectory away.
pub fn run<T: Scalar>(dt: T) -> (r: Result<Study<T>, SolveError>)
    ensures
        match r {
            Ok(study) => {
                &&& study.trajectory.well_formed()
                &&& forall|m: Arithmetic<T>| #[trigger]
                    implements(m) ==> Ecosystem::<T>::standard_model(m).solved(
                        dt,
                        Ok::<Trajectory<T>, SolveError>(study.trajectory),
                    )
                &&& is_comparison(study.errors, dt)
            },
            Err(e) => e == SolveError::InvalidConfiguration,
        },
        forall|m: Arithmetic<T>| #[trigger]
            implements(m) ==> (r is Ok <==> feasible(m, m.count(0), m.count(10), dt)),
{
    let eco = Ecosystem::<T>::standard();
    let trajectory = eco.solve(dt)?;
    let errors = compare(dt);
    Ok(Study { trajectory, errors })
}

} // verus!
