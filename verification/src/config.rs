//! What a run integrates: the initial state, the time span and the step.
use crate::scalar::{implements, Arithmetic, Scalar};
use vstd::prelude::*;

verus! {

/// Why a request was turned down.
#[derive(Clone, Copy, Debug, PartialEq, Eq)]
pub enum SolveError {
    /// The step is not positive, the span is empty or reversed, the span
    /// holds more steps than can be counted, or it holds too few steps for
    /// the chosen method.
    InvalidConfiguration,
    /// A relative error was asked for against a reference value of zero.
    DivisionByZero,
}

/// The number of whole steps of size `dt` that fit between `t0` and `tf`:
/// `(tf - t0) / dt`, rounded down. A last partial step is dropped.
pub open spec fn step_count<T>(m: Arithmetic<T>, t0: T, tf: T, dt: T) -> usize {
    m.floor_of(m.quotient(m.difference(tf, t0), dt))
}

/// The step is positive, the span runs forward, and its steps can be
/// counted: `0 < dt`, `t0 < tf` and `step_count < usize::MAX`.
pub open spec fn feasible<T>(m: Arithmetic<T>, t0: T, tf: T, dt: T) -> bool {
    &&& m.is_less(m.count(0), dt)
    &&& m.is_less(t0, tf)
    &&& step_count(m, t0, tf, dt) < usize::MAX
}

/// The mathematical content of an [`IntegrationSpec`].
pub ghost struct IntegrationModel<T> {
    /// The state at the start of the span.
    pub initial: [T; 2],
    /// The start of the span.
    pub t0: T,
    /// The end of the span.
    pub tf: T,
    /// The step size.
    pub dt: T,
    /// The number of steps that a run takes.
    pub steps: nat,
}

/// A checked request for one run: initial state, span `[t0, tf]` and step
/// size `dt`, together with the number of steps that follow from them.
#[derive(Debug)]
pub struct IntegrationSpec<T: Scalar> {
    initial: [T; 2],
    t0: T,
    tf: T,
    dt: T,
    steps: usize,
}

impl<T: Scalar> View for IntegrationSpec<T> {
    type V = IntegrationModel<T>;

    closed spec fn view(&self) -> IntegrationModel<T> {
        IntegrationModel {
            initial: self.initial,
            t0: self.t0,
            tf: self.tf,
            dt: self.dt,
            steps: self.steps as nat,
        }
    }
}

impl<T: Scalar> IntegrationSpec<T> {
    /// The invariant of a request: its run has a length that fits the
    /// machine, and in every arithmetic that `T` implements the request is
    /// feasible and its step count is the one its span and step give.
    pub open spec fn well_formed(&self) -> bool {
        &&& self@.steps < usize::MAX
        &&& forall|m: Arithmetic<T>| #[trigger]
            implements(m) ==> {
                &&& feasible(m, self@.t0, self@.tf, self@.dt)
                &&& self@.steps == step_count(m, self@.t0, self@.tf, self@.dt)
            }
    }

    #[verifier::type_invariant]
    spec fn checked(&self) -> bool {
        self.well_formed()
    }

    /// Checks a request before any integration is done.
    ///
    /// It is accepted when `0 < dt`, `t0 < tf` and the number of steps
    /// stays below `usize::MAX`; anything else is an
    /// [`SolveError::InvalidConfiguration`].
    pub fn new(initial: [T; 2], t0: T, tf: T, dt: T) -> (r: Result<Self, SolveError>)
        ensures
            match r {
                Ok(s) => {
                    &&& s.well_formed()
                    &&& s@.initial == initial
                    &&& s@.t0 == t0
                    &&& s@.tf == tf
                    &&& s@.dt == dt
                },
                Err(e) => e == SolveError::InvalidConfiguration,
            },
            forall|m: Arithmetic<T>| #[trigger]
                implements(m) ==> (r is Ok <==> feasible(m, t0, tf, dt)),
    {
        let zero = T::from_count(0);
        if !zero.less_than(dt) {
            return Err(SolveError::InvalidConfiguration);
        }
        if !t0.less_than(tf) {
            return Err(SolveError::InvalidConfiguration);
        }
        let steps = tf.minus(t0).over(dt).floor_count();
        if steps == usize::MAX {
            return Err(SolveError::InvalidConfiguration);
        }
        Ok(IntegrationSpec { initial, t0, tf, dt, steps })
    }

    /// The state at the start of the span.
    pub fn initial(&self) -> (r: [T; 2])
        ensures
            r == self@.initial,
    {
        self.initial
    }

    /// The start of the span.
    pub fn t0(&self) -> (r: T)
        ensures
            r == self@.t0,
    {
        self.t0
    }

    /// The end of the span.
    pub fn tf(&self) -> (r: T)
        ensures
            r == self@.tf,
    {
        self.tf
    }

    /// The step size.
    pub fn dt(&self) -> (r: T)
        ensures
            r == self@.dt,
    {
        self.dt
    }

    /// The number of steps that a run takes; the run has one sample more.
    pub fn steps(&self) -> (r: usize)
        ensures
            r == self@.steps,
            r < usize::MAX,
    {
        proof {
            use_type_invariant(self);
        }
        self.steps
    }
}

} // verus!
