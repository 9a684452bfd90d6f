//! The right-hand side of the system that is integrated.
use crate::scalar::Scalar;
use vstd::prelude::*;

verus! {

/// The rate function of a first-order system in two unknowns: it maps the
/// current state to its time derivative. The model's coefficients live in
/// the value that implements the trait.
///
/// `rate` must be total. The integrators call it several times per step and
/// never change the value it is called on.
pub trait RateFunction<T: Scalar> {
    /// The derivative of the state at `state`.
    fn rate(&self, state: &[T; 2]) -> [T; 2];
}

/// The rate function `f` computes the mathematical function `g`: whenever
/// `f.rate` is called on a state, it returns the value of `g` there.
///
/// A rate function that computes some `g` is pure: the same state gives the
/// same derivative, however often it is asked for. The integrators state
/// their results for every `g` that the rate function computes.
pub open spec fn computes<T: Scalar, R: RateFunction<T>>(
    f: &R,
    g: spec_fn([T; 2]) -> [T; 2],
) -> bool {
    forall|state: [T; 2], d: [T; 2]| #[trigger]
        call_ensures(R::rate, (f, &state), d) ==> d == g(state)
}

/// The rate function `f` is pure: it computes some function of the state.
pub open spec fn pure<T: Scalar, R: RateFunction<T>>(f: &R) -> bool {
    exists|g: spec_fn([T; 2]) -> [T; 2]| computes(f, g)
}

} // verus!
