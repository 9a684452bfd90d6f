//! The range of values that a chart of a run has to cover.
use crate::scalar::{implements, ratio, Arithmetic, Scalar};
use vstd::prelude::*;

verus! {

/// `b` where it lies below `a`, and `a` otherwise. A value that is not a
/// number lies below nothing, so it never replaces `a`.
pub open spec fn lesser<T>(m: Arithmetic<T>, a: T, b: T) -> T {
    if m.is_less(b, a) {
        b
    } else {
        a
    }
}

/// `b` where it lies above `a`, and `a` otherwise.
pub open spec fn greater<T>(m: Arithmetic<T>, a: T, b: T) -> T {
    if m.is_less(a, b) {
        b
    } else {
        a
    }
}

/// The range `(lo, hi)`, widened to hold both components of `w`.
pub open spec fn widened<T>(m: Arithmetic<T>, range: (T, T), w: [T; 2]) -> (T, T) {
    (lesser(m, lesser(m, range.0, w[0]), w[1]), greater(m, greater(m, range.1, w[0]), w[1]))
}

/// The range `seed`, widened state by state to hold every component of
/// `states`.
pub open spec fn extent<T>(m: Arithmetic<T>, seed: (T, T), states: Seq<[T; 2]>) -> (T, T)
    decreases states.len(),
{
    if states.len() == 0 {
        seed
    } else {
        widened(m, extent(m, seed, states.drop_last()), states.last())
    }
}

/// The range `seed`, widened run by run to hold every component of every
/// state of `runs`.
pub open spec fn extent_of_runs<T>(m: Arithmetic<T>, seed: (T, T), runs: Seq<Vec<[T; 2]>>) -> (
    T,
    T,
)
    decreases runs.len(),
{
    if runs.len() == 0 {
        seed
    } else {
        extent(m, extent_of_runs(m, seed, runs.drop_last()), runs.last()@)
    }
}

/// The margin that is left around a range: a twentieth of its width.
pub open spec fn margin_of<T>(m: Arithmetic<T>, lo: T, hi: T) -> T {
    m.product(m.difference(hi, lo), m.ratio(1, 20))
}

/// Widens the range `(lo, hi)` to hold both components of `w`.
pub fn widen<T: Scalar>(lo: T, hi: T, w: &[T; 2]) -> (r: (T, T))
    ensures
        forall|m: Arithmetic<T>| #[trigger] implements(m) ==> r == widened(m, (lo, hi), *w),
{
    let mut lo = lo;
    let mut hi = hi;
    if w[0].less_than(lo) {
        lo = w[0];
    }
    if w[1].less_than(lo) {
        lo = w[1];
    }
    if hi.less_than(w[0]) {
        hi = w[0];
    }
    if hi.less_than(w[1]) {
        hi = w[1];
    }
    (lo, hi)
}

/// Widens the range `(lo, hi)` to hold every component of `states`.
///
/// Started from `(+infinity, -infinity)`, the result is the smallest and the
/// largest component; values that are not numbers are passed over.
pub fn widen_over<T: Scalar>(lo: T, hi: T, states: &Vec<[T; 2]>) -> (r: (T, T))
    ensures
        forall|m: Arithmetic<T>| #[trigger] implements(m) ==> r == extent(m, (lo, hi), states@),
{
    let mut range = (lo, hi);
    let mut i: usize = 0;
    while i < states.len()
        invariant
            i <= states@.len(),
            forall|m: Arithmetic<T>| #[trigger]
                implements(m) ==> range == extent(m, (lo, hi), states@.take(i as int)),
        decreases states@.len() - i,
    {
        proof {
            assert(states@.take(i + 1).drop_last() =~= states@.take(i as int));
        }
        range = widen(range.0, range.1, &states[i]);
        i = i + 1;
    }
    proof {
        assert(states@.take(i as int) =~= states@);
    }
    range
}

/// Widens the range `(lo, hi)` to hold every component of every state of
/// `runs`.
pub fn widen_over_runs<T: Scalar>(lo: T, hi: T, runs: &Vec<Vec<[T; 2]>>) -> (r: (T, T))
    ensures
        forall|m: Arithmetic<T>| #[trigger]
            implements(m) ==> r == extent_of_runs(m, (lo, hi), runs@),
{
    let mut range = (lo, hi);
    let mut i: usize = 0;
    while i < runs.len()
        invariant
            i <= runs@.len(),
            forall|m: Arithmetic<T>| #[trigger]
                implements(m) ==> range == extent_of_runs(m, (lo, hi), runs@.take(i as int)),
        decreases runs@.len() - i,
    {
        proof {
            assert(runs@.take(i + 1).drop_last() =~= runs@.take(i as int));
        }
        range = widen_over(range.0, range.1, &runs[i]);
        i = i + 1;
    }
    proof {
        assert(runs@.take(i as int) =~= runs@);
    }
    range
}

/// The margin to leave around the range `(lo, hi)`: `(hi - lo) * 0.05`.
pub fn margin<T: Scalar>(lo: T, hi: T) -> (pad: T)
    ensures
        forall|m: Arithmetic<T>| #[trigger] implements(m) ==> pad == margin_of(m, lo, hi),
{
    hi.minus(lo).times(ratio::<T>(1, 20))
}

} // verus!
