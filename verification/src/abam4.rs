//! The four-step Adams-Bashforth / Adams-Moulton predictor-corrector method
//! with a fixed step, started by three Runge-Kutta steps.
use crate::config::{IntegrationSpec, SolveError};
use crate::rate::{computes, RateFunction};
use crate::rk4::{grid_time, on_grid, rk4_state_at, rk4_steps, time_at};
use crate::scalar::{implements, Arithmetic, Scalar};
use crate::trajectory::Trajectory;
use vstd::prelude::*;

verus! {

/// One component of the Adams-Bashforth slope
/// `55*f3 - 59*f2 + 37*f1 - 9*f0`, evaluated from left to right. `f0` is the
/// oldest derivative and `f3` the newest.
pub open spec fn bashforth_pool<T>(m: Arithmetic<T>, f0: T, f1: T, f2: T, f3: T) -> T {
    m.difference(
        m.sum(
            m.difference(m.product(m.count(55), f3), m.product(m.count(59), f2)),
            m.product(m.count(37), f1),
        ),
        m.product(m.count(9), f0),
    )
}

/// One component of the Adams-Moulton slope
/// `9*fp + 19*f3 - 5*f2 + f1`, evaluated from left to right. `fp` is the
/// derivative at the predicted state.
pub open spec fn moulton_pool<T>(m: Arithmetic<T>, fp: T, f1: T, f2: T, f3: T) -> T {
    m.sum(
        m.difference(
            m.sum(m.product(m.count(9), fp), m.product(m.count(19), f3)),
            m.product(m.count(5), f2),
        ),
        f1,
    )
}

/// The explicit prediction from `w` and the four latest derivatives `h`,
/// oldest first: `w + (dt / 24) * (55*h[3] - 59*h[2] + 37*h[1] - 9*h[0])`.
pub open spec fn predicted<T>(m: Arithmetic<T>, w: [T; 2], h: [[T; 2]; 4], dt: T) -> [T; 2] {
    let part = m.quotient(dt, m.count(24));
    [
        m.sum(w[0], m.product(part, bashforth_pool(m, h[0][0], h[1][0], h[2][0], h[3][0]))),
        m.sum(w[1], m.product(part, bashforth_pool(m, h[0][1], h[1][1], h[2][1], h[3][1]))),
    ]
}

/// The correction of a prediction whose derivative is `fp`:
/// `w + (dt / 24) * (9*fp + 19*h[3] - 5*h[2] + h[1])`.
pub open spec fn corrected<T>(
    m: Arithmetic<T>,
    w: [T; 2],
    fp: [T; 2],
    h: [[T; 2]; 4],
    dt: T,
) -> [T; 2] {
    let part = m.quotient(dt, m.count(24));
    [
        m.sum(w[0], m.product(part, moulton_pool(m, fp[0], h[1][0], h[2][0], h[3][0]))),
        m.sum(w[1], m.product(part, moulton_pool(m, fp[1], h[1][1], h[2][1], h[3][1]))),
    ]
}

/// The state that one predictor-corrector step reaches from `w` with the
/// derivative history `h`, for the rate function `g`: predict once,
/// evaluate, correct once.
pub open spec fn abam4_successor<T>(
    m: Arithmetic<T>,
    g: spec_fn([T; 2]) -> [T; 2],
    w: [T; 2],
    h: [[T; 2]; 4],
    dt: T,
) -> [T; 2] {
    corrected(m, w, g(predicted(m, w, h, dt)), h, dt)
}

/// The history after `newest` has come in: the oldest entry is gone, the
/// others have moved down one slot.
pub open spec fn shifted<T>(h: [[T; 2]; 4], newest: [T; 2]) -> [[T; 2]; 4] {
    [h[1], h[2], h[3], newest]
}

/// The state of the predictor-corrector run from `w0` at sample `i`.
///
/// Samples `0` to `3` are those of the Runge-Kutta run. Every later sample
/// is one predictor-corrector step on from the sample before, with the
/// derivatives at the four samples before it as history.
pub open spec fn abam4_state_at<T>(
    m: Arithmetic<T>,
    g: spec_fn([T; 2]) -> [T; 2],
    w0: [T; 2],
    dt: T,
    i: nat,
) -> [T; 2]
    decreases i, 1nat,
{
    if i <= 3 {
        rk4_state_at(m, g, w0, dt, i)
    } else {
        abam4_successor(
            m,
            g,
            abam4_state_at(m, g, w0, dt, (i - 1) as nat),
            history_at(m, g, w0, dt, i),
            dt,
        )
    }
}

/// The derivative history that the step to sample `i >= 4` works with: the
/// derivatives at the four samples before `i`, oldest first.
pub open spec fn history_at<T>(
    m: Arithmetic<T>,
    g: spec_fn([T; 2]) -> [T; 2],
    w0: [T; 2],
    dt: T,
    i: nat,
) -> [[T; 2]; 4]
    decreases i, 0nat,
{
    if i <= 3 {
        [w0, w0, w0, w0]
    } else {
        [
            g(abam4_state_at(m, g, w0, dt, (i - 4) as nat)),
            g(abam4_state_at(m, g, w0, dt, (i - 3) as nat)),
            g(abam4_state_at(m, g, w0, dt, (i - 2) as nat)),
            g(abam4_state_at(m, g, w0, dt, (i - 1) as nat)),
        ]
    }
}

/// Every state of `traj` up to sample `n` is the one that the
/// predictor-corrector method prescribes for the rate function `g`.
pub open spec fn follows_abam4<T>(
    traj: Trajectory<T>,
    m: Arithmetic<T>,
    g: spec_fn([T; 2]) -> [T; 2],
    w0: [T; 2],
    dt: T,
    n: nat,
) -> bool {
    forall|i: int|
        #![trigger traj.states@[i]]
        0 <= i <= n ==> traj.states@[i] == abam4_state_at(m, g, w0, dt, i as nat)
}

/// `traj` is a predictor-corrector run of `n` steps from `(t0, w0)` with the
/// rate function `f`.
///
/// It has `n + 1` samples and starts at the state `w0`. In every arithmetic
/// that `T` implements, every time lies on the grid, and for every function
/// that `f` computes every state is the one that the method prescribes.
pub open spec fn is_abam4_run<T: Scalar, R: RateFunction<T>>(
    traj: Trajectory<T>,
    f: &R,
    w0: [T; 2],
    t0: T,
    dt: T,
    n: nat,
) -> bool {
    &&& traj.states@.len() == n + 1
    &&& traj.time@.len() == n + 1
    &&& traj.states@[0] == w0
    &&& forall|m: Arithmetic<T>| #[trigger] implements(m) ==> on_grid(traj, m, t0, dt, 0, n)
    &&& forall|m: Arithmetic<T>, g: spec_fn([T; 2]) -> [T; 2]|
        #![trigger implements(m), computes(f, g)]
        implements(m) && computes(f, g) ==> follows_abam4(traj, m, g, w0, dt, n)
}

/// The explicit Adams-Bashforth prediction.
pub fn predict<T: Scalar>(w: &[T; 2], h: &[[T; 2]; 4], dt: T) -> (wpred: [T; 2])
    ensures
        forall|m: Arithmetic<T>| #[trigger] implements(m) ==> wpred == predicted(m, *w, *h, dt),
{
    let part = dt.over(T::from_count(24));
    let c55 = T::from_count(55);
    let c59 = T::from_count(59);
    let c37 = T::from_count(37);
    let c9 = T::from_count(9);
    let pool0 = c55.times(h[3][0]).minus(c59.times(h[2][0])).plus(c37.times(h[1][0])).minus(
        c9.times(h[0][0]),
    );
    let pool1 = c55.times(h[3][1]).minus(c59.times(h[2][1])).plus(c37.times(h[1][1])).minus(
        c9.times(h[0][1]),
    );
    [w[0].plus(part.times(pool0)), w[1].plus(part.times(pool1))]
}

/// The Adams-Moulton correction, with the derivative `fp` at the predicted
/// state in place of the implicit term.
pub fn correct<T: Scalar>(w: &[T; 2], h: &[[T; 2]; 4], fp: &[T; 2], dt: T) -> (wnew: [T; 2])
    ensures
        forall|m: Arithmetic<T>| #[trigger]
            implements(m) ==> wnew == corrected(m, *w, *fp, *h, dt),
{
    let part = dt.over(T::from_count(24));
    let c9 = T::from_count(9);
    let c19 = T::from_count(19);
    let c5 = T::from_count(5);
    let pool0 = c9.times(fp[0]).plus(c19.times(h[3][0])).minus(c5.times(h[2][0])).plus(h[1][0]);
    let pool1 = c9.times(fp[1]).plus(c19.times(h[3][1])).minus(c5.times(h[2][1])).plus(h[1][1]);
    [w[0].plus(part.times(pool0)), w[1].plus(part.times(pool1))]
}

/// Drops the oldest derivative from the history and appends `newest`.
pub fn shift<T: Scalar>(h: &mut [[T; 2]; 4], newest: [T; 2])
    ensures
        *final(h) == shifted(*old(h), newest),
{
    h[0] = h[1];
    h[1] = h[2];
    h[2] = h[3];
    h[3] = newest;
}

/// Integrates the request `spec` with the predictor-corrector method.
///
/// The first four samples come from three Runge-Kutta steps. A request with
/// fewer than four steps leaves nothing for the multistep formula and is
/// turned down before anything is computed.
pub fn abam4<T: Scalar, R: RateFunction<T>>(f: &R, spec: &IntegrationSpec<T>) -> (r: Result<
    Trajectory<T>,
    SolveError,
>)
    ensures
        r is Ok <==> spec@.steps >= 4,
        match r {
            Ok(traj) => is_abam4_run(traj, f, spec@.initial, spec@.t0, spec@.dt, spec@.steps),
            Err(e) => e == SolveError::InvalidConfiguration,
        },
{
    let n = spec.steps();
    if n < 4 {
        return Err(SolveError::InvalidConfiguration);
    }
    let w0 = spec.initial();
    let t0 = spec.t0();
    let dt = spec.dt();
    let start = rk4_steps(f, w0, t0, dt, 3);

    let mut time: Vec<T> = Vec::new();
    let mut states: Vec<[T; 2]> = Vec::new();
    let zero = T::from_count(0);
    let mut h: [[T; 2]; 4] = [[zero, zero]; 4];
    let mut w = w0;
    let mut i: usize = 0;
    while i < 4
        invariant
            i <= 4,
            start.states@.len() == 4,
            start.states@[0] == w0,
            states@.len() == i,
            time@.len() == i,
            forall|j: int| 0 <= j < i ==> #[trigger] states@[j] == start.states@[j],
            i > 0 ==> w == states@[i - 1],
            forall|m: Arithmetic<T>| #[trigger]
                implements(m) ==> forall|j: int|
                    #![trigger time@[j]]
                    0 <= j < i ==> time@[j] == grid_time(m, t0, dt, j as nat),
            forall|g: spec_fn([T; 2]) -> [T; 2]|
                #![trigger computes(f, g)]
                computes(f, g) ==> forall|j: int|
                    #![trigger h@[j]]
                    0 <= j < i ==> h@[j] == g(start.states@[j]),
        decreases 4 - i,
    {
        w = start.states[i];
        time.push(time_at(t0, dt, i));
        states.push(w);
        h[i] = f.rate(&w);
        i = i + 1;
    }

    let mut i: usize = 3;
    while i < n
        invariant
            3 <= i <= n,
            n < usize::MAX,
            states@.len() == i + 1,
            time@.len() == i + 1,
            states@[0] == w0,
            w == states@[i as int],
            forall|m: Arithmetic<T>| #[trigger]
                implements(m) ==> forall|j: int|
                    #![trigger time@[j]]
                    0 <= j <= i ==> time@[j] == grid_time(m, t0, dt, j as nat),
            forall|m: Arithmetic<T>, g: spec_fn([T; 2]) -> [T; 2]|
                #![trigger implements(m), computes(f, g)]
                implements(m) && computes(f, g) ==> {
                    &&& forall|j: int|
                        #![trigger states@[j]]
                        0 <= j <= i ==> states@[j] == abam4_state_at(m, g, w0, dt, j as nat)
                    &&& h == history_at(m, g, w0, dt, (i + 1) as nat)
                },
        decreases n - i,
    {
        i = i + 1;
        let wpred = predict(&w, &h, dt);
        let fpred = f.rate(&wpred);
        w = correct(&w, &h, &fpred, dt);
        let fcorr = f.rate(&w);
        shift(&mut h, fcorr);
        states.push(w);
        time.push(time_at(t0, dt, i));
    }
    Ok(Trajectory { time, states })
}

} // verus!
