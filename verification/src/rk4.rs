//! The classical fourth-order Runge-Kutta method with a fixed step.
use crate::config::IntegrationSpec;
use crate::rate::{computes, RateFunction};
use crate::scalar::{implements, Arithmetic, Scalar};
use crate::trajectory::Trajectory;
use vstd::prelude::*;

verus! {

/// The state `w` moved along the slope `k` for the time `h`:
/// `w + h * k`, component by component.
pub open spec fn updated<T>(m: Arithmetic<T>, w: [T; 2], k: [T; 2], h: T) -> [T; 2] {
    [m.sum(w[0], m.product(h, k[0])), m.sum(w[1], m.product(h, k[1]))]
}

/// One component of the weighted slope `k1 + 2*k2 + 2*k3 + k4`, summed from
/// left to right.
pub open spec fn pooled<T>(m: Arithmetic<T>, k1: T, k2: T, k3: T, k4: T) -> T {
    let two = m.count(2);
    m.sum(m.sum(m.sum(k1, m.product(two, k2)), m.product(two, k3)), k4)
}

/// The state after one step from `w`, given the four stage slopes:
/// `w + (dt / 6) * (k1 + 2*k2 + 2*k3 + k4)`.
pub open spec fn combined<T>(
    m: Arithmetic<T>,
    w: [T; 2],
    k1: [T; 2],
    k2: [T; 2],
    k3: [T; 2],
    k4: [T; 2],
    dt: T,
) -> [T; 2] {
    let sixth = m.quotient(dt, m.count(6));
    [
        m.sum(w[0], m.product(sixth, pooled(m, k1[0], k2[0], k3[0], k4[0]))),
        m.sum(w[1], m.product(sixth, pooled(m, k1[1], k2[1], k3[1], k4[1]))),
    ]
}

/// The state that one Runge-Kutta step of size `dt` reaches from `w`, for
/// the rate function `g`.
///
/// The four slopes are taken at `w`, twice at the midpoint `w + (dt / 2) * k`
/// and at the far end `w + dt * k3` of the step, each stage starting again
/// from `w`.
pub open spec fn rk4_successor<T>(
    m: Arithmetic<T>,
    g: spec_fn([T; 2]) -> [T; 2],
    w: [T; 2],
    dt: T,
) -> [T; 2] {
    let half = m.quotient(dt, m.count(2));
    let k1 = g(w);
    let k2 = g(updated(m, w, k1, half));
    let k3 = g(updated(m, w, k2, half));
    let k4 = g(updated(m, w, k3, dt));
    combined(m, w, k1, k2, k3, k4, dt)
}

/// The state of the Runge-Kutta run from `w0` at sample `i`: `w0` itself at
/// `i = 0`, and one step on from the sample before at every later index.
pub open spec fn rk4_state_at<T>(
    m: Arithmetic<T>,
    g: spec_fn([T; 2]) -> [T; 2],
    w0: [T; 2],
    dt: T,
    i: nat,
) -> [T; 2]
    decreases i,
{
    if i == 0 {
        w0
    } else {
        rk4_successor(m, g, rk4_state_at(m, g, w0, dt, (i - 1) as nat), dt)
    }
}

/// The time of sample `i` on the grid that starts at `t0` with spacing
/// `dt`: `t0 + i * dt`, computed from the index and not by adding up steps.
pub open spec fn grid_time<T>(m: Arithmetic<T>, t0: T, dt: T, i: nat) -> T {
    m.sum(t0, m.product(m.count(i as u64), dt))
}

/// The times of `traj` from sample `first` to sample `n` lie on the grid
/// that starts at `t0` with spacing `dt`.
pub open spec fn on_grid<T>(
    traj: Trajectory<T>,
    m: Arithmetic<T>,
    t0: T,
    dt: T,
    first: nat,
    n: nat,
) -> bool {
    forall|i: int|
        #![trigger traj.time@[i]]
        first <= i <= n ==> traj.time@[i] == grid_time(m, t0, dt, i as nat)
}

/// Every state of `traj` up to sample `n` is the one that the Runge-Kutta
/// method prescribes for the rate function `g`.
pub open spec fn follows_rk4<T>(
    traj: Trajectory<T>,
    m: Arithmetic<T>,
    g: spec_fn([T; 2]) -> [T; 2],
    w0: [T; 2],
    dt: T,
    n: nat,
) -> bool {
    forall|i: int|
        #![trigger traj.states@[i]]
        0 <= i <= n ==> traj.states@[i] == rk4_state_at(m, g, w0, dt, i as nat)
}

/// `next` is one Runge-Kutta step of size `dt` on from `w` with the rate
/// function `f`: it is the successor of `w` in every arithmetic that `T`
/// implements, for every function that `f` computes.
pub open spec fn is_rk4_step<T: Scalar, R: RateFunction<T>>(
    next: [T; 2],
    f: &R,
    w: [T; 2],
    dt: T,
) -> bool {
    forall|m: Arithmetic<T>, g: spec_fn([T; 2]) -> [T; 2]|
        #![trigger implements(m), computes(f, g)]
        implements(m) && computes(f, g) ==> next == rk4_successor(m, g, w, dt)
}

/// `traj` is a Runge-Kutta run of `n` steps from `(t0, w0)` with the rate
/// function `f`.
///
/// It has `n + 1` samples and starts at `(t0, w0)` exactly. In every
/// arithmetic that `T` implements, every later time lies on the grid, and
/// for every function that `f` computes every state is the one that the
/// method prescribes.
pub open spec fn is_rk4_run<T: Scalar, R: RateFunction<T>>(
    traj: Trajectory<T>,
    f: &R,
    w0: [T; 2],
    t0: T,
    dt: T,
    n: nat,
) -> bool {
    &&& traj.states@.len() == n + 1
    &&& traj.time@.len() == n + 1
    &&& traj.states@[0] == w0
    &&& traj.time@[0] == t0
    &&& forall|m: Arithmetic<T>| #[trigger] implements(m) ==> on_grid(traj, m, t0, dt, 1, n)
    &&& forall|m: Arithmetic<T>, g: spec_fn([T; 2]) -> [T; 2]|
        #![trigger implements(m), computes(f, g)]
        implements(m) && computes(f, g) ==> follows_rk4(traj, m, g, w0, dt, n)
}

/// Moves `w` along the slope `k` for the time `h`.
pub fn update<T: Scalar>(w: &[T; 2], k: &[T; 2], h: T) -> (u: [T; 2])
    ensures
        forall|m: Arithmetic<T>| #[trigger] implements(m) ==> u == updated(m, *w, *k, h),
{
    [w[0].plus(h.times(k[0])), w[1].plus(h.times(k[1]))]
}

/// Combines the four stage slopes into the next state.
pub fn combine<T: Scalar>(
    w: &[T; 2],
    k1: &[T; 2],
    k2: &[T; 2],
    k3: &[T; 2],
    k4: &[T; 2],
    dt: T,
) -> (next: [T; 2])
    ensures
        forall|m: Arithmetic<T>| #[trigger]
            implements(m) ==> next == combined(m, *w, *k1, *k2, *k3, *k4, dt),
{
    let two = T::from_count(2);
    let sixth = dt.over(T::from_count(6));
    let pool0 = k1[0].plus(two.times(k2[0])).plus(two.times(k3[0])).plus(k4[0]);
    let pool1 = k1[1].plus(two.times(k2[1])).plus(two.times(k3[1])).plus(k4[1]);
    [w[0].plus(sixth.times(pool0)), w[1].plus(sixth.times(pool1))]
}

/// Takes one Runge-Kutta step of size `dt` from `w`.
pub fn rk4_step<T: Scalar, R: RateFunction<T>>(f: &R, w: &[T; 2], dt: T) -> (next: [T; 2])
    ensures
        is_rk4_step(next, f, *w, dt),
{
    let half = dt.over(T::from_count(2));
    let k1 = f.rate(w);
    let w2 = update(w, &k1, half);
    let k2 = f.rate(&w2);
    let w3 = update(w, &k2, half);
    let k3 = f.rate(&w3);
    let w4 = update(w, &k3, dt);
    let k4 = f.rate(&w4);
    combine(w, &k1, &k2, &k3, &k4, dt)
}

/// The time of sample `i` on the grid that starts at `t0` with spacing `dt`.
pub fn time_at<T: Scalar>(t0: T, dt: T, i: usize) -> (t: T)
    ensures
        forall|m: Arithmetic<T>| #[trigger] implements(m) ==> t == grid_time(m, t0, dt, i as nat),
{
    t0.plus(T::from_count(i as u64).times(dt))
}

/// The first `n + 1` times of the grid that starts at `t0` with spacing
/// `dt`, each computed from its index.
pub fn time_grid<T: Scalar>(t0: T, dt: T, n: usize) -> (time: Vec<T>)
    requires
        n < usize::MAX,
    ensures
        time@.len() == n + 1,
        forall|m: Arithmetic<T>| #[trigger]
            implements(m) ==> forall|i: int|
                #![trigger time@[i]]
                0 <= i <= n ==> time@[i] == grid_time(m, t0, dt, i as nat),
{
    let mut time: Vec<T> = Vec::new();
    let mut i: usize = 0;
    while i <= n
        invariant
            i <= n + 1,
            n < usize::MAX,
            time@.len() == i,
            forall|m: Arithmetic<T>| #[trigger]
                implements(m) ==> forall|j: int|
                    #![trigger time@[j]]
                    0 <= j < i ==> time@[j] == grid_time(m, t0, dt, j as nat),
        decreases n + 1 - i,
    {
        time.push(time_at(t0, dt, i));
        i = i + 1;
    }
    time
}

/// Integrates `n` steps of size `dt` from the state `w0` at time `t0`.
pub fn rk4_steps<T: Scalar, R: RateFunction<T>>(f: &R, w0: [T; 2], t0: T, dt: T, n: usize) -> (traj:
    Trajectory<T>)
    requires
        n < usize::MAX,
    ensures
        is_rk4_run(traj, f, w0, t0, dt, n as nat),
{
    let mut time: Vec<T> = Vec::new();
    let mut states: Vec<[T; 2]> = Vec::new();
    time.push(t0);
    states.push(w0);
    let mut w = w0;
    let mut i: usize = 0;
    while i < n
        invariant
            i <= n,
            n < usize::MAX,
            states@.len() == i + 1,
            time@.len() == i + 1,
            states@[0] == w0,
            time@[0] == t0,
            w == states@[i as int],
            forall|m: Arithmetic<T>| #[trigger]
                implements(m) ==> forall|j: int|
                    #![trigger time@[j]]
                    1 <= j <= i ==> time@[j] == grid_time(m, t0, dt, j as nat),
            forall|m: Arithmetic<T>, g: spec_fn([T; 2]) -> [T; 2]|
                #![trigger implements(m), computes(f, g)]
                implements(m) && computes(f, g) ==> forall|j: int|
                    #![trigger states@[j]]
                    0 <= j <= i ==> states@[j] == rk4_state_at(m, g, w0, dt, j as nat),
        decreases n - i,
    {
        i = i + 1;
        w = rk4_step(f, &w, dt);
        states.push(w);
        time.push(time_at(t0, dt, i));
    }
    Trajectory { time, states }
}

/// Integrates the request `spec` with the Runge-Kutta method.
///
/// The run covers `spec.steps()` whole steps; where the span is not a
/// multiple of the step, the last sample lies before the end of the span.
pub fn rk4<T: Scalar, R: RateFunction<T>>(f: &R, spec: &IntegrationSpec<T>) -> (traj: Trajectory<T>)
    ensures
        is_rk4_run(traj, f, spec@.initial, spec@.t0, spec@.dt, spec@.steps),
{
    rk4_steps(f, spec.initial(), spec.t0(), spec.dt(), spec.steps())
}

} // verus!
