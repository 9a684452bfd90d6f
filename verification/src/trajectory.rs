//! The samples that a run produces.
use vstd::prelude::*;

verus! {

/// The result of a run: the sample times and, in step with them, the states.
/// Sample `0` is the initial condition.
#[derive(Debug)]
pub struct Trajectory<T> {
    /// The time of each sample, in ascending order of the index.
    pub time: Vec<T>,
    /// The state at each sample.
    pub states: Vec<[T; 2]>,
}

impl<T: Copy> Trajectory<T> {
    /// There is a state for every time, and at least the initial sample.
    pub open spec fn well_formed(&self) -> bool {
        &&& self.time@.len() == self.states@.len()
        &&& self.states@.len() >= 1
    }

    /// The number of samples.
    pub fn len(&self) -> (n: usize)
        ensures
            n == self.states@.len(),
    {
        self.states.len()
    }

    /// The state at the last sample.
    pub fn final_state(&self) -> (w: [T; 2])
        requires
            self.well_formed(),
        ensures
            w == self.states@.last(),
    {
        self.states[self.states.len() - 1]
    }
}

} // verus!
