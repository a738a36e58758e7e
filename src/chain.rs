//! The chain of visited states, with its burn-in mark, and resampling from it.
use vstd::prelude::*;

use crate::random::draw_index;

verus! {

/// Why a draw from a chain could not be made.
#[derive(Debug, Clone, Copy, PartialEq, Eq)]
pub enum SampleError {
    /// The burn-in mark leaves no state to draw from: `burnin >= len`.
    BurninOutOfRange { burnin: usize, len: usize },
}

/// The states visited by a chain, in time order (index 0 is the initial
/// state), and the index of the first state past burn-in.
pub struct McmcResult<T> {
    pub value: Vec<T>,
    pub burnin: usize,
}

impl<T> McmcResult<T> {
    /// A chain holds its initial state and its burn-in mark lies within it.
    pub open spec fn wf(&self) -> bool {
        &&& self.value@.len() >= 1
        &&& self.burnin <= self.value@.len()
    }

    /// The most recent state of the chain.
    pub open spec fn current(&self) -> T {
        self.value@.last()
    }

    /// A chain that holds only `init`, with no burn-in.
    pub fn new(init: T) -> (r: Self)
        ensures
            r.wf(),
            r.value@ == seq![init],
            r.burnin == 0,
    {
        McmcResult { value: vec![init], burnin: 0 }
    }

    /// Number of states in the chain.
    pub fn len(&self) -> (r: usize)
        ensures
            r == self.value@.len(),
    {
        self.value.len()
    }

    /// Draws an index uniformly from the states past burn-in,
    /// `burnin..len`; fails when that range is empty.
    pub fn sample_index(&self, rng: &mut rand::rngs::StdRng) -> (r: Result<usize, SampleError>)
        ensures
            r.is_ok() <==> self.burnin < self.value@.len(),
            r matches Ok(i) ==> self.burnin <= i < self.value@.len(),
            r matches Err(e) ==> e == (SampleError::BurninOutOfRange {
                burnin: self.burnin,
                len: self.value@.len() as usize,
            }),
    {
        let len = self.value.len();
        if self.burnin < len {
            Ok(draw_index(self.burnin, len, rng))
        } else {
            Err(SampleError::BurninOutOfRange { burnin: self.burnin, len })
        }
    }
}

impl<T: Copy> McmcResult<T> {
    /// Uses the chain as an empirical distribution: returns the state at an
    /// index drawn uniformly from `burnin..len`; fails when that range is empty.
    pub fn sample(&self, rng: &mut rand::rngs::StdRng) -> (r: Result<T, SampleError>)
        ensures
            r.is_ok() <==> self.burnin < self.value@.len(),
            r matches Ok(v) ==> exists|i: int|
                self.burnin <= i < self.value@.len() && #[trigger] self.value@[i] == v,
            r matches Err(e) ==> e == (SampleError::BurninOutOfRange {
                burnin: self.burnin,
                len: self.value@.len() as usize,
            }),
    {
        match self.sample_index(rng) {
            Ok(i) => {
                let v = self.value[i];
                assert(self.value@[i as int] == v);
                Ok(v)
            },
            Err(e) => Err(e),
        }
    }
}

} // verus!
