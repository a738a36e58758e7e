//! Stopping policies: when a running chain is finished.
use vstd::prelude::*;

use crate::chain::McmcResult;

verus! {

/// A rule, consulted once per iteration before each step, that says when
/// a chain is finished.
#[derive(Debug, Clone, Copy, PartialEq, Eq)]
pub enum StopCondition {
    /// Stop once the chain holds more than this many states.
    StepBudget(usize),
}

impl StopCondition {
    /// Whether a chain of `len` states is finished under this rule.
    pub open spec fn met_by(self, len: nat) -> bool {
        match self {
            StopCondition::StepBudget(n) => len > n,
        }
    }

    /// The length at which a chain started from one state stops under this rule.
    pub open spec fn final_len(self) -> nat {
        match self {
            StopCondition::StepBudget(n) => n as nat + 1,
        }
    }

    /// Whether the rule can be run to its end: the final length fits in `usize`.
    pub open spec fn runnable(self) -> bool {
        match self {
            StopCondition::StepBudget(n) => n < usize::MAX,
        }
    }

    /// Evaluates the rule on the chain built so far.
    pub fn is_met<T>(&self, chain: &McmcResult<T>) -> (r: bool)
        ensures
            r == self.met_by(chain.value@.len()),
    {
        match self {
            StopCondition::StepBudget(n) => chain.value.len() > *n,
        }
    }
}

/// The rule that stops a chain once it holds more than `step` states.
pub fn mcmc_stop_after(step: usize) -> (r: StopCondition)
    ensures
        r == StopCondition::StepBudget(step),
        forall|len: nat| #[trigger] r.met_by(len) <==> len > step,
{
    StopCondition::StepBudget(step)
}

} // verus!
