use vstd::prelude::*;

use crate::policy::{is_first_max, select_greedy, PolicyLike};
use crate::rng::{random_below_u64, random_index};
use crate::value::Value;

verus! {

/// Epsilon-greedy exploration: with probability `epsilon` a uniformly random
/// action, otherwise the action with the greatest estimate (ties broken by
/// the lowest index).
#[derive(Clone, Copy, PartialEq, Eq, Structural, Debug)]
pub struct EpsilonGreedyPolicy {
    pub epsilon: Value,
}

impl EpsilonGreedyPolicy {
    pub fn new(epsilon: Value) -> (r: Self)
        ensures
            r.epsilon == epsilon,
    {
        Self { epsilon }
    }
}

impl PolicyLike for EpsilonGreedyPolicy {
    /// With `epsilon <= 0` the exploration branch is impossible, so the
    /// choice is exactly the greedy one.
    open spec fn selects(self, estimates: Seq<Value>, choice: int) -> bool {
        &&& 0 <= choice < estimates.len()
        &&& (self.epsilon.bits <= 0 ==> is_first_max(estimates, choice))
    }

    fn select_action(&self, estimates: &Vec<Value>) -> (choice: usize) {
        // A uniform Q32.32 fraction in [0, 1).
        let r: u64 = random_below_u64(0x1_0000_0000u64);
        if (r as i64) < self.epsilon.bits {
            random_index(estimates.len())
        } else {
            select_greedy(estimates)
        }
    }
}

} // verus!
