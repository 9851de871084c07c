use vstd::prelude::*;

use crate::boltzmann::BoltzmannPolicy;
use crate::epsilon_greedy::EpsilonGreedyPolicy;
use crate::value::Value;

verus! {

/// `choice` is the index of the greatest estimate, ties broken by the lowest
/// index.
pub open spec fn is_first_max(estimates: Seq<Value>, choice: int) -> bool {
    &&& 0 <= choice < estimates.len()
    &&& forall|j: int| 0 <= j < estimates.len() ==> estimates[j].bits <= estimates[choice].bits
    &&& forall|j: int| 0 <= j < choice ==> estimates[j].bits < estimates[choice].bits
}

/// Only one index is the first maximum, so repeated greedy selections on the
/// same estimates agree.
pub proof fn lemma_first_max_unique(estimates: Seq<Value>, c1: int, c2: int)
    requires
        is_first_max(estimates, c1),
        is_first_max(estimates, c2),
    ensures
        c1 == c2,
{
    if c1 < c2 {
        assert(estimates[c1].bits < estimates[c2].bits);
        assert(estimates[c2].bits <= estimates[c1].bits);
    }
    if c2 < c1 {
        assert(estimates[c2].bits < estimates[c1].bits);
        assert(estimates[c1].bits <= estimates[c2].bits);
    }
}

/// The index of the greatest estimate, ties broken by the lowest index.
pub fn select_greedy(estimates: &Vec<Value>) -> (choice: usize)
    requires
        estimates@.len() >= 1,
    ensures
        is_first_max(estimates@, choice as int),
{
    let mut best: usize = 0;
    let mut i: usize = 1;
    while i < estimates.len()
        invariant
            best < i <= estimates@.len(),
            forall|j: int| 0 <= j < i ==> estimates@[j].bits <= estimates@[best as int].bits,
            forall|j: int| 0 <= j < best ==> estimates@[j].bits < estimates@[best as int].bits,
        decreases estimates@.len() - i,
    {
        if estimates[i].bits > estimates[best].bits {
            best = i;
        }
        i += 1;
    }
    best
}

/// The capability of an exploration strategy: pick an action index given the
/// value estimates of the actions available in one state.
pub trait PolicyLike: Sized {
    /// What the strategy guarantees of a chosen index, whatever its random
    /// draws came to.
    spec fn selects(self, estimates: Seq<Value>, choice: int) -> bool;

    fn select_action(&self, estimates: &Vec<Value>) -> (choice: usize)
        requires
            estimates@.len() >= 1,
        ensures
            choice < estimates@.len(),
            self.selects(estimates@, choice as int),
    ;
}

/// The closed set of exploration strategies.
#[derive(Clone, Copy, PartialEq, Eq, Structural, Debug)]
pub enum Policy {
    Boltzmann(BoltzmannPolicy),
    EpsilonGreedy(EpsilonGreedyPolicy),
}

impl PolicyLike for Policy {
    open spec fn selects(self, estimates: Seq<Value>, choice: int) -> bool {
        match self {
            Policy::Boltzmann(p) => p.selects(estimates, choice),
            Policy::EpsilonGreedy(p) => p.selects(estimates, choice),
        }
    }

    fn select_action(&self, estimates: &Vec<Value>) -> (choice: usize) {
        match self {
            Policy::Boltzmann(p) => p.select_action(estimates),
            Policy::EpsilonGreedy(p) => p.select_action(estimates),
        }
    }
}

impl From<BoltzmannPolicy> for Policy {
    fn from(p: BoltzmannPolicy) -> (r: Policy) {
        Policy::Boltzmann(p)
    }
}

impl vstd::std_specs::convert::FromSpecImpl<BoltzmannPolicy> for Policy {
    open spec fn obeys_from_spec() -> bool {
        true
    }

    open spec fn from_spec(p: BoltzmannPolicy) -> Policy {
        Policy::Boltzmann(p)
    }
}

impl From<EpsilonGreedyPolicy> for Policy {
    fn from(p: EpsilonGreedyPolicy) -> (r: Policy) {
        Policy::EpsilonGreedy(p)
    }
}

impl vstd::std_specs::convert::FromSpecImpl<EpsilonGreedyPolicy> for Policy {
    open spec fn obeys_from_spec() -> bool {
        true
    }

    open spec fn from_spec(p: EpsilonGreedyPolicy) -> Policy {
        Policy::EpsilonGreedy(p)
    }
}

} // verus!
