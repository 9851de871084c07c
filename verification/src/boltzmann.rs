use vstd::prelude::*;

use crate::policy::{is_first_max, select_greedy, PolicyLike};
use crate::rng::random_below_u128;
use crate::value::{fx_div, Value};

verus! {

/// Boltzmann (softmax) exploration: actions are sampled with probability
/// proportional to `e^(estimate / temperature)`; degenerate weightings fall
/// back to the greedy choice.
#[derive(Clone, Copy, PartialEq, Eq, Structural, Debug)]
pub struct BoltzmannPolicy {
    pub temperature: Value,
}

impl BoltzmannPolicy {
    pub fn new(temperature: Value) -> (r: Self)
        ensures
            r.temperature == temperature,
    {
        Self { temperature }
    }

    /// The weighting degenerates when the temperature is zero, when some
    /// scaled estimate is too large for its exponential to be represented,
    /// or when every weight rounds down to zero.
    pub open spec fn degenerate(self, estimates: Seq<Value>) -> bool {
        ||| self.temperature.bits == 0
        ||| exists|i: int|
            0 <= i < estimates.len() && fx_div(
                estimates[i].bits as int,
                self.temperature.bits as int,
            ) > 0x15_0000_0000
        ||| weight_sum(estimates, self.temperature.bits as int, estimates.len() as int) == 0
    }
}

/// The result of cordic's `exp` on a Q32.32 fixed-point number; a function of
/// the argument alone.
pub uninterp spec fn fixed_exp(x: int) -> int;

/// Relies on cordic's `exp` over fixed's Q32.32 type: `e^x` in the same
/// representation, never negative.  For `|x| <= 21` the result and every
/// intermediate product fit the type, since `e^21 < 2^31`; the precondition
/// rules the rest out.
#[verifier::external_body]
fn exp_bits(x: i64) -> (r: i64)
    requires
        -0x15_0000_0000 <= x <= 0x15_0000_0000,
    ensures
        r as int == fixed_exp(x as int),
        r >= 0,
{
    cordic::exp(fixed::types::I32F32::from_bits(x)).to_bits()
}

/// The unnormalized weight of one estimate `e` at temperature `t`: the
/// exponential of the scaled estimate, flushed to zero once the argument is
/// too small to matter and left zero where it would overflow (that case is
/// degenerate and never sampled from).
pub open spec fn weight_spec(e: int, t: int) -> int
    recommends
        t != 0,
{
    let x = fx_div(e, t);
    if x > 0x15_0000_0000 {
        0
    } else if x < -0x15_0000_0000 {
        0
    } else {
        fixed_exp(x)
    }
}

/// The sum of the weights of the first `n` estimates.
pub open spec fn weight_sum(estimates: Seq<Value>, t: int, n: int) -> int
    decreases n,
{
    if n <= 0 {
        0
    } else {
        weight_sum(estimates, t, n - 1) + weight_spec(estimates[n - 1].bits as int, t)
    }
}

/// The sum of the first `n` entries of `w`.
pub open spec fn prefix_sum(w: Seq<u64>, n: int) -> int
    decreases n,
{
    if n <= 0 {
        0
    } else {
        prefix_sum(w, n - 1) + w[n - 1]
    }
}

/// Prefix sums of nonnegative entries grow with their length.
pub proof fn lemma_prefix_sum_mono(w: Seq<u64>, a: int, b: int)
    requires
        0 <= a <= b,
    ensures
        prefix_sum(w, a) <= prefix_sum(w, b),
    decreases b,
{
    if a < b {
        lemma_prefix_sum_mono(w, a, b - 1);
    }
}

/// When every entry of `w` equals the weight of the matching estimate, the
/// prefix sums agree with the weight sums.
pub proof fn lemma_prefix_eq_weight_sum(w: Seq<u64>, estimates: Seq<Value>, t: int, n: int)
    requires
        0 <= n <= w.len(),
        n <= estimates.len(),
        forall|j: int| 0 <= j < n ==> w[j] as int == weight_spec(estimates[j].bits as int, t),
    ensures
        prefix_sum(w, n) == weight_sum(estimates, t, n),
    decreases n,
{
    if n > 0 {
        lemma_prefix_eq_weight_sum(w, estimates, t, n - 1);
    }
}

/// The prefix sums of a constant sequence are the multiples of the constant.
pub proof fn lemma_prefix_sum_const(w: Seq<u64>, wt: u64, n: int)
    requires
        0 <= n <= w.len(),
        forall|j: int| 0 <= j < w.len() ==> w[j] == wt,
    ensures
        prefix_sum(w, n) == n * (wt as int),
    decreases n,
{
    if n <= 0 {
        assert(prefix_sum(w, n) == 0);
        assert(n * (wt as int) == 0) by (nonlinear_arith)
            requires
                n == 0,
        ;
    } else {
        lemma_prefix_sum_const(w, wt, n - 1);
        assert(prefix_sum(w, n) == prefix_sum(w, n - 1) + w[n - 1]);
        assert(n * (wt as int) == (n - 1) * (wt as int) + wt) by (nonlinear_arith);
    }
}

/// With all weights equal, cumulative sampling comes to the integer division
/// of the draw by the common weight, so a uniform draw selects every index
/// with the same probability.
pub proof fn lemma_equal_weights_uniform(w: Seq<u64>, wt: u64, r: int, choice: int)
    requires
        wt > 0,
        forall|j: int| 0 <= j < w.len() ==> w[j] == wt,
        0 <= choice < w.len(),
        prefix_sum(w, choice) <= r < prefix_sum(w, choice + 1),
    ensures
        choice == r / (wt as int),
{
    lemma_prefix_sum_const(w, wt, choice);
    lemma_prefix_sum_const(w, wt, choice + 1);
    assert((choice + 1) * (wt as int) == choice * (wt as int) + wt) by (nonlinear_arith);
    vstd::arithmetic::div_mod::lemma_fundamental_div_mod_converse(
        r,
        wt as int,
        choice,
        r - choice * (wt as int),
    );
}

/// Sample an index from a cumulative distribution: the first index whose
/// cumulative weight exceeds the draw `r`.
pub fn select_by_weights(weights: &Vec<u64>, r: u128) -> (choice: usize)
    requires
        weights@.len() >= 1,
        prefix_sum(weights@, weights@.len() as int) <= 0xffff_ffff_ffff_ffff_ffff_ffff_ffff_ffff,
        (r as int) < prefix_sum(weights@, weights@.len() as int),
    ensures
        choice < weights@.len(),
        prefix_sum(weights@, choice as int) <= r as int,
        (r as int) < prefix_sum(weights@, choice as int + 1),
        weights@[choice as int] > 0,
{
    let n: usize = weights.len();
    let mut cum: u128 = 0;
    let mut i: usize = 0;
    while i < n
        invariant
            i <= n,
            n == weights@.len(),
            cum as int == prefix_sum(weights@, i as int),
            cum as int <= r as int,
            (r as int) < prefix_sum(weights@, n as int),
            prefix_sum(weights@, n as int) <= 0xffff_ffff_ffff_ffff_ffff_ffff_ffff_ffff,
        decreases n - i,
    {
        proof {
            lemma_prefix_sum_mono(weights@, i as int + 1, n as int);
        }
        let next: u128 = cum + (weights[i] as u128);
        if r < next {
            return i;
        }
        cum = next;
        i += 1;
    }
    // Unreachable: the cumulative sum of all the weights exceeds the draw.
    proof {
        assert(false);
    }
    n - 1
}

impl PolicyLike for BoltzmannPolicy {
    /// A degenerate weighting falls back to the greedy choice; otherwise the
    /// chosen action provably has a nonzero weight.
    open spec fn selects(self, estimates: Seq<Value>, choice: int) -> bool {
        &&& 0 <= choice < estimates.len()
        &&& (self.degenerate(estimates) ==> is_first_max(estimates, choice))
        &&& (!self.degenerate(estimates) ==> weight_spec(
            estimates[choice].bits as int,
            self.temperature.bits as int,
        ) > 0)
    }

    fn select_action(&self, estimates: &Vec<Value>) -> (choice: usize) {
        if self.temperature.bits == 0 {
            return select_greedy(estimates);
        }
        let ghost t: int = self.temperature.bits as int;
        let n: usize = estimates.len();
        let mut weights: Vec<u64> = Vec::new();
        let mut i: usize = 0;
        while i < n
            invariant
                i <= n,
                n == estimates@.len(),
                n >= 1,
                self.temperature.bits != 0,
                t == self.temperature.bits as int,
                weights@.len() == i,
                forall|j: int|
                    0 <= j < i ==> weights@[j] as int == weight_spec(estimates@[j].bits as int, t),
                forall|j: int| 0 <= j < i ==> weights@[j] <= 0x7fff_ffff_ffff_ffffu64,
                forall|j: int|
                    0 <= j < i ==> fx_div(estimates@[j].bits as int, t) <= 0x15_0000_0000,
            decreases n - i,
        {
            let x: Value = estimates[i].div_sat(self.temperature);
            if x.bits > 0x15_0000_0000i64 {
                // Overflow degeneracy: fall back to the greedy choice.
                proof {
                    assert(fx_div(estimates@[i as int].bits as int, t) > 0x15_0000_0000);
                }
                return select_greedy(estimates);
            }
            let w: u64 = if x.bits < -0x15_0000_0000i64 {
                0u64
            } else {
                exp_bits(x.bits) as u64
            };
            weights.push(w);
            i += 1;
        }
        let mut sum: u128 = 0;
        let mut k: usize = 0;
        while k < n
            invariant
                k <= n,
                n == weights@.len(),
                forall|j: int| 0 <= j < n ==> weights@[j] <= 0x7fff_ffff_ffff_ffffu64,
                sum as int == prefix_sum(weights@, k as int),
                sum as int <= (k as int) * 0x8000_0000_0000_0000,
            decreases n - k,
        {
            proof {
                assert((k as int + 1) * 0x8000_0000_0000_0000 <= 0x1_0000_0000_0000_0000
                    * 0x8000_0000_0000_0000) by (nonlinear_arith)
                    requires
                        k as int + 1 <= 0x1_0000_0000_0000_0000,
                ;
                assert((k as int + 1) * 0x8000_0000_0000_0000 == (k as int)
                    * 0x8000_0000_0000_0000 + 0x8000_0000_0000_0000) by (nonlinear_arith);
            }
            sum = sum + (weights[k] as u128);
            k += 1;
        }
        proof {
            lemma_prefix_eq_weight_sum(weights@, estimates@, t, n as int);
        }
        if sum == 0 {
            return select_greedy(estimates);
        }
        let r: u128 = random_below_u128(sum);
        let choice: usize = select_by_weights(&weights, r);
        proof {
            assert(!self.degenerate(estimates@));
        }
        choice
    }
}

} // verus!
