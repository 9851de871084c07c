use vstd::prelude::*;

use crate::policy::{Policy, PolicyLike};
use crate::rng::random_below_u64;
use crate::value::{fx_add, fx_mul, fx_sub, sat64, Value};

verus! {

/// The greatest bit value among the first `n` estimates of a row; only the
/// value matters, ties are irrelevant.
pub open spec fn row_max_bits(row: Seq<Value>, n: int) -> int
    recommends
        1 <= n <= row.len(),
    decreases n,
{
    if n <= 1 {
        row[0].bits as int
    } else if row[n - 1].bits as int > row_max_bits(row, n - 1) {
        row[n - 1].bits as int
    } else {
        row_max_bits(row, n - 1)
    }
}

/// The one-step Q-learning update: move the estimate `q` toward the Bellman
/// target `reward + discount * best_next` by the fraction `lr` of the error.
pub open spec fn bellman_next(q: int, reward: int, best_next: int, lr: int, df: int) -> int {
    fx_add(q, fx_mul(lr, fx_sub(fx_add(reward, fx_mul(df, best_next)), q)))
}

/// A tabular Q-learning engine: the table of value estimates, the episode
/// cursor, and the exploration policy chosen at construction.
pub struct QLearn {
    pub table: Vec<Vec<Value>>,
    pub action_space: usize,
    pub state_space: usize,
    pub learning_rate: Value,
    pub discount_factor: Value,
    pub policy: Policy,
    pub current_state: usize,
    pub selected_action: usize,
    pub fitness: Value,
}

impl QLearn {
    /// The structural invariant: both spaces are positive and fixed, the
    /// table has exactly that shape, and the cursor is in range.
    pub open spec fn wf(self) -> bool {
        &&& self.state_space >= 1
        &&& self.action_space >= 1
        &&& self.table@.len() == self.state_space
        &&& (forall|s: int|
            0 <= s < self.table@.len() ==> (#[trigger] self.table@[s])@.len()
                == self.action_space)
        &&& self.current_state < self.state_space
        &&& self.selected_action < self.action_space
    }

    /// Construct an engine over `state_space x action_space` with an all-zero
    /// table and the cursor at the origin.
    pub fn new(
        action_space: usize,
        state_space: usize,
        learning_rate: Value,
        discount_factor: Value,
        policy: Policy,
    ) -> (r: QLearn)
        requires
            action_space >= 1,
            state_space >= 1,
        ensures
            r.wf(),
            r.action_space == action_space,
            r.state_space == state_space,
            r.learning_rate == learning_rate,
            r.discount_factor == discount_factor,
            r.policy == policy,
            r.current_state == 0,
            r.selected_action == 0,
            r.fitness.bits == 0,
            forall|s: int, a: int|
                0 <= s < state_space && 0 <= a < action_space ==> (#[trigger] r.table@[s]@[a]).bits
                    == 0,
    {
        let mut table: Vec<Vec<Value>> = Vec::new();
        let mut s: usize = 0;
        while s < state_space
            invariant
                s <= state_space,
                table@.len() == s,
                forall|i: int| 0 <= i < s ==> (#[trigger] table@[i])@.len() == action_space,
                forall|i: int, a: int|
                    0 <= i < s && 0 <= a < action_space ==> (#[trigger] table@[i]@[a]).bits == 0,
            decreases state_space - s,
        {
            let mut row: Vec<Value> = Vec::new();
            let mut a: usize = 0;
            while a < action_space
                invariant
                    a <= action_space,
                    row@.len() == a,
                    forall|j: int| 0 <= j < a ==> (#[trigger] row@[j]).bits == 0,
                decreases action_space - a,
            {
                row.push(Value { bits: 0 });
                a += 1;
            }
            table.push(row);
            s += 1;
        }
        QLearn {
            table,
            action_space,
            state_space,
            learning_rate,
            discount_factor,
            policy,
            current_state: 0,
            selected_action: 0,
            fitness: Value { bits: 0 },
        }
    }

    /// Overwrite every table entry with an independent uniform draw from
    /// [-1/2, 1/2); nothing else changes.
    pub fn randomize_table(&mut self)
        requires
            old(self).wf(),
        ensures
            final(self).wf(),
            final(self).action_space == old(self).action_space,
            final(self).state_space == old(self).state_space,
            final(self).learning_rate == old(self).learning_rate,
            final(self).discount_factor == old(self).discount_factor,
            final(self).policy == old(self).policy,
            final(self).current_state == old(self).current_state,
            final(self).selected_action == old(self).selected_action,
            final(self).fitness == old(self).fitness,
            forall|s: int, a: int|
                0 <= s < final(self).state_space && 0 <= a < final(self).action_space
                    ==> -0x8000_0000 <= (#[trigger] final(self).table@[s]@[a]).bits < 0x8000_0000,
    {
        let mut s: usize = 0;
        while s < self.state_space
            invariant
                s <= self.state_space,
                self.wf(),
                self.action_space == old(self).action_space,
                self.state_space == old(self).state_space,
                self.learning_rate == old(self).learning_rate,
                self.discount_factor == old(self).discount_factor,
                self.policy == old(self).policy,
                self.current_state == old(self).current_state,
                self.selected_action == old(self).selected_action,
                self.fitness == old(self).fitness,
                forall|i: int, a: int|
                    0 <= i < s && 0 <= a < self.action_space ==> -0x8000_0000 <= (#[trigger] self
                        .table@[i]@[a]).bits < 0x8000_0000,
            decreases self.state_space - s,
        {
            let mut a: usize = 0;
            while a < self.action_space
                invariant
                    a <= self.action_space,
                    s < self.state_space,
                    self.wf(),
                    self.action_space == old(self).action_space,
                    self.state_space == old(self).state_space,
                    self.learning_rate == old(self).learning_rate,
                    self.discount_factor == old(self).discount_factor,
                    self.policy == old(self).policy,
                    self.current_state == old(self).current_state,
                    self.selected_action == old(self).selected_action,
                    self.fitness == old(self).fitness,
                    forall|i: int, j: int|
                        0 <= i < s && 0 <= j < self.action_space ==> -0x8000_0000 <= (
                        #[trigger] self.table@[i]@[j]).bits < 0x8000_0000,
                    forall|j: int|
                        0 <= j < a ==> -0x8000_0000 <= (#[trigger] self.table@[s as int]@[j]).bits
                            < 0x8000_0000,
                decreases self.action_space - a,
            {
                let r: u64 = random_below_u64(0x1_0000_0000u64);
                let bits: i64 = (r as i64) - 0x8000_0000i64;
                self.table[s][a] = Value { bits };
                a += 1;
            }
            s += 1;
        }
    }

    /// Begin an episode at `state`: reset the cursor there, select the
    /// pending action for it, and zero the fitness accumulator.  The table is
    /// untouched.
    pub fn start(&mut self, state: usize)
        requires
            old(self).wf(),
            state < old(self).state_space,
        ensures
            final(self).wf(),
            final(self).table == old(self).table,
            final(self).action_space == old(self).action_space,
            final(self).state_space == old(self).state_space,
            final(self).learning_rate == old(self).learning_rate,
            final(self).discount_factor == old(self).discount_factor,
            final(self).policy == old(self).policy,
            final(self).current_state == state,
            final(self).fitness.bits == 0,
            final(self).selected_action < old(self).action_space,
            final(self).policy.selects(
                old(self).table@[state as int]@,
                final(self).selected_action as int,
            ),
    {
        self.current_state = state;
        self.selected_action = self.policy.select_action(&self.table[state]);
        self.fitness = Value { bits: 0 };
    }

    /// One Q-learning step: update the estimate of the pending
    /// (state, action) pair toward `reward + discount * best_next`, advance
    /// the cursor to `next_state`, select the next pending action there, and
    /// accumulate the reward into the fitness.
    pub fn step(&mut self, reward: Value, next_state: usize)
        requires
            old(self).wf(),
            next_state < old(self).state_space,
        ensures
            final(self).wf(),
            final(self).action_space == old(self).action_space,
            final(self).state_space == old(self).state_space,
            final(self).learning_rate == old(self).learning_rate,
            final(self).discount_factor == old(self).discount_factor,
            final(self).policy == old(self).policy,
            final(self).table@.len() == old(self).table@.len(),
            forall|s: int|
                0 <= s < old(self).table@.len() && s != old(self).current_state ==> (
                #[trigger] final(self).table@[s])@ == old(self).table@[s]@,
            forall|a: int|
                0 <= a < old(self).action_space && a != old(self).selected_action ==> (
                #[trigger] final(self).table@[old(self).current_state as int]@[a]) == old(
                    self,
                ).table@[old(self).current_state as int]@[a],
            final(self).table@[old(self).current_state as int]@[old(self).selected_action as int].bits
                as int == bellman_next(
                old(self).table@[old(self).current_state as int]@[old(
                    self,
                ).selected_action as int].bits as int,
                reward.bits as int,
                row_max_bits(old(self).table@[next_state as int]@, old(self).action_space as int),
                old(self).learning_rate.bits as int,
                old(self).discount_factor.bits as int,
            ),
            final(self).current_state == next_state,
            final(self).selected_action < old(self).action_space,
            final(self).policy.selects(
                final(self).table@[next_state as int]@,
                final(self).selected_action as int,
            ),
            final(self).fitness.bits as int == fx_add(
                old(self).fitness.bits as int,
                reward.bits as int,
            ),
    {
        let mut best_next: Value = self.table[next_state][0];
        let mut a: usize = 1;
        while a < self.action_space
            invariant
                *self == *old(self),
                self.wf(),
                next_state < self.state_space,
                1 <= a <= self.action_space,
                best_next.bits as int == row_max_bits(self.table@[next_state as int]@, a as int),
            decreases self.action_space - a,
        {
            if self.table[next_state][a].bits > best_next.bits {
                best_next = self.table[next_state][a];
            }
            a += 1;
        }
        let cs: usize = self.current_state;
        let sa: usize = self.selected_action;
        let target: Value = reward.add_sat(self.discount_factor.mul_sat(best_next));
        let q: Value = self.table[cs][sa];
        let delta: Value = target.sub_sat(q);
        let newq: Value = q.add_sat(self.learning_rate.mul_sat(delta));
        self.table[cs][sa] = newq;
        self.current_state = next_state;
        self.selected_action = self.policy.select_action(&self.table[next_state]);
        self.fitness = self.fitness.add_sat(reward);
    }

    /// Delegate to the policy on the estimate row of `state` without touching
    /// the cursor or the table; `&self` makes the absence of mutation a type
    /// fact.
    pub fn select_action(&self, state: usize) -> (choice: usize)
        requires
            self.wf(),
            state < self.state_space,
        ensures
            choice < self.action_space,
            self.policy.selects(self.table@[state as int]@, choice as int),
    {
        self.policy.select_action(&self.table[state])
    }

    /// The reward accumulated since the episode started.
    pub fn fitness(&self) -> (r: Value)
        ensures
            r == self.fitness,
    {
        self.fitness
    }
}

/// Every estimate of an all-zero row is zero, so its maximum is too.
pub proof fn lemma_row_max_zero(row: Seq<Value>, n: int)
    requires
        1 <= n <= row.len(),
        forall|j: int| 0 <= j < row.len() ==> (#[trigger] row[j]).bits == 0,
    ensures
        row_max_bits(row, n) == 0,
    decreases n,
{
    if n > 1 {
        lemma_row_max_zero(row, n - 1);
    }
}

/// The first update out of a freshly constructed engine: with an all-zero
/// table the best next estimate is zero, so the updated entry is exactly the
/// learning rate times the reward.
pub proof fn lemma_first_step_value(row: Seq<Value>, reward: int, lr: int, df: int)
    requires
        1 <= row.len(),
        forall|j: int| 0 <= j < row.len() ==> (#[trigger] row[j]).bits == 0,
        -0x8000_0000_0000_0000 <= reward <= 0x7fff_ffff_ffff_ffff,
    ensures
        bellman_next(0, reward, row_max_bits(row, row.len() as int), lr, df) == fx_mul(lr, reward),
{
    lemma_row_max_zero(row, row.len() as int);
    assert(fx_mul(df, 0) == 0);
    assert(fx_add(reward, 0) == reward);
    assert(fx_sub(reward, 0) == reward);
    assert(-0x8000_0000_0000_0000 <= fx_mul(lr, reward) <= 0x7fff_ffff_ffff_ffff);
    assert(fx_add(0, fx_mul(lr, reward)) == fx_mul(lr, reward));
}

} // verus!
