use qlearn::boltzmann::{select_by_weights, BoltzmannPolicy};
use qlearn::epsilon_greedy::EpsilonGreedyPolicy;
use qlearn::policy::{select_greedy, Policy, PolicyLike};
use qlearn::qlearn::QLearn;
use qlearn::value::Value;

fn half() -> Value {
    Value::from_ratio(1, 2)
}

#[test]
fn it_works() {
    let mut qlearn = QLearn::new(
        2,
        10,
        Value::from_ratio(9, 10),
        Value::from_ratio(1, 10),
        EpsilonGreedyPolicy::new(Value::from_ratio(1, 10)).into(),
    );
    let environment: Vec<i32> = (0..10).collect();

    let mut total_fitness: i64 = 0;

    for _epoch in 0..20 {
        qlearn.start(0);

        let mut current_state = qlearn.current_state;
        while current_state < 9 {
            let selected_action = qlearn.selected_action;

            let reward = if environment[current_state] % 2 == 0 {
                if selected_action == 0 {
                    Value::from_int(1)
                } else {
                    Value::zero()
                }
            } else {
                if selected_action == 1 {
                    Value::from_int(1)
                } else {
                    Value::zero()
                }
            };

            let next_state = current_state + 1;
            qlearn.step(reward, next_state);
            current_state = next_state;
        }

        total_fitness += qlearn.fitness().to_bits();
    }

    assert!(total_fitness > Value::from_int(10).to_bits());
}

#[test]
fn construction_gives_zero_table_of_exact_shape() {
    let engine = QLearn::new(
        3,
        7,
        Value::from_ratio(1, 2),
        Value::from_ratio(1, 2),
        EpsilonGreedyPolicy::new(Value::zero()).into(),
    );
    assert_eq!(engine.state_space, 7);
    assert_eq!(engine.action_space, 3);
    assert_eq!(engine.table.len(), 7);
    for row in &engine.table {
        assert_eq!(row.len(), 3);
        for v in row {
            assert_eq!(v.bits, 0);
        }
    }
    assert_eq!(engine.current_state, 0);
    assert_eq!(engine.selected_action, 0);
    assert_eq!(engine.fitness.bits, 0);
}

#[test]
fn first_step_writes_learning_rate_times_reward() {
    let lr = Value::from_ratio(9, 10);
    let mut engine = QLearn::new(
        2,
        4,
        lr,
        Value::from_ratio(1, 10),
        EpsilonGreedyPolicy::new(Value::zero()).into(),
    );
    engine.start(0);
    let action = engine.selected_action;
    engine.step(Value::from_int(1), 1);
    // With an all-zero table the best next estimate is zero, so the entry
    // becomes exactly lr * reward; lr = 0.9 is 3865470566 in Q32.32.
    assert_eq!(lr.to_bits(), 3865470566);
    assert_eq!(engine.table[0][action].bits, 3865470566);
    // The cursor advanced and the reward went into the fitness.
    assert_eq!(engine.current_state, 1);
    assert_eq!(engine.fitness.bits, Value::from_int(1).bits);
}

#[test]
fn select_action_mutates_nothing_and_is_deterministic_when_greedy() {
    let mut engine = QLearn::new(
        3,
        2,
        half(),
        half(),
        EpsilonGreedyPolicy::new(Value::zero()).into(),
    );
    engine.table[1][2] = Value::from_int(4);
    let table_before = engine.table.clone();
    let state_before = engine.current_state;
    let action_before = engine.selected_action;
    let first = engine.select_action(1);
    let second = engine.select_action(1);
    assert_eq!(first, 2);
    assert_eq!(second, 2);
    assert_eq!(engine.table, table_before);
    assert_eq!(engine.current_state, state_before);
    assert_eq!(engine.selected_action, action_before);
}

#[test]
fn randomize_table_keeps_shape_and_range() {
    let mut engine = QLearn::new(
        4,
        5,
        half(),
        half(),
        EpsilonGreedyPolicy::new(half()).into(),
    );
    engine.randomize_table();
    assert_eq!(engine.table.len(), 5);
    for row in &engine.table {
        assert_eq!(row.len(), 4);
        for v in row {
            // Every entry is a draw from [-1/2, 1/2).
            assert!(v.bits >= -0x8000_0000 && v.bits < 0x8000_0000);
        }
    }
    assert_eq!(engine.current_state, 0);
    assert_eq!(engine.fitness.bits, 0);
}

#[test]
fn greedy_breaks_ties_by_lowest_index() {
    let row = vec![
        Value::from_int(5),
        Value::from_int(7),
        Value::from_int(7),
        Value::from_int(1),
    ];
    assert_eq!(select_greedy(&row), 1);
    let all_equal = vec![Value::zero(), Value::zero(), Value::zero()];
    assert_eq!(select_greedy(&all_equal), 0);
}

#[test]
fn epsilon_zero_always_greedy() {
    let policy = EpsilonGreedyPolicy::new(Value::zero());
    let row = vec![
        Value::from_int(-3),
        Value::from_int(9),
        Value::from_int(2),
    ];
    for _ in 0..200 {
        assert_eq!(policy.select_action(&row), 1);
    }
}

#[test]
fn epsilon_one_explores_roughly_uniformly() {
    let policy = EpsilonGreedyPolicy::new(Value::from_int(1));
    let row = vec![
        Value::from_int(-3),
        Value::from_int(9),
        Value::from_int(2),
        Value::from_int(2),
    ];
    let mut counts = [0usize; 4];
    for _ in 0..2000 {
        counts[policy.select_action(&row)] += 1;
    }
    // Expected 500 each; far looser bounds than seven standard deviations.
    for c in counts {
        assert!(c > 300, "skewed counts: {:?}", counts);
    }
}

#[test]
fn boltzmann_equal_estimates_roughly_uniform() {
    let policy = BoltzmannPolicy::new(Value::from_int(1));
    let row = vec![
        Value::from_int(2),
        Value::from_int(2),
        Value::from_int(2),
        Value::from_int(2),
    ];
    let mut counts = [0usize; 4];
    for _ in 0..2000 {
        counts[policy.select_action(&row)] += 1;
    }
    for c in counts {
        assert!(c > 300, "skewed counts: {:?}", counts);
    }
}

#[test]
fn boltzmann_zero_temperature_is_greedy() {
    let policy = BoltzmannPolicy::new(Value::zero());
    let row = vec![
        Value::from_int(1),
        Value::from_int(5),
        Value::from_int(3),
    ];
    for _ in 0..200 {
        assert_eq!(policy.select_action(&row), 1);
    }
}

#[test]
fn boltzmann_tiny_temperature_converges_to_greedy() {
    // estimate / temperature overflows the exponential's range, which is the
    // degenerate case: the greedy index wins every time.
    let policy = BoltzmannPolicy::new(Value::from_ratio(1, 1000));
    let row = vec![
        Value::from_int(1),
        Value::from_int(2),
        Value::from_int(5),
        Value::from_int(3),
    ];
    for _ in 0..200 {
        assert_eq!(policy.select_action(&row), 2);
    }
}

#[test]
fn boltzmann_prefers_larger_estimates_but_explores() {
    let policy = BoltzmannPolicy::new(Value::from_int(1));
    let row = vec![Value::zero(), Value::from_int(1)];
    let mut counts = [0usize; 2];
    for _ in 0..2000 {
        counts[policy.select_action(&row)] += 1;
    }
    // Softmax at temperature 1 picks the larger estimate with odds e : 1,
    // so both indices appear, the larger far more often.  A weighting that
    // ignored the exponential of its argument (for instance, one that kept a
    // zero weight for the zero estimate) would never return index 0.
    assert!(counts[0] > 100, "skewed counts: {:?}", counts);
    assert!(counts[1] > counts[0], "skewed counts: {:?}", counts);
}

#[test]
fn cumulative_sampling_picks_first_prefix_beyond_draw() {
    let weights: Vec<u64> = vec![2, 0, 3];
    assert_eq!(select_by_weights(&weights, 0), 0);
    assert_eq!(select_by_weights(&weights, 1), 0);
    assert_eq!(select_by_weights(&weights, 2), 2);
    assert_eq!(select_by_weights(&weights, 3), 2);
    assert_eq!(select_by_weights(&weights, 4), 2);
}

#[test]
fn policy_enum_dispatches_to_both_strategies() {
    let row = vec![Value::from_int(1), Value::from_int(6)];
    let greedy: Policy = EpsilonGreedyPolicy::new(Value::zero()).into();
    assert_eq!(greedy.select_action(&row), 1);
    let cold: Policy = BoltzmannPolicy::new(Value::zero()).into();
    assert_eq!(cold.select_action(&row), 1);
}

#[test]
fn fixed_point_arithmetic_exact_values() {
    assert_eq!(Value::from_ratio(9, 10).bits, 3865470566);
    assert_eq!(Value::from_ratio(-9, 10).bits, -3865470566);
    assert_eq!(Value::from_ratio(1, 10).bits, 429496729);
    assert_eq!(Value::from_int(3).mul_sat(Value::from_int(2)).bits, 6 << 32);
    assert_eq!(
        Value::from_int(-3).mul_sat(Value::from_ratio(1, 2)).bits,
        -(3 << 31)
    );
    assert_eq!(Value::from_int(1).div_sat(Value::from_int(3)).bits, 1431655765);
    assert_eq!(
        Value::from_int(2).add_sat(Value::from_ratio(1, 2)).bits,
        (2i64 << 32) + (1 << 31)
    );
    assert_eq!(
        Value::from_int(2).sub_sat(Value::from_int(5)).bits,
        -(3i64 << 32)
    );
}

#[test]
fn arithmetic_saturates_at_the_representable_range() {
    let top = Value::from_bits(i64::MAX);
    let bottom = Value::from_bits(i64::MIN);
    assert_eq!(top.add_sat(Value::from_int(1)).bits, i64::MAX);
    assert_eq!(bottom.sub_sat(Value::from_int(1)).bits, i64::MIN);
    assert_eq!(top.mul_sat(Value::from_int(2)).bits, i64::MAX);
    assert_eq!(bottom.mul_sat(Value::from_int(2)).bits, i64::MIN);
    assert_eq!(top.mul_sat(Value::from_int(-2)).bits, i64::MIN);
    assert_eq!(top.div_sat(Value::from_ratio(1, 2)).bits, i64::MAX);
}

#[test]
fn bellman_update_uses_discounted_best_next() {
    let mut engine = QLearn::new(
        2,
        2,
        half(),
        half(),
        EpsilonGreedyPolicy::new(Value::zero()).into(),
    );
    engine.start(0);
    // All zeros: the pending action is index 0.
    assert_eq!(engine.selected_action, 0);
    engine.step(Value::from_int(1), 1);
    // target = 1 + 0.5 * 0 = 1; the entry moves half the way: 0.5.
    assert_eq!(engine.table[0][0].bits, 1i64 << 31);
    engine.step(Value::zero(), 0);
    // best over state 0 is now 0.5; target = 0 + 0.5 * 0.5 = 0.25;
    // the entry for (1, 0) moves half the way: 0.125.
    assert_eq!(engine.table[1][0].bits, 1i64 << 29);
}

#[test]
fn step_updates_the_action_chosen_on_entering_the_state() {
    let mut engine = QLearn::new(
        2,
        2,
        half(),
        half(),
        EpsilonGreedyPolicy::new(Value::zero()).into(),
    );
    engine.table[0][1] = Value::from_int(1);
    engine.start(0);
    // Greedy selection on entering state 0 picks index 1.
    assert_eq!(engine.selected_action, 1);
    engine.step(Value::from_int(2), 1);
    // The update lands on the pending pair (0, 1), not on a fresh choice:
    // target = 2 + 0.5 * 0 = 2; entry = 1 + 0.5 * (2 - 1) = 1.5.
    assert_eq!(engine.table[0][1].bits, (1i64 << 32) + (1 << 31));
    assert_eq!(engine.table[0][0].bits, 0);
}

#[test]
fn fitness_accumulates_rewards() {
    let mut engine = QLearn::new(
        2,
        3,
        half(),
        half(),
        EpsilonGreedyPolicy::new(Value::zero()).into(),
    );
    engine.start(0);
    engine.step(Value::from_int(1), 1);
    engine.step(Value::from_ratio(1, 2), 2);
    assert_eq!(engine.fitness().to_bits(), (1i64 << 32) + (1 << 31));
    // A new episode resets the accumulator.
    engine.start(0);
    assert_eq!(engine.fitness().to_bits(), 0);
}
