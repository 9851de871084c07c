//! Tabular Q-learning: a table of fixed-point value estimates for
//! (state, action) pairs, updated online from observed rewards, with a
//! pluggable exploration policy (epsilon-greedy or Boltzmann) choosing
//! actions.

pub mod boltzmann;
pub mod epsilon_greedy;
pub mod policy;
pub mod qlearn;
mod rng;
pub mod value;

pub use value::Value;
