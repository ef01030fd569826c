//! Decision logic of the process simulator.

pub mod anomaly;
pub mod engine;
pub mod stage;
