//! Verified core of the run-scope backend: the alert rules of the anomaly
//! detector, the stage bookkeeping of the simulator, the run-control rules of
//! the HTTP API and the wire models that carry no measurements.

pub mod api;
pub mod ids;
pub mod models;
pub mod simulator;
