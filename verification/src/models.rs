use vstd::prelude::*;

verus! {

/// An alert raised during a run, as stored and sent to clients.
#[derive(Debug, Clone)]
pub struct Alert {
    pub id: String,
    pub run_id: String,
    pub timestamp: String,
    pub severity: String,
    pub code: String,
    pub message: String,
    pub stage: String,
}

/// Body of a request that starts a run.
#[derive(Debug, Clone)]
pub struct StartRunRequest {
    pub recipe_id: String,
}

/// Reply to a run that was started.
#[derive(Debug, Clone)]
pub struct StartRunResponse {
    pub run_id: String,
    pub status: String,
}

/// Reply of the health probe.
#[derive(Debug, Clone)]
pub struct HealthResponse {
    pub status: &'static str,
    pub service: &'static str,
    pub uptime_seconds: u64,
}

/// Counters of the service.
#[derive(Debug, Clone)]
pub struct MetricsResponse {
    pub active_run: bool,
    pub total_runs: i64,
    pub total_alerts: i64,
    pub uptime_seconds: u64,
}

/// A reply that carries only a message.
#[derive(Debug, Clone)]
pub struct ApiMessage {
    pub message: String,
}

} // verus!
