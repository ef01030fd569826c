use vstd::prelude::*;

use crate::models::{Alert, ApiMessage, HealthResponse, StartRunResponse};
use crate::simulator::stage::same_text;

verus! {

/// HTTP status of a request for something that does not exist.
pub const NOT_FOUND: u16 = 404;

/// HTTP status of a request that conflicts with the current state.
pub const CONFLICT: u16 = 409;

/// HTTP status of a failure inside the service.
pub const INTERNAL_SERVER_ERROR: u16 = 500;

/// An error reply of the API: an HTTP status code and a message.
#[derive(Debug)]
pub struct ApiError {
    pub status: u16,
    pub message: String,
}

impl ApiError {
    pub fn not_found(message: &str) -> (error: Self)
        ensures
            error.status == NOT_FOUND,
            error.message@ == message@,
    {
        ApiError { status: NOT_FOUND, message: message.to_owned() }
    }

    pub fn conflict(message: &str) -> (error: Self)
        ensures
            error.status == CONFLICT,
            error.message@ == message@,
    {
        ApiError { status: CONFLICT, message: message.to_owned() }
    }

    pub fn internal(message: &str) -> (error: Self)
        ensures
            error.status == INTERNAL_SERVER_ERROR,
            error.message@ == message@,
    {
        ApiError { status: INTERNAL_SERVER_ERROR, message: message.to_owned() }
    }
}

/// The health reply after `uptime_seconds` of service.
pub fn health_response(uptime_seconds: u64) -> (reply: HealthResponse)
    ensures
        reply.status@ == "ok"@,
        reply.service@ == "run_scope-backend"@,
        reply.uptime_seconds == uptime_seconds,
{
    HealthResponse { status: "ok", service: "run_scope-backend", uptime_seconds }
}

/// Whether some recipe of `ids` has the identifier `requested`.
pub open spec fn has_recipe(ids: Seq<String>, requested: Seq<char>) -> bool {
    exists|i: int| 0 <= i < ids.len() && (#[trigger] ids[i])@ == requested
}

/// Whether the status of the active run, if there is one, is "running".
pub open spec fn run_is_running(active_status: Option<&str>) -> bool {
    match active_status {
        Some(status) => status@ == "running"@,
        None => false,
    }
}

/// Decides a request to start a run of recipe `requested`, given the
/// identifiers of the known recipes and the status of the active run. An
/// unknown recipe is refused with 404 "Recipe not found"; otherwise, while a
/// run is running, the request is refused with 409 "A run is already active";
/// otherwise the result is the index of the first recipe with that identifier.
pub fn plan_start_run(recipe_ids: &Vec<String>, requested: &str, active_status: Option<&str>) -> (plan:
    Result<usize, ApiError>)
    ensures
        match plan {
            Ok(index) => {
                &&& index < recipe_ids@.len()
                &&& recipe_ids@[index as int]@ == requested@
                &&& forall|j: int| 0 <= j < index ==> (#[trigger] recipe_ids@[j])@ != requested@
                &&& !run_is_running(active_status)
            },
            Err(error) => if !has_recipe(recipe_ids@, requested@) {
                error.status == NOT_FOUND && error.message@ == "Recipe not found"@
            } else {
                &&& run_is_running(active_status)
                &&& error.status == CONFLICT
                &&& error.message@ == "A run is already active"@
            },
        },
        plan is Ok <==> has_recipe(recipe_ids@, requested@) && !run_is_running(active_status),
{
    let found = first_recipe_index(recipe_ids, requested);
    if found.is_none() {
        return Err(ApiError::not_found("Recipe not found"));
    }
    let running = match active_status {
        Some(status) => same_text(status, "running"),
        None => false,
    };
    if running {
        Err(ApiError::conflict("A run is already active"))
    } else {
        Ok(found.unwrap())
    }
}

/// The index of the first recipe with identifier `requested`, if any.
fn first_recipe_index(recipe_ids: &Vec<String>, requested: &str) -> (found: Option<usize>)
    ensures
        match found {
            Some(index) => {
                &&& index < recipe_ids@.len()
                &&& recipe_ids@[index as int]@ == requested@
                &&& forall|j: int| 0 <= j < index ==> (#[trigger] recipe_ids@[j])@ != requested@
            },
            None => !has_recipe(recipe_ids@, requested@),
        },
{
    let mut i: usize = 0;
    while i < recipe_ids.len()
        invariant
            i <= recipe_ids@.len(),
            forall|j: int| 0 <= j < i ==> (#[trigger] recipe_ids@[j])@ != requested@,
        decreases recipe_ids@.len() - i,
    {
        if same_text(recipe_ids[i].as_str(), requested) {
            return Some(i);
        }
        i = i + 1;
    }
    None
}

/// The stage that a freshly started run reports: the recipe's first stage, or
/// "Idle" for a recipe without stages.
pub fn initial_stage_name(stage_names: &Vec<String>) -> (name: String)
    ensures
        name@ == (if stage_names@.len() > 0 {
            stage_names@[0]@
        } else {
            "Idle"@
        }),
{
    if stage_names.len() > 0 {
        stage_names[0].clone()
    } else {
        "Idle".to_owned()
    }
}

/// The reply to a run that was started.
pub fn start_run_response(run_id: String) -> (reply: StartRunResponse)
    ensures
        reply.run_id@ == run_id@,
        reply.status@ == "running"@,
{
    StartRunResponse { run_id, status: "running".to_owned() }
}

/// Decides which run an abort request targets: it succeeds only when the
/// active run has the identifier `run_id`, and is refused with 404 "Active run
/// not found" otherwise.
pub fn locate_abort_target(active_run_id: Option<&str>, run_id: &str) -> (located: Result<
    (),
    ApiError,
>)
    ensures
        located is Ok <==> (active_run_id matches Some(id) && id@ == run_id@),
        located matches Err(error) ==> error.status == NOT_FOUND && error.message@
            == "Active run not found"@,
{
    let matches = match active_run_id {
        Some(id) => same_text(id, run_id),
        None => false,
    };
    if matches {
        Ok(())
    } else {
        Err(ApiError::not_found("Active run not found"))
    }
}

/// The reply to an abort request whose signal was, or was not, delivered to
/// the run: "Abort requested", or 500 "Run control channel is closed".
pub fn abort_reply(delivered: bool) -> (reply: Result<ApiMessage, ApiError>)
    ensures
        reply is Ok <==> delivered,
        reply matches Ok(message) ==> message.message@ == "Abort requested"@,
        reply matches Err(error) ==> error.status == INTERNAL_SERVER_ERROR && error.message@
            == "Run control channel is closed"@,
{
    if delivered {
        Ok(ApiMessage { message: "Abort requested".to_owned() })
    } else {
        Err(ApiError::internal("Run control channel is closed"))
    }
}

/// Whether some alert of `alerts` is critical.
pub open spec fn any_critical(alerts: Seq<Alert>) -> bool {
    exists|i: int| 0 <= i < alerts.len() && (#[trigger] alerts[i]).severity@ == "critical"@
}

/// A tick is critical exactly when some alert of it, at any position, is
/// critical: one critical alert anywhere among warnings makes the tick
/// critical, and a tick of warnings only is not.
pub proof fn lemma_critical_anywhere(alerts: Seq<Alert>, i: int)
    ensures
        0 <= i < alerts.len() && alerts[i].severity@ == "critical"@ ==> any_critical(alerts),
        (forall|j: int| 0 <= j < alerts.len() ==> (#[trigger] alerts[j]).severity@ != "critical"@)
            ==> !any_critical(alerts),
{
}

/// Whether a tick raised a critical alert, which faults the run.
pub fn has_critical_alert(alerts: &Vec<Alert>) -> (critical: bool)
    ensures
        critical == any_critical(alerts@),
        critical <==> exists|i: int|
            0 <= i < alerts@.len() && (#[trigger] alerts@[i]).severity@ == "critical"@,
{
    let mut i: usize = 0;
    while i < alerts.len()
        invariant
            i <= alerts@.len(),
            forall|j: int| 0 <= j < i ==> (#[trigger] alerts@[j]).severity@ != "critical"@,
        decreases alerts@.len() - i,
    {
        if same_text(alerts[i].severity.as_str(), "critical") {
            assert(alerts@[i as int].severity@ == "critical"@);
            return true;
        }
        i = i + 1;
    }
    false
}

/// The final status of a run after a tick, if the tick ends it: a critical
/// alert faults the run even on its last tick; otherwise a completed recipe
/// completes it; otherwise the run goes on.
pub fn run_outcome(critical: bool, complete: bool) -> (status: Option<&'static str>)
    ensures
        match status {
            Some(s) => if critical {
                s@ == "faulted"@
            } else {
                complete && s@ == "complete"@
            },
            None => !critical && !complete,
        },
{
    if critical {
        Some("faulted")
    } else if complete {
        Some("complete")
    } else {
        None
    }
}

/// How a run ends before its recipe completes.
#[derive(Debug, Clone, Copy, PartialEq, Eq, Structural)]
pub enum RunEnd {
    /// A client asked for the run to stop.
    Aborted,
    /// A tick raised a critical alert.
    Faulted,
}

/// The status and stage that the final run state of an early end reports.
#[derive(Debug, Clone)]
pub struct EndLabels {
    pub status: String,
    pub stage: String,
}

/// The labels of an early end: status "aborted" and stage "Aborted" for an
/// aborted run, status "faulted" and stage "Faulted" for a faulted one.
pub fn end_labels(end: RunEnd) -> (labels: EndLabels)
    ensures
        labels.status@ == (match end {
            RunEnd::Aborted => "aborted"@,
            RunEnd::Faulted => "faulted"@,
        }),
        labels.stage@ == (match end {
            RunEnd::Aborted => "Aborted"@,
            RunEnd::Faulted => "Faulted"@,
        }),
{
    match end {
        RunEnd::Aborted => EndLabels { status: "aborted".to_owned(), stage: "Aborted".to_owned() },
        RunEnd::Faulted => EndLabels { status: "faulted".to_owned(), stage: "Faulted".to_owned() },
    }
}

} // verus!
