//! The resources that the service lists, as the session holds them.

use vstd::prelude::*;

verus! {

/// A project as the service lists it.
#[derive(Clone, Debug, PartialEq, Eq)]
pub struct Project {
    pub id: i64,
    pub name: String,
    pub git_url: Option<String>,
    pub base_branch: Option<String>,
    pub updated_at: Option<String>,
}

/// One run of a protocol inside a project.
#[derive(Clone, Debug, PartialEq, Eq)]
pub struct ProtocolRun {
    pub id: i64,
    pub project_id: i64,
    pub protocol_name: String,
    pub status: Option<String>,
    pub base_branch: Option<String>,
    pub description: Option<String>,
    pub updated_at: Option<String>,
}

/// One step of a protocol run.
#[derive(Clone, Debug, PartialEq, Eq)]
pub struct StepRun {
    pub id: i64,
    pub protocol_run_id: i64,
    pub step_index: i32,
    pub step_name: String,
    pub step_type: Option<String>,
    pub status: String,
    pub retries: i32,
    pub summary: Option<String>,
}

/// An event recorded by the service. `metadata` is the JSON document that came
/// with it, as text.
#[derive(Clone, Debug, PartialEq, Eq)]
pub struct Event {
    pub id: i64,
    pub protocol_run_id: i64,
    pub step_run_id: Option<i64>,
    pub event_type: String,
    pub message: String,
    pub created_at: String,
    pub metadata: Option<String>,
    pub protocol_name: Option<String>,
    pub project_id: Option<i64>,
    pub project_name: Option<String>,
}

/// A job of the service's work queue. The instants are milliseconds since the
/// Unix epoch (UTC); `payload` is the job's JSON payload, as text.
#[derive(Clone, Debug, PartialEq, Eq)]
pub struct QueueJob {
    pub job_id: Option<String>,
    pub status: Option<String>,
    pub enqueued_at: Option<i64>,
    pub started_at: Option<i64>,
    pub ended_at: Option<i64>,
    pub payload: Option<String>,
}

/// The branches of a project's repository.
#[derive(Clone, Debug, PartialEq, Eq)]
pub struct BranchList {
    pub branches: Vec<String>,
}

} // verus!
