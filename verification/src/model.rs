//! The entities the remote API delivers, and the outcomes of fetching them.
//!
//! A fetch is performed outside the library; its outcome is handed in as one
//! of the enums below, so every decision taken on an outcome is verified for
//! every value an outcome can have.

use vstd::prelude::*;

verus! {

/// One CI/CD workflow definition, as the workflow-list endpoint delivers it.
/// The lifecycle `state` is kept as text: the source may supply values
/// outside the known set, and those must be tolerated.
#[derive(Debug)]
pub struct Workflow {
    pub id: u64,
    pub name: String,
    pub state: String,
    pub created_at: String,
    pub updated_at: String,
}

/// The workflow-list payload: a count and the workflows in delivery order.
#[derive(Debug)]
pub struct WorkflowList {
    pub total_count: i32,
    pub workflows: Vec<Workflow>,
}

/// One execution of a workflow. A missing `conclusion` means the run has
/// not concluded yet.
#[derive(Debug)]
pub struct WorkflowRun {
    pub created_at: String,
    pub status: String,
    pub conclusion: Option<String>,
}

/// The run-list payload; only the first (most recent) entry is consumed.
#[derive(Debug)]
pub struct WorkflowRunList {
    pub total_count: i32,
    pub workflow_runs: Vec<WorkflowRun>,
}

/// What came back from a per-workflow run-list request: a decoded payload,
/// a non-success HTTP status, or a transport or decode failure with its
/// message.
#[derive(Debug)]
pub enum RunsFetchOutcome {
    Payload(WorkflowRunList),
    HttpFailure(u16),
    Failure(String),
}

/// What came back from the top-level workflow-list request. Transport and
/// decode failures terminate the caller before any decision is taken, so
/// they do not appear here.
#[derive(Debug)]
pub enum ListFetchOutcome {
    Payload(WorkflowList),
    HttpFailure(u16),
}

/// The reportable last-run state of one workflow: the most recent run's
/// creation timestamp, a history with no runs at all, or a failure message.
/// The three stay distinguishable all the way to the rendered text.
#[derive(Debug)]
pub enum RunFetchResult {
    LastRun(String),
    NeverRun,
    Failed(String),
}

} // verus!
