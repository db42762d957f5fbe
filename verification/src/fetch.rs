//! Request building and fetch-outcome decisions.
//!
//! The library does not issue requests itself: it builds the URLs and the
//! identification header value, and it decides what each outcome means —
//! which run timestamp to report, when a missing history is fine, and when
//! the whole report must be abandoned.

use crate::decimal::{dec_rep, push_u64};
use crate::model::{ListFetchOutcome, RunFetchResult, RunsFetchOutcome, WorkflowList};
use vstd::prelude::*;
use vstd::string::StringExecFns;

verus! {

pub open spec fn workflows_url_text(owner: Seq<char>, repo: Seq<char>) -> Seq<char> {
    "https://api.github.com/repos/"@ + owner + "/"@ + repo + "/actions/workflows"@
}

pub open spec fn runs_url_text(owner: Seq<char>, repo: Seq<char>, workflow_id: int) -> Seq<
    char,
> {
    "https://api.github.com/repos/"@ + owner + "/"@ + repo + "/actions/workflows/"@ + dec_rep(
        workflow_id as nat,
    ) + "/runs?per_page=1"@
}

pub open spec fn runs_warning_text(workflow_id: int, status: int) -> Seq<char> {
    "⚠️  Failed to fetch runs for workflow "@ + dec_rep(workflow_id as nat) + ": "@ + dec_rep(
        status as nat,
    )
}

pub open spec fn list_failure_text(status: int) -> Seq<char> {
    "❌ Request failed with status: "@ + dec_rep(status as nat)
}

pub open spec fn fetch_banner_text(owner: Seq<char>, repo: Seq<char>) -> Seq<char> {
    "🔍 Fetching workflows for "@ + owner + "/"@ + repo + "...\n"@
}

/// The workflow-list endpoint for one repository.
pub fn workflows_url(owner: &str, repo: &str) -> (r: String)
    ensures
        r@ == workflows_url_text(owner@, repo@),
{
    let mut s = String::from_str("https://api.github.com/repos/");
    s.append(owner);
    s.append("/");
    s.append(repo);
    s.append("/actions/workflows");
    proof {
        assert(s@ =~= workflows_url_text(owner@, repo@));
    }
    s
}

/// The run-list endpoint for one workflow, asking for the single most
/// recent run.
pub fn runs_url(owner: &str, repo: &str, workflow_id: u64) -> (r: String)
    ensures
        r@ == runs_url_text(owner@, repo@, workflow_id as int),
{
    let mut s = String::from_str("https://api.github.com/repos/");
    s.append(owner);
    s.append("/");
    s.append(repo);
    s.append("/actions/workflows/");
    push_u64(&mut s, workflow_id);
    s.append("/runs?per_page=1");
    proof {
        assert(s@ =~= runs_url_text(owner@, repo@, workflow_id as int));
    }
    s
}

/// The fixed identification header value every request carries.
pub fn user_agent() -> (r: String)
    ensures
        r@ == "MyApp/1.0"@,
{
    String::from_str("MyApp/1.0")
}

/// The banner printed before the top-level fetch.
pub fn fetch_banner(owner: &str, repo: &str) -> (r: String)
    ensures
        r@ == fetch_banner_text(owner@, repo@),
{
    let mut s = String::from_str("🔍 Fetching workflows for ");
    s.append(owner);
    s.append("/");
    s.append(repo);
    s.append("...\n");
    proof {
        assert(s@ =~= fetch_banner_text(owner@, repo@));
    }
    s
}

/// What a run-list outcome means for the report: the most recent run's
/// creation timestamp when there is one; "never run" when the history is
/// empty, and also — with a warning — when the status was non-success, so
/// an inaccessible history degrades gracefully instead of aborting; a
/// failure display when the fetch itself failed.
pub fn evaluate_runs_outcome(workflow_id: u64, outcome: RunsFetchOutcome) -> (r: (
    RunFetchResult,
    Option<String>,
))
    ensures
        match outcome {
            RunsFetchOutcome::Payload(l) => {
                if l.workflow_runs@.len() > 0 {
                    &&& r.0 matches RunFetchResult::LastRun(ts)
                    &&& (r.0 matches RunFetchResult::LastRun(ts) ==> ts@
                        == l.workflow_runs@[0].created_at@)
                    &&& r.1 is None
                } else {
                    r.0 is NeverRun && r.1 is None
                }
            },
            RunsFetchOutcome::HttpFailure(st) => {
                &&& r.0 is NeverRun
                &&& r.1 matches Some(w)
                &&& (r.1 matches Some(w) ==> w@ == runs_warning_text(
                    workflow_id as int,
                    st as int,
                ))
            },
            RunsFetchOutcome::Failure(msg) => {
                &&& r.0 matches RunFetchResult::Failed(m)
                &&& (r.0 matches RunFetchResult::Failed(m) ==> m@ == msg@)
                &&& r.1 is None
            },
        },
{
    match outcome {
        RunsFetchOutcome::Payload(list) => {
            if list.workflow_runs.len() > 0 {
                let first = &list.workflow_runs[0];
                (RunFetchResult::LastRun(first.created_at.clone()), None)
            } else {
                (RunFetchResult::NeverRun, None)
            }
        },
        RunsFetchOutcome::HttpFailure(status) => {
            let mut w = String::from_str("⚠️  Failed to fetch runs for workflow ");
            push_u64(&mut w, workflow_id);
            w.append(": ");
            push_u64(&mut w, status as u64);
            proof {
                assert(w@ =~= runs_warning_text(workflow_id as int, status as int));
            }
            (RunFetchResult::NeverRun, Some(w))
        },
        RunsFetchOutcome::Failure(message) => (RunFetchResult::Failed(message), None),
    }
}

/// What the top-level outcome means: the list to render, or — on a
/// non-success status — the message to print before terminating with no
/// report at all.
pub fn decide_list(outcome: ListFetchOutcome) -> (r: Result<WorkflowList, String>)
    ensures
        outcome matches ListFetchOutcome::Payload(l) ==> r matches Ok(x) && x == l,
        outcome matches ListFetchOutcome::HttpFailure(st) ==> r matches Err(m) && m@
            == list_failure_text(st as int),
{
    match outcome {
        ListFetchOutcome::Payload(list) => Ok(list),
        ListFetchOutcome::HttpFailure(status) => {
            let mut m = String::from_str("❌ Request failed with status: ");
            push_u64(&mut m, status as u64);
            proof {
                assert(m@ =~= list_failure_text(status as int));
            }
            Err(m)
        },
    }
}

} // verus!
