use workflow_report::fetch::{
    decide_list, evaluate_runs_outcome, fetch_banner, runs_url, user_agent, workflows_url,
};
use workflow_report::localtime::LocalFields;
use workflow_report::model::{
    ListFetchOutcome, RunFetchResult, RunsFetchOutcome, Workflow, WorkflowList, WorkflowRun,
    WorkflowRunList,
};
use workflow_report::render::{
    is_active, render_header, render_report, render_workflow_block, render_workflow_block_with,
    state_marker,
};

const SEPARATOR: &str = "━━━━━━━━━━━━━━━━━━━━━━━━━━━━━━━━━━━━━━━━━━━━━━━━━━━━";

fn workflow(id: u64, name: &str, state: &str, created_at: &str, updated_at: &str) -> Workflow {
    Workflow {
        id,
        name: name.to_string(),
        state: state.to_string(),
        created_at: created_at.to_string(),
        updated_at: updated_at.to_string(),
    }
}

fn run_list(runs: Vec<WorkflowRun>) -> WorkflowRunList {
    WorkflowRunList { total_count: runs.len() as i32, workflow_runs: runs }
}

fn a_run(created_at: &str) -> WorkflowRun {
    WorkflowRun {
        created_at: created_at.to_string(),
        status: "completed".to_string(),
        conclusion: Some("success".to_string()),
    }
}

#[test]
fn urls_and_header_values() {
    assert_eq!(
        workflows_url("octo", "hello"),
        "https://api.github.com/repos/octo/hello/actions/workflows"
    );
    assert_eq!(
        runs_url("octo", "hello", 42),
        "https://api.github.com/repos/octo/hello/actions/workflows/42/runs?per_page=1"
    );
    assert_eq!(user_agent(), "MyApp/1.0");
    assert_eq!(fetch_banner("octo", "hello"), "🔍 Fetching workflows for octo/hello...\n");
}

#[test]
fn empty_run_history_is_never_run_not_an_error() {
    let (result, warning) = evaluate_runs_outcome(5, RunsFetchOutcome::Payload(run_list(vec![])));
    assert!(matches!(result, RunFetchResult::NeverRun));
    assert!(warning.is_none());
}

#[test]
fn first_run_timestamp_is_returned_verbatim() {
    let payload = run_list(vec![a_run("2024-01-15T10:30:00Z"), a_run("2024-01-10T08:00:00Z")]);
    let (result, warning) = evaluate_runs_outcome(7, RunsFetchOutcome::Payload(payload));
    match result {
        RunFetchResult::LastRun(ts) => assert_eq!(ts, "2024-01-15T10:30:00Z"),
        other => panic!("expected a last run, got {:?}", other),
    }
    assert!(warning.is_none());
}

#[test]
fn http_failure_on_runs_degrades_with_warning() {
    let (result, warning) = evaluate_runs_outcome(7, RunsFetchOutcome::HttpFailure(404));
    assert!(matches!(result, RunFetchResult::NeverRun));
    assert_eq!(warning.unwrap(), "⚠️  Failed to fetch runs for workflow 7: 404");
}

#[test]
fn transport_failure_on_runs_becomes_error_display() {
    let (result, warning) =
        evaluate_runs_outcome(7, RunsFetchOutcome::Failure("connection reset".to_string()));
    match result {
        RunFetchResult::Failed(m) => assert_eq!(m, "connection reset"),
        other => panic!("expected a failure, got {:?}", other),
    }
    assert!(warning.is_none());
}

#[test]
fn parsed_last_run_renders_localized_without_warning() {
    let w = workflow(1, "CI", "active", "2024-01-01T00:00:00Z", "2024-01-02T00:00:00Z");
    let run = RunFetchResult::LastRun("2024-01-15T10:30:00Z".to_string());
    let (block, warnings) = render_workflow_block(0, &w, &run);
    assert!(warnings.is_empty());
    let run_line = block.lines().find(|l| l.starts_with("🏃 Last Run: ")).unwrap();
    assert!(run_line.contains(" at "));
    assert!(!run_line.contains("(raw format)"));
    assert!(!run_line.contains("2024-01-15T10:30:00Z"));
}

#[test]
fn header_shows_total_count() {
    assert_eq!(
        render_header(2),
        "🔧 GitHub Workflows Summary\n═══════════════════════════\n📊 Total workflows: 2\n\n"
    );
}

#[test]
fn header_renders_negative_count_as_delivered() {
    assert_eq!(
        render_header(-3),
        "🔧 GitHub Workflows Summary\n═══════════════════════════\n📊 Total workflows: -3\n\n"
    );
}

#[test]
fn empty_list_renders_header_and_no_blocks() {
    let list = WorkflowList { total_count: 0, workflows: vec![] };
    let runs: Vec<RunFetchResult> = vec![];
    let (report, warnings) = render_report(&list, &runs);
    assert_eq!(report, render_header(0));
    assert!(warnings.is_empty());
}

#[test]
fn block_text_is_exact_for_given_local_fields() {
    let w = workflow(9, "CI", "active", "2024-01-15T10:30:00Z", "2024-01-16T11:45:00Z");
    let run = RunFetchResult::LastRun("2024-01-17T09:05:00Z".to_string());
    let cf = Some(LocalFields { year: 2024, month: 1, day: 15, hour: 10, minute: 30 });
    let uf = Some(LocalFields { year: 2024, month: 1, day: 16, hour: 11, minute: 45 });
    let rf = Some(LocalFields { year: 2024, month: 1, day: 17, hour: 9, minute: 5 });
    let block = render_workflow_block_with(0, &w, &run, cf, uf, rf);
    let expected = format!(
        "🚀 Workflow #1\n📝 Name: CI\n✅ State: active\n🎉 Created: 01-15-2024 at 10:30\n🔄 Is Active: Yes ✅\n📅 Last Updated: 01-16-2024 at 11:45\n🏃 Last Run: 01-17-2024 at 09:05\n{}\n\n",
        SEPARATOR
    );
    assert_eq!(block, expected);
}

#[test]
fn unparseable_timestamps_fall_back_to_raw_with_warnings() {
    let w = workflow(3, "Docs", "disabled", "whenever", "2024-01-02T00:00:00Z");
    let run = RunFetchResult::LastRun("later".to_string());
    let (block, warnings) = render_workflow_block(0, &w, &run);
    assert!(block.contains("🎉 Created: whenever (raw format)"));
    assert!(block.contains("🏃 Last Run: later (raw format)"));
    assert!(block.contains("❌ State: disabled"));
    assert_eq!(warnings.len(), 2);
    assert_eq!(warnings[0], "⚠️  Could not parse created_at date format: whenever");
    assert_eq!(warnings[1], "⚠️  Could not parse last run date format: later");
}

#[test]
fn never_run_and_failure_displays_stay_distinct() {
    let w = workflow(4, "Deploy", "active", "2024-01-01T00:00:00Z", "2024-01-02T00:00:00Z");
    let (never_block, _) = render_workflow_block(0, &w, &RunFetchResult::NeverRun);
    assert!(never_block.contains("🏃 Last Run: Never run ⏸️"));
    let failed = RunFetchResult::Failed("boom".to_string());
    let (failed_block, _) = render_workflow_block(0, &w, &failed);
    assert!(failed_block.contains("🏃 Last Run: Error fetching run data: boom ❌"));
}

#[test]
fn unrecognized_state_renders_question_marker_and_inactive() {
    let w = workflow(2, "Old", "archived", "2024-01-01T00:00:00Z", "2024-01-02T00:00:00Z");
    assert!(!is_active(&w));
    assert_eq!(state_marker(&w.state), "❓");
    let (block, _) = render_workflow_block(0, &w, &RunFetchResult::NeverRun);
    assert!(block.contains("❓ State: archived"));
    assert!(block.contains("🔄 Is Active: No ❌"));
}

#[test]
fn report_emits_one_block_per_workflow_in_order() {
    let list = WorkflowList {
        total_count: 2,
        workflows: vec![
            workflow(1, "Build", "active", "2024-01-01T00:00:00Z", "2024-01-02T00:00:00Z"),
            workflow(2, "Release", "disabled", "2024-02-01T00:00:00Z", "2024-02-02T00:00:00Z"),
        ],
    };
    let runs = vec![
        RunFetchResult::LastRun("2024-03-01T00:00:00Z".to_string()),
        RunFetchResult::NeverRun,
    ];
    let (report, warnings) = render_report(&list, &runs);
    assert!(warnings.is_empty());
    assert_eq!(report.matches("🚀 Workflow #").count(), 2);
    let first = report.find("🚀 Workflow #1").unwrap();
    let second = report.find("🚀 Workflow #2").unwrap();
    assert!(first < second);
    let build = report.find("📝 Name: Build").unwrap();
    let release = report.find("📝 Name: Release").unwrap();
    assert!(build < release);
    for field in ["📝 Name: ", " State: ", "🔄 Is Active: ", "🎉 Created: ", "📅 Last Updated: ", "🏃 Last Run: "] {
        assert_eq!(report.matches(field).count(), 2, "field {:?} must appear in both blocks", field);
    }
    assert_eq!(report.matches(SEPARATOR).count(), 2);
}

#[test]
fn top_level_http_failure_terminates_with_message() {
    match decide_list(ListFetchOutcome::HttpFailure(500)) {
        Err(message) => assert_eq!(message, "❌ Request failed with status: 500"),
        Ok(_) => panic!("a non-success status must not yield a list"),
    }
}

#[test]
fn top_level_payload_is_rendered() {
    let list = WorkflowList { total_count: 0, workflows: vec![] };
    let decided = decide_list(ListFetchOutcome::Payload(list)).unwrap();
    assert_eq!(decided.total_count, 0);
    assert!(decided.workflows.is_empty());
}

#[test]
fn one_failed_run_fetch_leaves_other_blocks_intact() {
    let list = WorkflowList {
        total_count: 2,
        workflows: vec![
            workflow(1, "Build", "active", "2024-01-01T00:00:00Z", "2024-01-02T00:00:00Z"),
            workflow(2, "Release", "active", "2024-02-01T00:00:00Z", "2024-02-02T00:00:00Z"),
        ],
    };
    let runs = vec![
        RunFetchResult::Failed("status 500".to_string()),
        RunFetchResult::LastRun("2024-03-01T00:00:00Z".to_string()),
    ];
    let (report, _) = render_report(&list, &runs);
    assert_eq!(report.matches("🚀 Workflow #").count(), 2);
    assert!(report.contains("Error fetching run data: status 500 ❌"));
    let release_at = report.find("📝 Name: Release").unwrap();
    let tail = &report[release_at..];
    assert!(tail.contains("🏃 Last Run: "));
    assert!(!tail.contains("Error fetching run data"));
}
