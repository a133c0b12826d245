use orcs::task::TaskStatus;
use orcs::task_execution::{
    apply_generated_title, event_from_trace, fallback_title, finish_task, mark_running,
    new_pending_task, tasks_of_session, OrchestratorEventBuilder,
    wave_number, FieldValue, OrchestrationOutcome, Task,
};

fn pending() -> Task {
    new_pending_task(
        "t-1".to_string(),
        "s-1".to_string(),
        "  Build the project and run the tests  ".to_string(),
        "2024-01-01T00:00:00Z".to_string(),
    )
}

fn outcome(success: bool) -> OrchestrationOutcome {
    OrchestrationOutcome {
        success,
        steps_executed: 3,
        steps_skipped: 1,
        context: vec![
            ("plan".to_string(), "{\"steps\":1}".to_string()),
            ("execute".to_string(), "\"done\"".to_string()),
        ],
        error: None,
        strategy: Some("{}".to_string()),
        journal_log: None,
    }
}

#[test]
fn fallback_title_takes_first_hundred_chars_trimmed() {
    assert_eq!(fallback_title("  hi there \n"), "hi there");
    let long: String = std::iter::repeat('x').take(150).collect();
    assert_eq!(fallback_title(&long).chars().count(), 100);
    let spaced = format!("{}{}", "a".repeat(99), " tail");
    assert_eq!(fallback_title(&spaced), "a".repeat(99));
}

#[test]
fn new_task_is_pending_with_fallback_title() {
    let t = pending();
    assert_eq!(t.status, TaskStatus::Pending);
    assert_eq!(t.title, "Build the project and run the tests");
    assert_eq!(t.description, "  Build the project and run the tests  ");
    assert_eq!(t.created_at, t.updated_at);
    assert!(t.completed_at.is_none() && t.result.is_none() && t.error.is_none());
}

#[test]
fn title_and_running() {
    let t = apply_generated_title(pending(), Some("Build & test".to_string()), "now1".to_string());
    assert_eq!(t.title, "Build & test");
    assert_eq!(t.status, TaskStatus::Pending);
    assert_eq!(t.updated_at, "now1");
    let t = apply_generated_title(t, None, "now2".to_string());
    assert_eq!(t.title, "Build the project and run the tests");
    let t = mark_running(t, "now3".to_string());
    assert_eq!(t.status, TaskStatus::Running);
    assert_eq!(t.updated_at, "now3");
}

#[test]
fn finish_success_reports_summary_and_result() {
    let (t, r) = finish_task(pending(), outcome(true), "end".to_string());
    let summary = "\u{2705} Task completed successfully!\nSteps executed: 3\nSteps skipped: 1\nContext keys: 2";
    assert_eq!(t.status, TaskStatus::Completed);
    assert_eq!(t.result.as_deref(), Some(summary));
    assert_eq!(t.completed_at.as_deref(), Some("end"));
    assert_eq!((t.steps_executed, t.steps_skipped, t.context_keys), (3, 1, 2));
    assert_eq!(t.strategy.as_deref(), Some("{}"));
    assert_eq!(r, Ok(format!("{}\n\nResult: \"done\"", summary)));
    let details = t.execution_details.as_ref().unwrap();
    assert!(details.steps.is_empty());
    assert_eq!(details.context.len(), 2);
}

#[test]
fn finish_failure_records_error() {
    let (t, r) = finish_task(pending(), outcome(false), "end".to_string());
    assert_eq!(t.status, TaskStatus::Failed);
    assert_eq!(t.error.as_deref(), Some("Unknown error"));
    assert_eq!(r, Err("Task execution failed: Unknown error".to_string()));
    assert_eq!(t.context_keys, 2);
    assert!(t.execution_details.is_some());
    let mut o = outcome(false);
    o.error = Some("boom".to_string());
    let (t, r) = finish_task(pending(), o, "end".to_string());
    assert_eq!(t.error.as_deref(), Some("boom"));
    assert_eq!(r, Err("Task execution failed: boom".to_string()));
}

#[test]
fn wave_numbers_are_read_from_messages() {
    assert_eq!(wave_number("Executing wave 2 with 3 steps"), Some(2));
    assert_eq!(wave_number("Executing wave 17"), Some(17));
    assert_eq!(wave_number("Executing wave x with 3 steps"), None);
    assert_eq!(wave_number("Planning"), None);
}

#[test]
fn task_events_carry_task_fields() {
    let t = pending();
    let e = OrchestratorEventBuilder::info_from_task("Task created".to_string(), &t).build("ts".to_string());
    assert_eq!(e.level, "INFO");
    assert_eq!(e.target, "orcs_execution::task_executor");
    assert_eq!(e.event_type.as_deref(), Some("task_lifecycle"));
    let names: Vec<&str> = e.fields.iter().map(|f| f.0.as_str()).collect();
    assert_eq!(
        names,
        vec![
            "task_id",
            "session_id",
            "title",
            "description",
            "status",
            "created_at",
            "updated_at",
            "steps_executed",
            "steps_skipped",
            "context_keys"
        ]
    );
    assert_eq!(e.fields[4].1, FieldValue::Text("Pending".to_string()));
    let e = OrchestratorEventBuilder::error_from_task("Task failed".to_string(), &t).build("ts".to_string());
    assert_eq!(e.level, "ERROR");
}

#[test]
fn plain_events_and_fields() {
    let b = OrchestratorEventBuilder::info("hello".to_string());
    assert_eq!(b.level, "INFO");
    assert!(b.fields.is_empty());
    let e = b
        .field("a".to_string(), FieldValue::Number(1))
        .field("b".to_string(), FieldValue::Number(2))
        .field("a".to_string(), FieldValue::Text("x".to_string()))
        .target("elsewhere".to_string())
        .build("ts".to_string());
    assert_eq!(e.fields.len(), 2);
    assert_eq!(e.fields[0], ("a".to_string(), FieldValue::Text("x".to_string())));
    assert_eq!(e.target, "elsewhere");
    assert_eq!(e.timestamp, "ts");
    assert!(e.span.is_empty());
    assert_eq!(e.event_type.as_deref(), Some("task_lifecycle"));
    assert_eq!(OrchestratorEventBuilder::error("bad".to_string()).build("ts".to_string()).level, "ERROR");
}

#[test]
fn trace_events_get_wave_numbers() {
    let fields = vec![
        ("message".to_string(), FieldValue::Text("Executing wave 4 with 2 steps".to_string())),
        ("other".to_string(), FieldValue::Number(7)),
    ];
    let e = event_from_trace(
        "llm_toolkit".to_string(),
        "INFO".to_string(),
        fields,
        Some("wave".to_string()),
        "ts".to_string(),
    );
    assert_eq!(e.message, "Executing wave 4 with 2 steps");
    assert_eq!(e.fields.len(), 3);
    assert_eq!(e.fields[2], ("wave_number".to_string(), FieldValue::Number(4)));
    assert_eq!(e.span, vec![("span_name".to_string(), FieldValue::Text("wave".to_string()))]);
    assert!(e.event_type.is_none());
    let e = event_from_trace("t".to_string(), "DEBUG".to_string(), vec![], None, "ts".to_string());
    assert_eq!(e.message, "");
    assert!(e.fields.is_empty() && e.span.is_empty());
}

#[test]
fn success_without_execute_value_reports_summary_only() {
    let mut o = outcome(true);
    o.context.pop();
    let (t, r) = finish_task(pending(), o, "end".to_string());
    assert_eq!(r, Ok(t.result.clone().unwrap()));
    assert_eq!(t.context_keys, 1);
}

#[test]
fn tasks_are_filtered_by_session() {
    let mut a = pending();
    a.id = "a".to_string();
    let mut b = pending();
    b.id = "b".to_string();
    b.session_id = "other".to_string();
    let mut c = pending();
    c.id = "c".to_string();
    let kept = tasks_of_session(vec![a, b, c], "s-1");
    let ids: Vec<&str> = kept.iter().map(|t| t.id.as_str()).collect();
    assert_eq!(ids, vec!["a", "c"]);
}

#[test]
fn completion_events_name_the_outcome() {
    let t = pending();
    let ok = orcs::task_execution::completion_event(&t, true).build("ts".to_string());
    assert_eq!(ok.message, "Task execution completed");
    assert_eq!(ok.level, "INFO");
    let failed = orcs::task_execution::completion_event(&t, false).build("ts".to_string());
    assert_eq!(failed.message, "Task execution failed");
    assert_eq!(failed.level, "ERROR");
    assert_eq!(failed.fields.len(), ok.fields.len());
}

#[test]
fn trace_fields_keep_booleans_and_signed_numbers() {
    let e = event_from_trace(
        "t".to_string(),
        "INFO".to_string(),
        vec![
            ("ok".to_string(), FieldValue::Bool(true)),
            ("delta".to_string(), FieldValue::Integer(-3)),
        ],
        None,
        "ts".to_string(),
    );
    assert_eq!(e.message, "");
    assert_eq!(e.fields[0].1, FieldValue::Bool(true));
    assert_eq!(e.fields[1].1, FieldValue::Integer(-3));
}
