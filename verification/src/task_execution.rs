//! Running a message as an orchestrated task: the task record through its
//! life (pending, titled, running, completed or failed), the texts reported
//! to the user, and the lifecycle events sent to the interface.
//!
//! The orchestration itself, the title generation, the clock, identifiers
//! and storage are the caller's; each decision in between is made here.

use vstd::prelude::*;
use crate::task::{StepStatus, TaskStatus};
use crate::text::{chars_of, find_chars, first_occurrence, parse_u64, spec_parse_u64, str_eq, trim_chars, trim_seq};
use crate::version::{decimal, decimal_text};

verus! {

/// One step of a task run.
#[derive(Debug, Clone, PartialEq, Eq)]
pub struct StepInfo {
    /// Step identifier (e.g., "step_1", "analysis").
    pub id: String,
    pub description: String,
    pub status: StepStatus,
    /// Agent that executed the step.
    pub agent: String,
    /// Output of the step, as JSON text.
    pub output: Option<String>,
    /// Error message of a failed step.
    pub error: Option<String>,
}

/// What a run produced: its steps and the values of its context, each as
/// `(key, JSON text)`, keys distinct.
#[derive(Debug, Clone, PartialEq, Eq)]
pub struct ExecutionDetails {
    pub steps: Vec<StepInfo>,
    pub context: Vec<(String, String)>,
}

/// A task execution record, kept for history and display.
#[derive(Debug, Clone)]
pub struct Task {
    /// Unique identifier (a UUID).
    pub id: String,
    /// Session the task was run from.
    pub session_id: String,
    /// Short title.
    pub title: String,
    /// The full request.
    pub description: String,
    pub status: TaskStatus,
    /// ISO 8601 timestamps.
    pub created_at: String,
    pub updated_at: String,
    pub completed_at: Option<String>,
    pub steps_executed: u32,
    pub steps_skipped: u32,
    pub context_keys: u32,
    /// Error message of a failed task.
    pub error: Option<String>,
    /// Result summary of a completed task.
    pub result: Option<String>,
    /// What the run produced.
    pub execution_details: Option<ExecutionDetails>,
    /// The orchestration strategy, as pretty JSON.
    pub strategy: Option<String>,
    /// The execution journal, as pretty JSON.
    pub journal_log: Option<String>,
}

/// What an orchestration run reported.
#[derive(Debug, Clone)]
pub struct OrchestrationOutcome {
    pub success: bool,
    pub steps_executed: usize,
    pub steps_skipped: usize,
    /// The execution context: `(key, JSON text)` of each value, keys
    /// distinct; the executor's result is under "execute".
    pub context: Vec<(String, String)>,
    /// The error reported by a failed run.
    pub error: Option<String>,
    /// The strategy used, as pretty JSON, when there was one.
    pub strategy: Option<String>,
    /// The execution journal, as pretty JSON, when there was one.
    pub journal_log: Option<String>,
}

/// The name of a status, as shown in events.
pub open spec fn status_text(s: TaskStatus) -> Seq<char> {
    match s {
        TaskStatus::Pending => "Pending"@,
        TaskStatus::Running => "Running"@,
        TaskStatus::Completed => "Completed"@,
        TaskStatus::Failed => "Failed"@,
    }
}

impl TaskStatus {
    /// The name of the status.
    pub fn as_str(&self) -> (r: &'static str)
        ensures
            r@ == status_text(*self),
    {
        proof {
            reveal_strlit("Pending");
            reveal_strlit("Running");
            reveal_strlit("Completed");
            reveal_strlit("Failed");
        }
        match self {
            TaskStatus::Pending => "Pending",
            TaskStatus::Running => "Running",
            TaskStatus::Completed => "Completed",
            TaskStatus::Failed => "Failed",
        }
    }
}

/// The title shown until a better one is generated: the first 100
/// characters of the request, trimmed.
pub open spec fn spec_fallback_title(message: Seq<char>) -> Seq<char> {
    trim_seq(message.take(if message.len() < 100 { message.len() as int } else { 100 }))
}

/// The title shown until a better one is generated.
pub fn fallback_title(message: &str) -> (r: String)
    ensures
        r@ == spec_fallback_title(message@),
{
    let chars = chars_of(message);
    let n = if chars.len() < 100 {
        chars.len()
    } else {
        100
    };
    let r = trim_chars(&chars, 0, n);
    proof {
        assert(chars@.subrange(0, n as int) =~= message@.take(n as int));
    }
    r
}

/// The record of a task just created from a request: pending, titled with
/// the fallback title, nothing run yet.
pub fn new_pending_task(task_id: String, session_id: String, message: String, now: String) -> (r: Task)
    ensures
        r.id == task_id,
        r.session_id == session_id,
        r.title@ == spec_fallback_title(message@),
        r.description == message,
        r.status == TaskStatus::Pending,
        r.created_at == now,
        r.updated_at == now,
        r.completed_at is None,
        r.steps_executed == 0 && r.steps_skipped == 0 && r.context_keys == 0,
        r.error is None && r.result is None && r.strategy is None && r.journal_log is None,
        r.execution_details is None,
{
    let title = fallback_title(message.as_str());
    Task {
        id: task_id,
        session_id,
        title,
        description: message,
        status: TaskStatus::Pending,
        created_at: now.clone(),
        updated_at: now,
        completed_at: None,
        steps_executed: 0,
        steps_skipped: 0,
        context_keys: 0,
        error: None,
        result: None,
        execution_details: None,
        strategy: None,
        journal_log: None,
    }
}

/// Sets the title: the generated one, or the fallback title when generation
/// failed (or no generator is configured). The status is left as it is.
pub fn apply_generated_title(task: Task, generated: Option<String>, now: String) -> (r: Task)
    ensures
        r == (Task {
            title: match generated {
                Some(t) => t,
                None => r.title,
            },
            updated_at: now,
            ..task
        }),
        generated is None ==> r.title@ == spec_fallback_title(task.description@),
{
    let title = match generated {
        Some(t) => t,
        None => fallback_title(task.description.as_str()),
    };
    Task { title, updated_at: now, ..task }
}

/// Marks the task as running.
pub fn mark_running(task: Task, now: String) -> (r: Task)
    ensures
        r == (Task { status: TaskStatus::Running, updated_at: now, ..task }),
{
    Task { status: TaskStatus::Running, updated_at: now, ..task }
}

/// The summary of a completed run.
pub open spec fn summary_text(steps_executed: usize, steps_skipped: usize, context_keys: usize) -> Seq<char> {
    "\u{2705} Task completed successfully!\nSteps executed: "@ + decimal_text(steps_executed as nat)
        + "\nSteps skipped: "@ + decimal_text(steps_skipped as nat) + "\nContext keys: "@
        + decimal_text(context_keys as nat)
}

/// The summary of a completed run.
fn summary(steps_executed: usize, steps_skipped: usize, context_keys: usize) -> (r: String)
    ensures
        r@ == summary_text(steps_executed, steps_skipped, context_keys),
{
    let mut s = String::from_str("\u{2705} Task completed successfully!\nSteps executed: ");
    s.append(decimal(steps_executed as u64).as_str());
    s.append("\nSteps skipped: ");
    s.append(decimal(steps_skipped as u64).as_str());
    s.append("\nContext keys: ");
    s.append(decimal(context_keys as u64).as_str());
    s
}

/// `i` is the first context entry under `key`.
pub open spec fn is_first_context_key(ctx: Seq<(String, String)>, key: Seq<char>, i: int) -> bool {
    &&& 0 <= i < ctx.len()
    &&& ctx[i].0@ == key
    &&& forall|j: int| 0 <= j < i ==> (#[trigger] ctx[j]).0@ != key
}

/// The JSON text of the first context entry under `key`, if any.
pub open spec fn context_value(ctx: Seq<(String, String)>, key: Seq<char>) -> Option<Seq<char>> {
    if exists|i: int| is_first_context_key(ctx, key, i) {
        Some(ctx[choose|i: int| is_first_context_key(ctx, key, i)].1@)
    } else {
        None
    }
}

/// The JSON text of the first context entry under `key`.
fn find_context_value(ctx: &Vec<(String, String)>, key: &str) -> (r: Option<String>)
    ensures
        match r {
            Some(t) => context_value(ctx@, key@) == Some(t@),
            None => context_value(ctx@, key@) is None,
        },
{
    let n = ctx.len();
    let mut i: usize = 0;
    while i < n
        invariant
            n == ctx@.len(),
            i <= n,
            forall|j: int| 0 <= j < i ==> (#[trigger] ctx@[j]).0@ != key@,
        decreases n - i,
    {
        if str_eq(ctx[i].0.as_str(), key) {
            proof {
                assert(is_first_context_key(ctx@, key@, i as int));
                let c = choose|c: int| is_first_context_key(ctx@, key@, c);
                if c < i {
                    assert(ctx@[c].0@ != key@);
                } else if c > i {
                    assert(ctx@[i as int].0@ != key@);
                }
            }
            return Some(ctx[i].1.clone());
        }
        i = i + 1;
    }
    proof {
        assert forall|c: int| !is_first_context_key(ctx@, key@, c) by {
            if 0 <= c < ctx@.len() {
                assert(ctx@[c].0@ != key@);
            }
        }
    }
    None
}

/// What a finished run leaves in the record, and what the caller is told:
/// on success, status completed, the summary as result, and the summary
/// (followed by the executor's result, the context value under "execute",
/// when there is one) for the caller; on failure, status failed, the reported
/// error (or "Unknown error") recorded, and an error for the caller. Either
/// way the counts (narrowed to `u32`), the completion time, the context (with
/// no step details), strategy and journal are recorded.
pub fn finish_task(task: Task, outcome: OrchestrationOutcome, completed_at: String) -> (r: (Task, Result<String, String>))
    ensures
        r.0.id == task.id && r.0.session_id == task.session_id && r.0.title == task.title
            && r.0.description == task.description && r.0.created_at == task.created_at,
        r.0.updated_at == completed_at,
        r.0.completed_at == Some(completed_at),
        r.0.steps_executed == outcome.steps_executed as u32,
        r.0.steps_skipped == outcome.steps_skipped as u32,
        r.0.context_keys == outcome.context@.len() as u32,
        r.0.execution_details matches Some(d) && d.steps@.len() == 0 && d.context == outcome.context,
        r.0.strategy == outcome.strategy,
        r.0.journal_log == outcome.journal_log,
        outcome.success ==> {
            let s = summary_text(outcome.steps_executed, outcome.steps_skipped, outcome.context@.len() as usize);
            &&& r.0.status == TaskStatus::Completed
            &&& r.0.error == task.error
            &&& r.0.result matches Some(t) && t@ == s
            &&& r.1 matches Ok(text) && text@ == (match context_value(outcome.context@, "execute"@) {
                Some(e) => s + "\n\nResult: "@ + e,
                None => s,
            })
        },
        !outcome.success ==> {
            let e = match outcome.error {
                Some(m) => m@,
                None => "Unknown error"@,
            };
            &&& r.0.status == TaskStatus::Failed
            &&& r.0.result == task.result
            &&& r.0.error matches Some(m) && m@ == e
            &&& r.1 matches Err(m) && m@ == "Task execution failed: "@ + e
        },
{
    proof {
        reveal_strlit("execute");
        reveal_strlit("\n\nResult: ");
        reveal_strlit("Unknown error");
        reveal_strlit("Task execution failed: ");
    }
    let context_len = outcome.context.len();
    let execute_result = find_context_value(&outcome.context, "execute");
    let mut task = task;
    task.updated_at = completed_at.clone();
    task.steps_executed = outcome.steps_executed as u32;
    task.steps_skipped = outcome.steps_skipped as u32;
    task.context_keys = context_len as u32;
    task.completed_at = Some(completed_at);
    task.execution_details = Some(ExecutionDetails { steps: Vec::new(), context: outcome.context });
    task.strategy = outcome.strategy;
    task.journal_log = outcome.journal_log;
    if outcome.success {
        task.status = TaskStatus::Completed;
        let s = summary(outcome.steps_executed, outcome.steps_skipped, context_len);
        let text = match &execute_result {
            Some(e) => {
                let mut t = s.clone();
                t.append("\n\nResult: ");
                t.append(e.as_str());
                t
            },
            None => s.clone(),
        };
        task.result = Some(s);
        (task, Ok(text))
    } else {
        let error_msg = match outcome.error {
            Some(m) => m,
            None => String::from_str("Unknown error"),
        };
        task.status = TaskStatus::Failed;
        let mut m = String::from_str("Task execution failed: ");
        m.append(error_msg.as_str());
        task.error = Some(error_msg);
        (task, Err(m))
    }
}

// ============================================================================
// Orchestrator trace events
// ============================================================================

/// The wave number a trace message announces: the number between the first
/// "Executing wave " and the following " with" (the piece ending at a second
/// "Executing wave " when there is one), when it reads as a `u64`.
pub open spec fn spec_wave_number(message: Seq<char>) -> Option<u64> {
    let p = "Executing wave "@;
    match first_occurrence(message, p) {
        None => None,
        Some(i) => {
            let after = message.subrange(i + p.len(), message.len() as int);
            let piece = match first_occurrence(after, p) {
                Some(j) => after.subrange(0, j),
                None => after,
            };
            let number = match first_occurrence(piece, " with"@) {
                Some(k) => piece.subrange(0, k),
                None => piece,
            };
            spec_parse_u64(number)
        },
    }
}

/// The wave number a trace message such as "Executing wave 2 with 3 steps"
/// announces.
pub fn wave_number(message: &str) -> (r: Option<u64>)
    ensures
        r == spec_wave_number(message@),
{
    proof {
        reveal_strlit("Executing wave ");
        reveal_strlit(" with");
    }
    let chars = chars_of(message);
    let marker = chars_of("Executing wave ");
    let with_marker = chars_of(" with");
    let n = chars.len();
    match find_chars(&chars, 0, n, &marker) {
        None => {
            proof {
                assert(chars@.subrange(0, n as int) =~= message@);
            }
            None
        },
        Some(i) => {
            proof {
                assert(chars@.subrange(0, n as int) =~= message@);
            }
            let start = i + marker.len();
            let end = match find_chars(&chars, start, n, &marker) {
                Some(j) => start + j,
                None => n,
            };
            let stop = match find_chars(&chars, start, end, &with_marker) {
                Some(k) => start + k,
                None => end,
            };
            proof {
                let after = message@.subrange(i + 15, message@.len() as int);
                assert(after =~= chars@.subrange(start as int, n as int));
                let piece = chars@.subrange(start as int, end as int);
                assert(piece =~= (match first_occurrence(after, "Executing wave "@) {
                    Some(j) => after.subrange(0, j),
                    None => after,
                }));
                assert(chars@.subrange(start as int, stop as int) =~= (match first_occurrence(piece, " with"@) {
                    Some(k) => piece.subrange(0, k),
                    None => piece,
                }));
            }
            parse_u64(&chars, start, stop)
        },
    }
}

// ============================================================================
// Lifecycle events
// ============================================================================

/// A value of an event field.
#[derive(Debug, Clone, PartialEq, Eq)]
pub enum FieldValue {
    Text(String),
    Number(u64),
    Integer(i64),
    Bool(bool),
}

/// The value of a field, as plain data.
pub enum FieldData {
    Text(Seq<char>),
    Number(u64),
    Integer(i64),
    Bool(bool),
}

/// The data a field value holds.
pub open spec fn field_data(v: FieldValue) -> FieldData {
    match v {
        FieldValue::Text(s) => FieldData::Text(s@),
        FieldValue::Number(n) => FieldData::Number(n),
        FieldValue::Integer(n) => FieldData::Integer(n),
        FieldValue::Bool(b) => FieldData::Bool(b),
    }
}

/// An event sent to the interface.
#[derive(Debug, Clone)]
pub struct OrchestratorEvent {
    /// Where the event comes from.
    pub target: String,
    /// "INFO", "ERROR", ...
    pub level: String,
    pub message: String,
    /// Named values of the event.
    pub fields: Vec<(String, FieldValue)>,
    /// Named values of the span the event was recorded in.
    pub span: Vec<(String, FieldValue)>,
    /// ISO 8601 timestamp.
    pub timestamp: String,
    /// "task_lifecycle" for task events.
    pub event_type: Option<String>,
}

/// The fields of a task event, in order: identifiers, title, description,
/// status, timestamps, counts, then completion time, error and result when
/// the task has them.
pub open spec fn task_fields(t: Task) -> Seq<(Seq<char>, FieldData)> {
    let base = seq![
        ("task_id"@, FieldData::Text(t.id@)),
        ("session_id"@, FieldData::Text(t.session_id@)),
        ("title"@, FieldData::Text(t.title@)),
        ("description"@, FieldData::Text(t.description@)),
        ("status"@, FieldData::Text(status_text(t.status))),
        ("created_at"@, FieldData::Text(t.created_at@)),
        ("updated_at"@, FieldData::Text(t.updated_at@)),
        ("steps_executed"@, FieldData::Number(t.steps_executed as u64)),
        ("steps_skipped"@, FieldData::Number(t.steps_skipped as u64)),
        ("context_keys"@, FieldData::Number(t.context_keys as u64))
    ];
    let with_completed = match t.completed_at {
        Some(c) => base.push(("completed_at"@, FieldData::Text(c@))),
        None => base,
    };
    let with_error = match t.error {
        Some(e) => with_completed.push(("error"@, FieldData::Text(e@))),
        None => with_completed,
    };
    match t.result {
        Some(res) => with_error.push(("result"@, FieldData::Text(res@))),
        None => with_error,
    }
}

/// The names and data of a list of fields.
pub open spec fn field_views(fields: Seq<(String, FieldValue)>) -> Seq<(Seq<char>, FieldData)> {
    fields.map_values(|f: (String, FieldValue)| (f.0@, field_data(f.1)))
}

/// Appends a field.
fn push_field(fields: &mut Vec<(String, FieldValue)>, name: &str, value: FieldValue)
    ensures
        field_views(final(fields)@) == field_views(old(fields)@).push((name@, field_data(value))),
{
    let ghost before = fields@;
    fields.push((String::from_str(name), value));
    proof {
        assert(field_views(fields@) =~= field_views(before).push((name@, field_data(value))));
    }
}

/// Builds lifecycle events with the fields and names the interface expects.
#[derive(Debug, Clone)]
pub struct OrchestratorEventBuilder {
    pub target: String,
    pub level: String,
    pub message: String,
    pub fields: Vec<(String, FieldValue)>,
    pub event_type: Option<String>,
}

impl OrchestratorEventBuilder {
    /// A builder at the given level whose fields are those of the task.
    fn from_task(message: String, task: &Task, level: &str) -> (r: Self)
        ensures
            r.target@ == "orcs_execution::task_executor"@,
            r.level@ == level@,
            r.message == message,
            field_views(r.fields@) == task_fields(*task),
            r.event_type matches Some(e) && e@ == "task_lifecycle"@,
    {
        let t = task;
        let mut fields: Vec<(String, FieldValue)> = Vec::new();
        push_field(&mut fields, "task_id", FieldValue::Text(t.id.clone()));
        push_field(&mut fields, "session_id", FieldValue::Text(t.session_id.clone()));
        push_field(&mut fields, "title", FieldValue::Text(t.title.clone()));
        push_field(&mut fields, "description", FieldValue::Text(t.description.clone()));
        push_field(&mut fields, "status", FieldValue::Text(String::from_str(t.status.as_str())));
        push_field(&mut fields, "created_at", FieldValue::Text(t.created_at.clone()));
        push_field(&mut fields, "updated_at", FieldValue::Text(t.updated_at.clone()));
        push_field(&mut fields, "steps_executed", FieldValue::Number(t.steps_executed as u64));
        push_field(&mut fields, "steps_skipped", FieldValue::Number(t.steps_skipped as u64));
        push_field(&mut fields, "context_keys", FieldValue::Number(t.context_keys as u64));
        match &t.completed_at {
            Some(c) => push_field(&mut fields, "completed_at", FieldValue::Text(c.clone())),
            None => {},
        }
        match &t.error {
            Some(e) => push_field(&mut fields, "error", FieldValue::Text(e.clone())),
            None => {},
        }
        match &t.result {
            Some(res) => push_field(&mut fields, "result", FieldValue::Text(res.clone())),
            None => {},
        }
        proof {
            assert(field_views(fields@) =~= task_fields(*task));
        }
        OrchestratorEventBuilder {
            target: String::from_str("orcs_execution::task_executor"),
            level: String::from_str(level),
            message,
            fields,
            event_type: Some(String::from_str("task_lifecycle")),
        }
    }

    /// An INFO lifecycle builder carrying the task's fields.
    pub fn info_from_task(message: String, task: &Task) -> (r: Self)
        ensures
            r.target@ == "orcs_execution::task_executor"@,
            r.level@ == "INFO"@,
            r.message == message,
            field_views(r.fields@) == task_fields(*task),
            r.event_type matches Some(e) && e@ == "task_lifecycle"@,
    {
        Self::from_task(message, task, "INFO")
    }

    /// An ERROR lifecycle builder carrying the task's fields.
    pub fn error_from_task(message: String, task: &Task) -> (r: Self)
        ensures
            r.target@ == "orcs_execution::task_executor"@,
            r.level@ == "ERROR"@,
            r.message == message,
            field_views(r.fields@) == task_fields(*task),
            r.event_type matches Some(e) && e@ == "task_lifecycle"@,
    {
        Self::from_task(message, task, "ERROR")
    }

    /// A lifecycle builder without fields, at the given level.
    fn plain(message: String, level: &str) -> (r: Self)
        ensures
            r.target@ == "orcs_execution::task_executor"@,
            r.level@ == level@,
            r.message == message,
            r.fields@.len() == 0,
            r.event_type matches Some(e) && e@ == "task_lifecycle"@,
    {
        OrchestratorEventBuilder {
            target: String::from_str("orcs_execution::task_executor"),
            level: String::from_str(level),
            message,
            fields: Vec::new(),
            event_type: Some(String::from_str("task_lifecycle")),
        }
    }

    /// An INFO lifecycle builder without fields.
    pub fn info(message: String) -> (r: Self)
        ensures
            r.target@ == "orcs_execution::task_executor"@,
            r.level@ == "INFO"@,
            r.message == message,
            r.fields@.len() == 0,
            r.event_type matches Some(e) && e@ == "task_lifecycle"@,
    {
        Self::plain(message, "INFO")
    }

    /// An ERROR lifecycle builder without fields.
    pub fn error(message: String) -> (r: Self)
        ensures
            r.target@ == "orcs_execution::task_executor"@,
            r.level@ == "ERROR"@,
            r.message == message,
            r.fields@.len() == 0,
            r.event_type matches Some(e) && e@ == "task_lifecycle"@,
    {
        Self::plain(message, "ERROR")
    }

    /// Replaces the target.
    pub fn target(self, target: String) -> (r: Self)
        ensures
            r.target == target,
            r.level == self.level,
            r.message == self.message,
            r.fields == self.fields,
            r.event_type == self.event_type,
    {
        let mut b = self;
        b.target = target;
        b
    }

    /// Sets a field, as a map of names to values does: an existing field of
    /// that name takes the value, otherwise the field is added.
    pub fn field(self, key: String, value: FieldValue) -> (r: Self)
        ensures
            field_views(r.fields@) == fields_with(field_views(self.fields@), key@, field_data(value)),
            r.target == self.target,
            r.level == self.level,
            r.message == self.message,
            r.event_type == self.event_type,
    {
        let mut b = self;
        insert_field(&mut b.fields, key.as_str(), value);
        b
    }

    /// The event, stamped with `timestamp`; it belongs to no span.
    pub fn build(self, timestamp: String) -> (r: OrchestratorEvent)
        ensures
            r.target == self.target,
            r.level == self.level,
            r.message == self.message,
            r.fields == self.fields,
            r.span@.len() == 0,
            r.timestamp == timestamp,
            r.event_type == self.event_type,
    {
        OrchestratorEvent {
            target: self.target,
            level: self.level,
            message: self.message,
            fields: self.fields,
            span: Vec::new(),
            timestamp,
            event_type: self.event_type,
        }
    }
}

/// The lifecycle event that closes a run: "Task execution completed" at INFO
/// when the run succeeded, "Task execution failed" at ERROR when it failed,
/// carrying the finished task's fields.
pub fn completion_event(task: &Task, succeeded: bool) -> (r: OrchestratorEventBuilder)
    ensures
        r.target@ == "orcs_execution::task_executor"@,
        succeeded ==> r.level@ == "INFO"@ && r.message@ == "Task execution completed"@,
        !succeeded ==> r.level@ == "ERROR"@ && r.message@ == "Task execution failed"@,
        field_views(r.fields@) == task_fields(*task),
        r.event_type matches Some(e) && e@ == "task_lifecycle"@,
{
    if succeeded {
        OrchestratorEventBuilder::info_from_task(String::from_str("Task execution completed"), task)
    } else {
        OrchestratorEventBuilder::error_from_task(String::from_str("Task execution failed"), task)
    }
}

/// `i` is the first field named `name`.
pub open spec fn is_first_field(fields: Seq<(Seq<char>, FieldData)>, name: Seq<char>, i: int) -> bool {
    &&& 0 <= i < fields.len()
    &&& fields[i].0 == name
    &&& forall|j: int| 0 <= j < i ==> (#[trigger] fields[j]).0 != name
}

/// The fields after setting `name` to `value`: the first field of that name
/// takes the value, or the field is appended when there is none.
pub open spec fn fields_with(fields: Seq<(Seq<char>, FieldData)>, name: Seq<char>, value: FieldData) -> Seq<(Seq<char>, FieldData)> {
    if exists|i: int| is_first_field(fields, name, i) {
        fields.update(choose|i: int| is_first_field(fields, name, i), (name, value))
    } else {
        fields.push((name, value))
    }
}

/// Sets a field in a list of fields, as a map of names to values does.
fn insert_field(fields: &mut Vec<(String, FieldValue)>, name: &str, value: FieldValue)
    ensures
        field_views(final(fields)@) == fields_with(field_views(old(fields)@), name@, field_data(value)),
{
    let ghost before = field_views(fields@);
    let n = fields.len();
    let mut i: usize = 0;
    while i < n
        invariant
            n == fields@.len(),
            *fields == *old(fields),
            before == field_views(fields@),
            i <= n,
            forall|j: int| 0 <= j < i ==> (#[trigger] before[j]).0 != name@,
        decreases n - i,
    {
        if str_eq(fields[i].0.as_str(), name) {
            proof {
                assert(is_first_field(before, name@, i as int));
                let c = choose|c: int| is_first_field(before, name@, c);
                if c < i {
                    assert(before[c].0 != name@);
                } else if c > i {
                    assert(before[i as int].0 != name@);
                }
            }
            fields.set(i, (String::from_str(name), value));
            proof {
                assert(field_views(fields@) =~= before.update(i as int, (name@, field_data(value))));
            }
            return;
        }
        i = i + 1;
    }
    proof {
        assert forall|c: int| !is_first_field(before, name@, c) by {
            if 0 <= c < before.len() {
                assert(before[c].0 != name@);
            }
        }
    }
    fields.push((String::from_str(name), value));
    proof {
        assert(field_views(fields@) =~= before.push((name@, field_data(value))));
    }
}

/// The text of the first field named `name`, when that field holds text.
pub open spec fn field_text(fields: Seq<(Seq<char>, FieldData)>, name: Seq<char>) -> Option<Seq<char>> {
    if exists|i: int| is_first_field(fields, name, i) {
        match fields[choose|i: int| is_first_field(fields, name, i)].1 {
            FieldData::Text(t) => Some(t),
            _ => None,
        }
    } else {
        None
    }
}

/// The message of a recorded trace event: its "message" field, or nothing.
pub open spec fn trace_message(fields: Seq<(Seq<char>, FieldData)>) -> Seq<char> {
    match field_text(fields, "message"@) {
        Some(t) => t,
        None => Seq::empty(),
    }
}

/// The fields an interface event carries for a recorded trace event: those
/// recorded, and the wave number when the message announces a wave.
pub open spec fn trace_fields(fields: Seq<(Seq<char>, FieldData)>) -> Seq<(Seq<char>, FieldData)> {
    match spec_wave_number(trace_message(fields)) {
        Some(n) => fields_with(fields, "wave_number"@, FieldData::Number(n)),
        None => fields,
    }
}

/// The text of the first field named `name`, when it holds text.
fn find_field_text(fields: &Vec<(String, FieldValue)>, name: &str) -> (r: Option<String>)
    ensures
        match r {
            Some(t) => field_text(field_views(fields@), name@) == Some(t@),
            None => field_text(field_views(fields@), name@) is None,
        },
{
    let ghost fv = field_views(fields@);
    let n = fields.len();
    let mut i: usize = 0;
    while i < n
        invariant
            n == fields@.len(),
            fv == field_views(fields@),
            i <= n,
            forall|j: int| 0 <= j < i ==> (#[trigger] fv[j]).0 != name@,
        decreases n - i,
    {
        if str_eq(fields[i].0.as_str(), name) {
            proof {
                assert(is_first_field(fv, name@, i as int));
                let c = choose|c: int| is_first_field(fv, name@, c);
                if c < i {
                    assert(fv[c].0 != name@);
                } else if c > i {
                    assert(fv[i as int].0 != name@);
                }
            }
            return match &fields[i].1 {
                FieldValue::Text(t) => Some(t.clone()),
                _ => None,
            };
        }
        i = i + 1;
    }
    proof {
        assert forall|c: int| !is_first_field(fv, name@, c) by {
            if 0 <= c < fv.len() {
                assert(fv[c].0 != name@);
            }
        }
    }
    None
}

/// The interface event of a recorded trace event: its target and level, the
/// message taken from its "message" field (empty when there is none), its
/// fields with the wave number added when the message announces a wave, and
/// the name of the span it was recorded in. Such events carry no type marker.
pub fn event_from_trace(
    target: String,
    level: String,
    fields: Vec<(String, FieldValue)>,
    span_name: Option<String>,
    timestamp: String,
) -> (r: OrchestratorEvent)
    ensures
        r.target == target,
        r.level == level,
        r.message@ == trace_message(field_views(fields@)),
        field_views(r.fields@) == trace_fields(field_views(fields@)),
        field_views(r.span@) == (match span_name {
            Some(s) => seq![("span_name"@, FieldData::Text(s@))],
            None => Seq::empty(),
        }),
        r.timestamp == timestamp,
        r.event_type is None,
{
    proof {
        reveal_strlit("message");
        reveal_strlit("span_name");
        reveal_strlit("wave_number");
    }
    let message = match find_field_text(&fields, "message") {
        Some(t) => t,
        None => String::new(),
    };
    let wave = wave_number(message.as_str());
    let mut span: Vec<(String, FieldValue)> = Vec::new();
    match span_name {
        Some(s) => {
            span.push((String::from_str("span_name"), FieldValue::Text(s)));
        },
        None => {},
    }
    proof {
        assert(field_views(span@) =~= (match span_name {
            Some(s) => seq![("span_name"@, FieldData::Text(s@))],
            None => Seq::<(Seq<char>, FieldData)>::empty(),
        }));
    }
    let mut fields = fields;
    match wave {
        Some(n) => insert_field(&mut fields, "wave_number", FieldValue::Number(n)),
        None => {},
    }
    OrchestratorEvent {
        target,
        level,
        message,
        fields,
        span,
        timestamp,
        event_type: None,
    }
}

/// The tasks run from a session, in their stored order.
pub open spec fn spec_tasks_of_session(tasks: Seq<Task>, session_id: Seq<char>) -> Seq<Task> {
    tasks.filter(|t: Task| t.session_id@ == session_id)
}

/// Keeps the tasks run from `session_id`, in order.
pub fn tasks_of_session(tasks: Vec<Task>, session_id: &str) -> (r: Vec<Task>)
    ensures
        r@ == spec_tasks_of_session(tasks@, session_id@),
{
    broadcast use Seq::lemma_filter_push;

    let ghost orig = tasks@;
    let ghost pred = |t: Task| t.session_id@ == session_id@;
    let mut rest = tasks;
    let n = rest.len();
    let mut r: Vec<Task> = Vec::new();
    let mut k: usize = 0;
    proof {
        assert(orig.take(0).filter(pred) =~= Seq::<Task>::empty());
        assert(orig.skip(0) =~= orig);
    }
    while rest.len() > 0
        invariant
            k <= orig.len(),
            orig.len() == n,
            k + rest@.len() == orig.len(),
            rest@ == orig.skip(k as int),
            r@ == orig.take(k as int).filter(pred),
            pred == (|t: Task| t.session_id@ == session_id@),
        decreases rest@.len(),
    {
        let t = rest.remove(0);
        proof {
            assert(t == orig[k as int]);
            assert(orig.take(k as int + 1) =~= orig.take(k as int).push(t));
            assert(rest@ =~= orig.skip(k as int + 1));
            orig.take(k as int).lemma_filter_push(t, pred);
        }
        if str_eq(t.session_id.as_str(), session_id) {
            r.push(t);
        }
        k = k + 1;
    }
    proof {
        assert(orig.take(k as int) =~= orig);
    }
    r
}

} // verus!
