//! Task domain: status of orchestrated tasks and their steps, results, and the
//! status records used for persistence.

use vstd::prelude::*;
use crate::text::str_eq;

verus! {

/// The current status of a task in the orchestration system.
#[derive(Debug, Clone, Copy, PartialEq, Eq, Structural)]
pub enum TaskStatus {
    /// Created but not yet running.
    Pending,
    /// Currently being executed by a worker.
    Running,
    /// Completed successfully.
    Completed,
    /// Failed during execution.
    Failed,
}

/// A serializable representation of orchestration results.
#[derive(Debug, Clone, PartialEq)]
pub struct SerializableOrchestrationResult {
    /// Whether the orchestration completed successfully.
    pub success: bool,
    /// The number of steps that were executed.
    pub steps_executed: usize,
    /// The number of steps that were skipped.
    pub steps_skipped: usize,
    /// An error message if the orchestration failed.
    pub error: Option<String>,
    /// Whether the orchestration was terminated early.
    pub terminated: bool,
    /// The reason for early termination, if applicable.
    pub termination_reason: Option<String>,
}

/// Messages that can be sent to the task manager domain.
#[derive(Debug)]
pub enum TaskManagerMessage {
    /// Update the status of a task.
    TaskStatusUpdate {
        /// The ID of the task being updated.
        task_id: String,
        /// The new status of the task.
        status: TaskStatus,
    },
    /// Notify that a task has been completed.
    TaskCompleted {
        /// The ID of the completed task.
        task_id: String,
        /// The result of the task execution.
        result: SerializableOrchestrationResult,
    },
}

/// Messages that can be sent to the execution domain.
#[derive(Debug)]
pub enum ExecutionMessage {
    /// Execute a task with a strategy.
    ExecuteTask {
        /// The ID of the task to execute.
        task_id: String,
        /// The strategy map to follow, as JSON text.
        strategy: String,
    },
}

/// Messages passed between the task domains.
#[derive(Debug)]
pub enum DomainMessage {
    /// A message for the task manager.
    TaskManager(TaskManagerMessage),
    /// A message for the executor.
    Execution(ExecutionMessage),
}

/// Status of an individual step in task execution.
#[derive(Debug, Clone, Copy, PartialEq, Eq, Structural)]
pub enum StepStatus {
    /// Waiting to be executed
    Pending,
    /// Currently executing
    Running,
    /// Completed successfully
    Completed,
    /// Skipped due to dependencies
    Skipped,
    /// Failed with error
    Failed,
}

/// Task status record.
#[derive(Debug, Clone, Copy, PartialEq, Eq, Structural)]
pub enum TaskStatusDTO {
    Pending,
    Running,
    Completed,
    Failed,
}

/// Step status record.
#[derive(Debug, Clone, Copy, PartialEq, Eq, Structural)]
pub enum StepStatusDTO {
    Pending,
    Running,
    Completed,
    Skipped,
    Failed,
}

/// The domain status a task status record stands for (same-named variant).
pub open spec fn spec_task_status_from_dto(d: TaskStatusDTO) -> TaskStatus {
    match d {
        TaskStatusDTO::Pending => TaskStatus::Pending,
        TaskStatusDTO::Running => TaskStatus::Running,
        TaskStatusDTO::Completed => TaskStatus::Completed,
        TaskStatusDTO::Failed => TaskStatus::Failed,
    }
}

/// The record of a domain task status (same-named variant).
pub open spec fn spec_task_status_to_dto(s: TaskStatus) -> TaskStatusDTO {
    match s {
        TaskStatus::Pending => TaskStatusDTO::Pending,
        TaskStatus::Running => TaskStatusDTO::Running,
        TaskStatus::Completed => TaskStatusDTO::Completed,
        TaskStatus::Failed => TaskStatusDTO::Failed,
    }
}

/// The domain status a step status record stands for (same-named variant).
pub open spec fn spec_step_status_from_dto(d: StepStatusDTO) -> StepStatus {
    match d {
        StepStatusDTO::Pending => StepStatus::Pending,
        StepStatusDTO::Running => StepStatus::Running,
        StepStatusDTO::Completed => StepStatus::Completed,
        StepStatusDTO::Skipped => StepStatus::Skipped,
        StepStatusDTO::Failed => StepStatus::Failed,
    }
}

/// The record of a domain step status (same-named variant).
pub open spec fn spec_step_status_to_dto(s: StepStatus) -> StepStatusDTO {
    match s {
        StepStatus::Pending => StepStatusDTO::Pending,
        StepStatus::Running => StepStatusDTO::Running,
        StepStatus::Completed => StepStatusDTO::Completed,
        StepStatus::Skipped => StepStatusDTO::Skipped,
        StepStatus::Failed => StepStatusDTO::Failed,
    }
}

impl From<TaskStatusDTO> for TaskStatus {
    fn from(dto: TaskStatusDTO) -> (r: Self) {
        match dto {
            TaskStatusDTO::Pending => TaskStatus::Pending,
            TaskStatusDTO::Running => TaskStatus::Running,
            TaskStatusDTO::Completed => TaskStatus::Completed,
            TaskStatusDTO::Failed => TaskStatus::Failed,
        }
    }
}

impl vstd::std_specs::convert::FromSpecImpl<TaskStatusDTO> for TaskStatus {
    open spec fn obeys_from_spec() -> bool {
        true
    }

    open spec fn from_spec(v: TaskStatusDTO) -> Self {
        spec_task_status_from_dto(v)
    }
}

impl From<TaskStatus> for TaskStatusDTO {
    fn from(status: TaskStatus) -> (r: Self) {
        match status {
            TaskStatus::Pending => TaskStatusDTO::Pending,
            TaskStatus::Running => TaskStatusDTO::Running,
            TaskStatus::Completed => TaskStatusDTO::Completed,
            TaskStatus::Failed => TaskStatusDTO::Failed,
        }
    }
}

impl vstd::std_specs::convert::FromSpecImpl<TaskStatus> for TaskStatusDTO {
    open spec fn obeys_from_spec() -> bool {
        true
    }

    open spec fn from_spec(v: TaskStatus) -> Self {
        spec_task_status_to_dto(v)
    }
}

impl From<StepStatusDTO> for StepStatus {
    fn from(dto: StepStatusDTO) -> (r: Self) {
        match dto {
            StepStatusDTO::Pending => StepStatus::Pending,
            StepStatusDTO::Running => StepStatus::Running,
            StepStatusDTO::Completed => StepStatus::Completed,
            StepStatusDTO::Skipped => StepStatus::Skipped,
            StepStatusDTO::Failed => StepStatus::Failed,
        }
    }
}

impl vstd::std_specs::convert::FromSpecImpl<StepStatusDTO> for StepStatus {
    open spec fn obeys_from_spec() -> bool {
        true
    }

    open spec fn from_spec(v: StepStatusDTO) -> Self {
        spec_step_status_from_dto(v)
    }
}

impl From<StepStatus> for StepStatusDTO {
    fn from(status: StepStatus) -> (r: Self) {
        match status {
            StepStatus::Pending => StepStatusDTO::Pending,
            StepStatus::Running => StepStatusDTO::Running,
            StepStatus::Completed => StepStatusDTO::Completed,
            StepStatus::Skipped => StepStatusDTO::Skipped,
            StepStatus::Failed => StepStatusDTO::Failed,
        }
    }
}

impl vstd::std_specs::convert::FromSpecImpl<StepStatus> for StepStatusDTO {
    open spec fn obeys_from_spec() -> bool {
        true
    }

    open spec fn from_spec(v: StepStatus) -> Self {
        spec_step_status_to_dto(v)
    }
}

/// The execution context of a task being run.
#[derive(Debug, Clone)]
pub struct TaskContext {
    pub id: String,
    pub status: TaskStatus,
    /// The request the task runs.
    pub request: String,
    /// The strategy map of the run, as JSON text.
    pub strategy: Option<String>,
    pub result: Option<SerializableOrchestrationResult>,
}

/// The texts an optional string holds.
pub open spec fn opt_text(o: Option<String>) -> Option<Seq<char>> {
    match o {
        Some(s) => Some(s@),
        None => None,
    }
}

/// Two results report the same run.
pub open spec fn same_result(a: SerializableOrchestrationResult, b: SerializableOrchestrationResult) -> bool {
    &&& a.success == b.success
    &&& a.steps_executed == b.steps_executed
    &&& a.steps_skipped == b.steps_skipped
    &&& opt_text(a.error) == opt_text(b.error)
    &&& a.terminated == b.terminated
    &&& opt_text(a.termination_reason) == opt_text(b.termination_reason)
}

/// Two optional results are both absent or report the same run.
pub open spec fn same_opt_result(
    a: Option<SerializableOrchestrationResult>,
    b: Option<SerializableOrchestrationResult>,
) -> bool {
    match (a, b) {
        (Some(x), Some(y)) => same_result(x, y),
        (None, None) => true,
        _ => false,
    }
}

/// Two task contexts are equal when id, status, request and result are:
/// the strategy is left out of the comparison.
pub open spec fn same_task_context(a: TaskContext, b: TaskContext) -> bool {
    &&& a.id@ == b.id@
    &&& a.status == b.status
    &&& a.request@ == b.request@
    &&& same_opt_result(a.result, b.result)
}

fn opt_text_eq(a: &Option<String>, b: &Option<String>) -> (r: bool)
    ensures
        r == (opt_text(*a) == opt_text(*b)),
{
    match (a, b) {
        (Some(x), Some(y)) => str_eq(x.as_str(), y.as_str()),
        (None, None) => true,
        _ => false,
    }
}

fn opt_result_eq(
    a: &Option<SerializableOrchestrationResult>,
    b: &Option<SerializableOrchestrationResult>,
) -> (r: bool)
    ensures
        r == same_opt_result(*a, *b),
{
    match (a, b) {
        (Some(x), Some(y)) => {
            x.success == y.success && x.steps_executed == y.steps_executed && x.steps_skipped
                == y.steps_skipped && opt_text_eq(&x.error, &y.error) && x.terminated == y.terminated
                && opt_text_eq(&x.termination_reason, &y.termination_reason)
        },
        (None, None) => true,
        _ => false,
    }
}

impl PartialEq for TaskContext {
    fn eq(&self, other: &Self) -> (r: bool) {
        str_eq(self.id.as_str(), other.id.as_str()) && self.status == other.status && str_eq(
            self.request.as_str(),
            other.request.as_str(),
        ) && opt_result_eq(&self.result, &other.result)
    }
}

impl vstd::std_specs::cmp::PartialEqSpecImpl for TaskContext {
    open spec fn obeys_eq_spec() -> bool {
        true
    }

    open spec fn eq_spec(&self, other: &Self) -> bool {
        same_task_context(*self, *other)
    }
}

/// Task statuses survive being stored and read back, and records survive being read and stored.
pub proof fn lemma_task_status_round_trip(s: TaskStatus, d: TaskStatusDTO)
    ensures
        spec_task_status_from_dto(spec_task_status_to_dto(s)) == s,
        spec_task_status_to_dto(spec_task_status_from_dto(d)) == d,
{
}

/// Step statuses survive being stored and read back, and records survive being read and stored.
pub proof fn lemma_step_status_round_trip(s: StepStatus, d: StepStatusDTO)
    ensures
        spec_step_status_from_dto(spec_step_status_to_dto(s)) == s,
        spec_step_status_to_dto(spec_step_status_from_dto(d)) == d,
{
}

/// Each stored task status reads as the status of the same name, and each
/// status is stored under its own name.
pub proof fn lemma_task_status_names_kept(a: TaskStatusDTO, b: TaskStatus)
    ensures
        a == TaskStatusDTO::Pending <==> spec_task_status_from_dto(a) == TaskStatus::Pending,
        a == TaskStatusDTO::Running <==> spec_task_status_from_dto(a) == TaskStatus::Running,
        a == TaskStatusDTO::Completed <==> spec_task_status_from_dto(a) == TaskStatus::Completed,
        a == TaskStatusDTO::Failed <==> spec_task_status_from_dto(a) == TaskStatus::Failed,
        b == TaskStatus::Pending <==> spec_task_status_to_dto(b) == TaskStatusDTO::Pending,
        b == TaskStatus::Running <==> spec_task_status_to_dto(b) == TaskStatusDTO::Running,
        b == TaskStatus::Completed <==> spec_task_status_to_dto(b) == TaskStatusDTO::Completed,
        b == TaskStatus::Failed <==> spec_task_status_to_dto(b) == TaskStatusDTO::Failed,
{
}

/// Each stored step status reads as the status of the same name, and each
/// status is stored under its own name.
pub proof fn lemma_step_status_names_kept(a: StepStatusDTO, b: StepStatus)
    ensures
        a == StepStatusDTO::Pending <==> spec_step_status_from_dto(a) == StepStatus::Pending,
        a == StepStatusDTO::Running <==> spec_step_status_from_dto(a) == StepStatus::Running,
        a == StepStatusDTO::Completed <==> spec_step_status_from_dto(a) == StepStatus::Completed,
        a == StepStatusDTO::Skipped <==> spec_step_status_from_dto(a) == StepStatus::Skipped,
        a == StepStatusDTO::Failed <==> spec_step_status_from_dto(a) == StepStatus::Failed,
        b == StepStatus::Pending <==> spec_step_status_to_dto(b) == StepStatusDTO::Pending,
        b == StepStatus::Running <==> spec_step_status_to_dto(b) == StepStatusDTO::Running,
        b == StepStatus::Completed <==> spec_step_status_to_dto(b) == StepStatusDTO::Completed,
        b == StepStatus::Skipped <==> spec_step_status_to_dto(b) == StepStatusDTO::Skipped,
        b == StepStatus::Failed <==> spec_step_status_to_dto(b) == StepStatusDTO::Failed,
{
}

} // verus!
