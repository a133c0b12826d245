//! Stored task records (schema 1.0.0).
//!
//! Reading a record repairs its id: an id that is not a UUID (records of
//! early versions) is replaced by the name-based UUID of
//! `"<title>:<created_at>"`. The strategy and journal of a run are not part
//! of this schema: they are dropped on storing and absent on reading.

use vstd::prelude::*;
use crate::task::{
    StepStatusDTO, TaskStatusDTO, spec_step_status_from_dto, spec_step_status_to_dto,
    spec_task_status_from_dto, spec_task_status_to_dto,
};
use crate::task_execution::{ExecutionDetails, StepInfo, Task};
use crate::uuid_text::{generate_uuid_from_name, is_uuid_text, is_valid_uuid, uuid_v5_oid_text};

verus! {

/// Step record.
#[derive(Debug, Clone, PartialEq, Eq)]
pub struct StepInfoDTO {
    pub id: String,
    pub description: String,
    pub status: StepStatusDTO,
    pub agent: String,
    /// Output of the step, as JSON text.
    pub output: Option<String>,
    pub error: Option<String>,
}

/// Execution details record.
#[derive(Debug, Clone, PartialEq, Eq)]
pub struct ExecutionDetailsDTO {
    pub steps: Vec<StepInfoDTO>,
    /// `(key, JSON text)` of each context value.
    pub context: Vec<(String, String)>,
}

/// Task record, schema 1.0.0.
#[derive(Debug, Clone)]
pub struct TaskV1_0_0 {
    pub id: String,
    pub session_id: String,
    pub title: String,
    pub description: String,
    pub status: TaskStatusDTO,
    pub created_at: String,
    pub updated_at: String,
    pub completed_at: Option<String>,
    pub steps_executed: u32,
    pub steps_skipped: u32,
    pub context_keys: u32,
    pub error: Option<String>,
    pub result: Option<String>,
    pub execution_details: Option<ExecutionDetailsDTO>,
}

/// The domain step of a record.
pub open spec fn spec_step_into_domain(d: StepInfoDTO) -> StepInfo {
    StepInfo {
        id: d.id,
        description: d.description,
        status: spec_step_status_from_dto(d.status),
        agent: d.agent,
        output: d.output,
        error: d.error,
    }
}

/// The record of a domain step.
pub open spec fn spec_step_from_domain(s: StepInfo) -> StepInfoDTO {
    StepInfoDTO {
        id: s.id,
        description: s.description,
        status: spec_step_status_to_dto(s.status),
        agent: s.agent,
        output: s.output,
        error: s.error,
    }
}

impl From<StepInfoDTO> for StepInfo {
    fn from(dto: StepInfoDTO) -> (r: Self) {
        StepInfo {
            id: dto.id,
            description: dto.description,
            status: dto.status.into(),
            agent: dto.agent,
            output: dto.output,
            error: dto.error,
        }
    }
}

impl vstd::std_specs::convert::FromSpecImpl<StepInfoDTO> for StepInfo {
    open spec fn obeys_from_spec() -> bool {
        true
    }

    open spec fn from_spec(v: StepInfoDTO) -> Self {
        spec_step_into_domain(v)
    }
}

impl From<StepInfo> for StepInfoDTO {
    fn from(step: StepInfo) -> (r: Self) {
        StepInfoDTO {
            id: step.id,
            description: step.description,
            status: step.status.into(),
            agent: step.agent,
            output: step.output,
            error: step.error,
        }
    }
}

impl vstd::std_specs::convert::FromSpecImpl<StepInfo> for StepInfoDTO {
    open spec fn obeys_from_spec() -> bool {
        true
    }

    open spec fn from_spec(v: StepInfo) -> Self {
        spec_step_from_domain(v)
    }
}

/// Converts step records, in order.
fn steps_into_domain(steps: Vec<StepInfoDTO>) -> (r: Vec<StepInfo>)
    ensures
        r@ == steps@.map_values(|s: StepInfoDTO| spec_step_into_domain(s)),
{
    let ghost orig = steps@;
    let mut rest = steps;
    let n = rest.len();
    let mut r: Vec<StepInfo> = Vec::new();
    let mut k: usize = 0;
    proof {
        assert(orig.skip(0) =~= orig);
    }
    while rest.len() > 0
        invariant
            orig.len() == n,
            k + rest@.len() == n,
            rest@ == orig.skip(k as int),
            r@ == orig.take(k as int).map_values(|s: StepInfoDTO| spec_step_into_domain(s)),
        decreases rest@.len(),
    {
        let d = rest.remove(0);
        proof {
            assert(d == orig[k as int]);
            assert(rest@ =~= orig.skip(k as int + 1));
        }
        r.push(StepInfo::from(d));
        proof {
            assert(r@ =~= orig.take(k as int + 1).map_values(|s: StepInfoDTO| spec_step_into_domain(s)));
        }
        k = k + 1;
    }
    proof {
        assert(orig.take(k as int) =~= orig);
    }
    r
}

/// Converts domain steps to records, in order.
fn steps_from_domain(steps: Vec<StepInfo>) -> (r: Vec<StepInfoDTO>)
    ensures
        r@ == steps@.map_values(|s: StepInfo| spec_step_from_domain(s)),
{
    let ghost orig = steps@;
    let mut rest = steps;
    let n = rest.len();
    let mut r: Vec<StepInfoDTO> = Vec::new();
    let mut k: usize = 0;
    proof {
        assert(orig.skip(0) =~= orig);
    }
    while rest.len() > 0
        invariant
            orig.len() == n,
            k + rest@.len() == n,
            rest@ == orig.skip(k as int),
            r@ == orig.take(k as int).map_values(|s: StepInfo| spec_step_from_domain(s)),
        decreases rest@.len(),
    {
        let d = rest.remove(0);
        proof {
            assert(d == orig[k as int]);
            assert(rest@ =~= orig.skip(k as int + 1));
        }
        r.push(StepInfoDTO::from(d));
        proof {
            assert(r@ =~= orig.take(k as int + 1).map_values(|s: StepInfo| spec_step_from_domain(s)));
        }
        k = k + 1;
    }
    proof {
        assert(orig.take(k as int) =~= orig);
    }
    r
}

/// `r` holds the steps of `d` converted and its context.
pub open spec fn is_domain_details_of(d: ExecutionDetailsDTO, r: ExecutionDetails) -> bool {
    &&& r.steps@ == d.steps@.map_values(|s: StepInfoDTO| spec_step_into_domain(s))
    &&& r.context == d.context
}

/// `r` holds the steps of `e` as records and its context.
pub open spec fn is_details_record_of(e: ExecutionDetails, r: ExecutionDetailsDTO) -> bool {
    &&& r.steps@ == e.steps@.map_values(|s: StepInfo| spec_step_from_domain(s))
    &&& r.context == e.context
}

impl ExecutionDetailsDTO {
    /// The domain details.
    pub fn into_domain(self) -> (r: ExecutionDetails)
        ensures
            is_domain_details_of(self, r),
    {
        ExecutionDetails { steps: steps_into_domain(self.steps), context: self.context }
    }

    /// The record of domain details.
    pub fn from_domain(details: ExecutionDetails) -> (r: Self)
        ensures
            is_details_record_of(details, r),
    {
        ExecutionDetailsDTO { steps: steps_from_domain(details.steps), context: details.context }
    }
}

/// The name-based UUID of a task: that of `"<title>:<timestamp>"`.
pub open spec fn spec_task_uuid(title: Seq<char>, timestamp: Seq<char>) -> Seq<char> {
    uuid_v5_oid_text(title + ":"@ + timestamp)
}

/// The name-based UUID given to a task record whose id is not a UUID.
pub fn generate_uuid_from_task(title: &str, timestamp: &str) -> (r: String)
    ensures
        r@ == spec_task_uuid(title@, timestamp@),
        is_uuid_text(r@),
{
    proof {
        reveal_strlit(":");
    }
    let mut combined = String::from_str(title);
    combined.append(":");
    combined.append(timestamp);
    generate_uuid_from_name(combined.as_str())
}

/// The id a task record is read with: its own when it is a UUID, else the
/// name-based UUID of its title and creation time.
pub open spec fn spec_task_id(d: TaskV1_0_0) -> Seq<char> {
    if is_uuid_text(d.id@) {
        d.id@
    } else {
        spec_task_uuid(d.title@, d.created_at@)
    }
}

impl TaskV1_0_0 {
    /// The domain task: the id repaired when it is not a UUID, every other
    /// field carried over, no strategy or journal.
    pub fn into_domain(self) -> (r: Task)
        ensures
            r.id@ == spec_task_id(self),
            is_uuid_text(r.id@),
            r.session_id == self.session_id,
            r.title == self.title,
            r.description == self.description,
            r.status == spec_task_status_from_dto(self.status),
            r.created_at == self.created_at,
            r.updated_at == self.updated_at,
            r.completed_at == self.completed_at,
            r.steps_executed == self.steps_executed,
            r.steps_skipped == self.steps_skipped,
            r.context_keys == self.context_keys,
            r.error == self.error,
            r.result == self.result,
            match self.execution_details {
                Some(d) => r.execution_details matches Some(e) && is_domain_details_of(d, e),
                None => r.execution_details is None,
            },
            r.strategy is None,
            r.journal_log is None,
    {
        let id = if is_valid_uuid(self.id.as_str()) {
            self.id
        } else {
            generate_uuid_from_task(self.title.as_str(), self.created_at.as_str())
        };
        let execution_details = match self.execution_details {
            Some(d) => Some(d.into_domain()),
            None => None,
        };
        Task {
            id,
            session_id: self.session_id,
            title: self.title,
            description: self.description,
            status: self.status.into(),
            created_at: self.created_at,
            updated_at: self.updated_at,
            completed_at: self.completed_at,
            steps_executed: self.steps_executed,
            steps_skipped: self.steps_skipped,
            context_keys: self.context_keys,
            error: self.error,
            result: self.result,
            execution_details,
            strategy: None,
            journal_log: None,
        }
    }

    /// The record of a domain task; its strategy and journal are not kept.
    pub fn from_domain(task: Task) -> (r: Self)
        ensures
            r.id == task.id,
            r.session_id == task.session_id,
            r.title == task.title,
            r.description == task.description,
            r.status == spec_task_status_to_dto(task.status),
            r.created_at == task.created_at,
            r.updated_at == task.updated_at,
            r.completed_at == task.completed_at,
            r.steps_executed == task.steps_executed,
            r.steps_skipped == task.steps_skipped,
            r.context_keys == task.context_keys,
            r.error == task.error,
            r.result == task.result,
            match task.execution_details {
                Some(e) => r.execution_details matches Some(d) && is_details_record_of(e, d),
                None => r.execution_details is None,
            },
    {
        let execution_details = match task.execution_details {
            Some(e) => Some(ExecutionDetailsDTO::from_domain(e)),
            None => None,
        };
        TaskV1_0_0 {
            id: task.id,
            session_id: task.session_id,
            title: task.title,
            description: task.description,
            status: task.status.into(),
            created_at: task.created_at,
            updated_at: task.updated_at,
            completed_at: task.completed_at,
            steps_executed: task.steps_executed,
            steps_skipped: task.steps_skipped,
            context_keys: task.context_keys,
            error: task.error,
            result: task.result,
            execution_details,
        }
    }
}

/// A step survives being stored and read back.
pub proof fn lemma_step_round_trip(s: StepInfo)
    ensures
        spec_step_into_domain(spec_step_from_domain(s)) == s,
{
}

/// Reading a record whose id is a UUID keeps that id; reading it again after
/// the repair keeps the repaired id.
pub proof fn lemma_task_id_repair_stable(d: TaskV1_0_0, repaired: TaskV1_0_0)
    requires
        repaired.id@ == spec_task_id(d),
        repaired.title == d.title,
        repaired.created_at == d.created_at,
    ensures
        is_uuid_text(d.id@) ==> spec_task_id(d) == d.id@,
        is_uuid_text(spec_task_id(d)) ==> spec_task_id(repaired) == spec_task_id(d),
{
}

/// Reading a step record keeps every field in the field of the same name,
/// and so does storing one.
pub proof fn lemma_step_fields_kept(a: StepInfoDTO, b: StepInfo)
    ensures
        spec_step_into_domain(a).id == a.id,
        spec_step_into_domain(a).description == a.description,
        spec_step_into_domain(a).agent == a.agent,
        spec_step_into_domain(a).output == a.output,
        spec_step_into_domain(a).error == a.error,
        spec_step_from_domain(b).id == b.id,
        spec_step_from_domain(b).description == b.description,
        spec_step_from_domain(b).agent == b.agent,
        spec_step_from_domain(b).output == b.output,
        spec_step_from_domain(b).error == b.error,
{
}

} // verus!
