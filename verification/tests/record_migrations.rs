use orcs::legacy_dto::PersonaSourceDTO;
use orcs::persona::PersonaBackend;
use orcs::persona_dto::{
    persona_v1_0_to_domain, persona_v1_1_to_domain, PersonaBackendDTO, PersonaConfigV1_0_0,
    PersonaConfigV1_1_0,
};
use orcs::task::{SerializableOrchestrationResult, TaskContext, TaskStatus, TaskStatusDTO};
use orcs::task_dto::{generate_uuid_from_task, TaskV1_0_0};
use orcs::task_execution::ExecutionDetails;
use orcs::uuid_text::{generate_uuid_from_name, is_valid_uuid};
use orcs::workspace_dto::WorkspaceMetadataV1_0;

#[test]
fn test_persona_migration_v1_0_to_domain() {
    let record = PersonaConfigV1_0_0 {
        id: "test-id".to_string(),
        name: "Test".to_string(),
        role: "Tester".to_string(),
        background: "Test background".to_string(),
        communication_style: "Test style".to_string(),
        default_participant: true,
        source: PersonaSourceDTO::User,
    };
    let persona = persona_v1_0_to_domain(record);
    assert_eq!(persona.name, "Test");
    assert_eq!(persona.role, "Tester");
    assert_eq!(persona.backend, PersonaBackend::ClaudeCli);
}

#[test]
fn test_persona_migration_v1_1_to_domain() {
    let record = PersonaConfigV1_1_0 {
        id: "test-id".to_string(),
        name: "Test".to_string(),
        role: "Tester".to_string(),
        background: "Test background".to_string(),
        communication_style: "Test style".to_string(),
        default_participant: true,
        source: PersonaSourceDTO::User,
        backend: PersonaBackendDTO::GeminiCli,
    };
    let persona = persona_v1_1_to_domain(record);
    assert_eq!(persona.name, "Test");
    assert_eq!(persona.backend, PersonaBackend::GeminiCli);
}

fn task_record(id: &str) -> TaskV1_0_0 {
    TaskV1_0_0 {
        id: id.to_string(),
        session_id: "660e8400-e29b-41d4-a716-446655440001".to_string(),
        title: "Test Task".to_string(),
        description: "Test task description".to_string(),
        status: TaskStatusDTO::Completed,
        created_at: "2025-01-01T00:00:00Z".to_string(),
        updated_at: "2025-01-01T00:01:00Z".to_string(),
        completed_at: None,
        steps_executed: 5,
        steps_skipped: 0,
        context_keys: 6,
        error: None,
        result: None,
        execution_details: None,
    }
}

#[test]
fn test_task_migration_v1_0_to_domain() {
    let task = task_record("550e8400-e29b-41d4-a716-446655440000").into_domain();
    assert_eq!(task.title, "Test Task");
    assert_eq!(task.session_id, "660e8400-e29b-41d4-a716-446655440001");
    assert_eq!(task.steps_executed, 5);
    assert_eq!(task.steps_skipped, 0);
    assert_eq!(task.context_keys, 6);
}

#[test]
fn task_with_legacy_id_gets_name_based_uuid() {
    let task = task_record("task-7").into_domain();
    assert!(is_valid_uuid(&task.id));
    assert_eq!(task.id, generate_uuid_from_task("Test Task", "2025-01-01T00:00:00Z"));
    assert_eq!(task.id, generate_uuid_from_name("Test Task:2025-01-01T00:00:00Z"));
    assert_eq!(task.status, TaskStatus::Completed);
    let kept = task_record("550e8400-e29b-41d4-a716-446655440000").into_domain();
    assert_eq!(kept.id, "550e8400-e29b-41d4-a716-446655440000");
}

#[test]
fn task_record_round_trip_keeps_details() {
    let mut task = task_record("550e8400-e29b-41d4-a716-446655440000").into_domain();
    task.execution_details = Some(ExecutionDetails {
        steps: vec![],
        context: vec![("execute".to_string(), "1".to_string())],
    });
    task.strategy = Some("{}".to_string());
    let back = TaskV1_0_0::from_domain(task.clone()).into_domain();
    assert_eq!(back.execution_details, task.execution_details);
    assert_eq!(back.status, TaskStatus::Completed);
    assert!(back.strategy.is_none());
}

#[test]
fn test_workspace_metadata_migration_v1_0_to_domain() {
    let record = WorkspaceMetadataV1_0 {
        id: "test-workspace-id".to_string(),
        name: "Test Workspace".to_string(),
        root_path: "/path/to/project".to_string(),
        last_accessed: 1234567890,
        is_favorite: true,
    };
    let metadata = record.into_domain();
    assert_eq!(metadata.id, "test-workspace-id");
    assert_eq!(metadata.name, "Test Workspace");
    assert_eq!(metadata.root_path, "/path/to/project");
    assert_eq!(metadata.last_accessed, 1234567890);
    assert_eq!(metadata.is_favorite, true);
}

#[test]
fn task_context_equality_ignores_strategy() {
    let result = SerializableOrchestrationResult {
        success: true,
        steps_executed: 2,
        steps_skipped: 0,
        error: None,
        terminated: false,
        termination_reason: None,
    };
    let a = TaskContext {
        id: "t".to_string(),
        status: TaskStatus::Running,
        request: "do it".to_string(),
        strategy: Some("{\"steps\":[]}".to_string()),
        result: Some(result.clone()),
    };
    let mut b = a.clone();
    b.strategy = None;
    assert!(a == b);
    let mut c = a.clone();
    c.request = "other".to_string();
    assert!(a != c);
    let mut d = a.clone();
    d.result = None;
    assert!(a != d);
}

#[test]
fn persona_records_of_any_schema_read_into_the_domain() {
    let record = PersonaConfigV1_0_0 {
        id: "legacy-name".to_string(),
        name: "Legacy".to_string(),
        role: "Role".to_string(),
        background: "Background".to_string(),
        communication_style: "Style".to_string(),
        default_participant: false,
        source: PersonaSourceDTO::User,
    };
    let p = orcs::persona_dto::persona_record_to_domain(orcs::persona_dto::PersonaRecord::V1_0_0(record));
    assert!(is_valid_uuid(&p.id));
    assert_eq!(p.id, generate_uuid_from_name("Legacy"));
    assert_eq!(p.backend, PersonaBackend::ClaudeCli);
    assert!(p.model_name.is_none() && p.icon.is_none() && p.base_color.is_none());
}
