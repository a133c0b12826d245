use orcs::quick_action::{QuickActionConfig, QuickActionConfigV1_0_0, QuickActionSlot, QuickActionSlotV1_0_0, default_max_visible_slots};
use orcs::secret::{ClaudeConfig, SecretConfig, SecretConfigV1_0_0};
use orcs::slash_command::{CommandType, SlashCommand};
use orcs::slash_command_dto::{slash_command_v1_to_domain, SlashCommandV1, SlashCommandV1_5};
use orcs::workspace::WorkspaceMetadata;
use orcs::workspace_dto::WorkspaceMetadataV1_0;

fn v1(t: CommandType) -> SlashCommandV1 {
    SlashCommandV1 {
        name: "build".to_string(),
        icon: "B".to_string(),
        description: "Build".to_string(),
        command_type: t,
        content: "cargo build".to_string(),
        working_dir: Some("/tmp".to_string()),
    }
}

#[test]
fn old_commands_are_offered_in_prompts_unless_tasks() {
    let c = slash_command_v1_to_domain(v1(CommandType::Shell));
    assert!(c.include_in_system_prompt);
    assert!(!c.is_favorite && c.sort_order.is_none());
    assert!(c.args_description.is_none() && c.task_blueprint.is_none() && c.action_config.is_none());
    assert_eq!(c.working_dir.as_deref(), Some("/tmp"));
    let t = slash_command_v1_to_domain(v1(CommandType::Task));
    assert!(!t.include_in_system_prompt);
}

#[test]
fn stepwise_migration_keeps_fields() {
    let v13 = v1(CommandType::Prompt).migrate().migrate().migrate();
    assert_eq!(v13.name, "build");
    assert!(v13.action_config.is_none());
    let v14 = v13.migrate();
    assert!(v14.include_in_system_prompt);
    let v15 = v14.migrate();
    assert!(!v15.is_favorite);
}

#[test]
fn command_round_trip() {
    let mut c: SlashCommand = slash_command_v1_to_domain(v1(CommandType::Action));
    c.is_favorite = true;
    c.sort_order = Some(4);
    let d = SlashCommandV1_5::from_command(&c);
    let back = d.into_domain();
    assert_eq!(back.name, c.name);
    assert_eq!(back.sort_order, Some(4));
    assert!(back.is_favorite);
    let back2 = SlashCommandV1_5::from_domain(c.clone()).into_domain();
    assert_eq!(back2.content, "cargo build");
}

#[test]
fn quick_action_defaults_and_round_trip() {
    let d = QuickActionConfig::default();
    assert_eq!(d.slots.len(), 10);
    assert!(d.slots.iter().all(|s| s.command_name.is_none()));
    assert_eq!(d.slots[0].slot_id, "A");
    assert_eq!(d.slots[9].slot_id, "J");
    assert_eq!(d.max_visible_slots, 10);
    assert_eq!(default_max_visible_slots(), 10);
    let mut c = d.clone();
    c.slots[1] = QuickActionSlot {
        slot_id: "B".to_string(),
        command_name: Some("review".to_string()),
        icon: Some("R".to_string()),
        color: None,
    };
    let rec = QuickActionConfigV1_0_0::from_domain(&c);
    assert_eq!(rec.slots[1].command_name.as_deref(), Some("review"));
    assert_eq!(rec.into_domain(), c);
    let slot = QuickActionSlotV1_0_0::from_domain(&c.slots[1]).into_domain();
    assert_eq!(slot, c.slots[1]);
}

#[test]
fn secrets_round_trip_and_default() {
    let d = SecretConfigV1_0_0::default();
    assert!(d.claude.is_none() && d.gemini.is_none() && d.openai.is_none());
    let c = SecretConfig {
        claude: Some(ClaudeConfig { api_key: "k".to_string() }),
        gemini: None,
        openai: None,
    };
    assert_eq!(SecretConfigV1_0_0::from_domain(c.clone()).into_domain(), c);
    assert_eq!(SecretConfig::default().claude, None);
}

#[test]
fn workspace_metadata_round_trip() {
    let m = WorkspaceMetadata {
        id: "ws-123".to_string(),
        name: "My Project".to_string(),
        root_path: "/home/user/project".to_string(),
        last_accessed: 9876543210,
        is_favorite: false,
    };
    assert_eq!(WorkspaceMetadataV1_0::from_domain(m.clone()).into_domain(), m);
    let d = WorkspaceMetadataV1_0::default();
    assert_eq!(d.id, "");
    assert_eq!(d.last_accessed, 0);
    assert!(!d.is_favorite);
}

#[test]
fn slash_command_records_of_any_schema_read_as_the_latest() {
    let r = orcs::slash_command_dto::migrate_slash_command_to_latest(orcs::slash_command_dto::SlashCommandRecord::V1(v1(CommandType::Task)));
    assert_eq!(r.name, "build");
    assert!(!r.include_in_system_prompt);
    assert!(!r.is_favorite && r.sort_order.is_none() && r.args_description.is_none());
    let r = orcs::slash_command_dto::migrate_slash_command_to_latest(orcs::slash_command_dto::SlashCommandRecord::V1(v1(CommandType::Shell)));
    assert!(r.include_in_system_prompt);
}
