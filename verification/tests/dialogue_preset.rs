use orcs::dialogue::{ConversationMode, ConversationStyle, DialoguePreset, PresetSource, TurnTaking};
use orcs::dialogue_preset_dto::{DialoguePresetV1_0_0, DialoguePresetV1_1_0};

fn make_v1_0_0(execution_strategy: &str, talk_style: Option<&str>) -> DialoguePresetV1_0_0 {
    DialoguePresetV1_0_0 {
        id: "test-id".to_string(),
        name: "Test".to_string(),
        icon: Some("T".to_string()),
        description: Some("desc".to_string()),
        execution_strategy: execution_strategy.to_string(),
        conversation_mode: ConversationMode::Normal,
        talk_style: talk_style.map(|s| s.to_string()),
        created_at: "2025-01-01T00:00:00Z".to_string(),
        source: PresetSource::User,
    }
}

#[test]
fn migrate_v1_0_0_to_v1_1_0_broadcast() {
    // ExecutionModel uses snake_case, TalkStyle uses PascalCase
    let v1 = make_v1_0_0(r#""broadcast""#, Some(r#""Brainstorm""#));
    let v1_1 = v1.migrate();

    assert!(matches!(v1_1.execution_strategy, TurnTaking::Broadcast));
    assert_eq!(v1_1.talk_style, Some(ConversationStyle::Brainstorm));
    assert!(v1_1.default_persona_ids.is_empty());
}

#[test]
fn migrate_v1_0_0_to_v1_1_0_sequential() {
    let v1 = make_v1_0_0(r#""sequential""#, Some(r#""Review""#));
    let v1_1 = v1.migrate();

    assert!(matches!(v1_1.execution_strategy, TurnTaking::Sequential));
    assert_eq!(v1_1.talk_style, Some(ConversationStyle::Review));
}

#[test]
fn migrate_v1_0_0_to_v1_1_0_none_talk_style() {
    let v1 = make_v1_0_0(r#""broadcast""#, None);
    let v1_1 = v1.migrate();

    assert_eq!(v1_1.talk_style, None);
}

#[test]
fn migrate_v1_0_0_to_v1_1_0_invalid_strategy_falls_back_to_broadcast() {
    let v1 = make_v1_0_0("invalid-json", Some(r#""Casual""#));
    let v1_1 = v1.migrate();

    assert!(matches!(v1_1.execution_strategy, TurnTaking::Broadcast));
    assert_eq!(v1_1.talk_style, Some(ConversationStyle::Casual));
}

#[test]
fn migrate_v1_0_0_to_v1_1_0_invalid_talk_style_becomes_none() {
    let v1 = make_v1_0_0(r#""broadcast""#, Some("invalid-json"));
    let v1_1 = v1.migrate();

    assert_eq!(v1_1.talk_style, None);
}

#[test]
fn into_domain_roundtrip() {
    let domain = DialoguePreset {
        id: "roundtrip".to_string(),
        name: "Roundtrip".to_string(),
        icon: Some("R".to_string()),
        description: Some("desc".to_string()),
        execution_strategy: TurnTaking::Sequential,
        conversation_mode: ConversationMode::Brief,
        talk_style: Some(ConversationStyle::Planning),
        created_at: "2025-01-01T00:00:00Z".to_string(),
        source: PresetSource::User,
        default_persona_ids: vec!["p1".to_string(), "p2".to_string()],
    };

    let dto = DialoguePresetV1_1_0::from_domain(domain.clone());
    let restored = dto.into_domain();

    assert_eq!(restored.id, domain.id);
    assert_eq!(restored.name, domain.name);
    assert_eq!(restored.icon, domain.icon);
    assert_eq!(restored.description, domain.description);
    assert!(matches!(restored.execution_strategy, TurnTaking::Sequential));
    assert_eq!(restored.conversation_mode, domain.conversation_mode);
    assert_eq!(restored.talk_style, domain.talk_style);
    assert_eq!(restored.created_at, domain.created_at);
    assert_eq!(restored.source, domain.source);
    assert_eq!(restored.default_persona_ids, domain.default_persona_ids);
}

#[test]
fn migrate_reads_structured_models_and_templates() {
    let v1 = make_v1_0_0(
        r#"{"mentioned":{"strategy":"partial"}}"#,
        Some(r#"{"Template":{"name":"Code Review","description":"d","guidelines":["g"],"expected_behaviors":[]}}"#),
    );
    let v1_1 = v1.migrate();
    assert_eq!(
        v1_1.execution_strategy,
        TurnTaking::Mentioned { strategy: orcs::dialogue::MentionMatching::Partial }
    );
    match v1_1.talk_style {
        Some(ConversationStyle::Template(t)) => {
            assert_eq!(t.name, "Code Review");
            assert_eq!(t.guidelines, vec!["g".to_string()]);
        }
        other => panic!("unexpected talk style {:?}", other),
    }
    assert_eq!(v1_1.id, "test-id");
    assert_eq!(v1_1.icon, Some("T".to_string()));
}

#[test]
fn migrate_reads_moderator_and_ordered_models() {
    assert_eq!(make_v1_0_0(r#""moderator""#, None).migrate().execution_strategy, TurnTaking::Moderator);
    assert_eq!(
        make_v1_0_0(r#"{"ordered_sequential":{"explicit":["a","b"]}}"#, None).migrate().execution_strategy,
        TurnTaking::OrderedSequential(orcs::dialogue::SequenceOrder::Explicit(vec!["a".to_string(), "b".to_string()]))
    );
    assert_eq!(
        make_v1_0_0(r#"{"ordered_broadcast":"participant_order"}"#, None).migrate().execution_strategy,
        TurnTaking::OrderedBroadcast(orcs::dialogue::ResponseOrder::ParticipantOrder)
    );
}
