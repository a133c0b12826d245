use orcs::dialogue::{ConversationMode, MentionMatching, SequenceOrder, TurnTaking};
use orcs::session::{AppMode, MessageRole};
use orcs::session_dto::{ExecutionStrategyV1_0_0, ExecutionStrategyV2_0_0};
use orcs::session_record::{
    load_session_v1_0_0, sort_sessions_most_recent_first, ChatSession, MessageMetadata,
    SessionMessage, SessionV1_0_0, SessionV2_5_0, SessionV2_9_0, SessionV3_4_0, SessionV4_0_0,
};
use std::collections::HashMap;

fn msg(role: MessageRole, content: &str, kind: Option<&str>) -> SessionMessage {
    SessionMessage {
        role,
        content: content.to_string(),
        timestamp: "t".to_string(),
        metadata: MessageMetadata { system_message_type: kind.map(|k| k.to_string()) },
    }
}

fn v1(histories: Vec<(String, Vec<SessionMessage>)>) -> SessionV1_0_0 {
    SessionV1_0_0 {
        id: "s1".to_string(),
        name: "First chat".to_string(),
        created_at: "c".to_string(),
        updated_at: "u".to_string(),
        current_persona_id: "mai".to_string(),
        persona_histories: histories,
        app_mode: AppMode::Idle,
    }
}

#[test]
fn oldest_session_loads_with_defaults() {
    let hist = vec![(
        "mai".to_string(),
        vec![msg(MessageRole::System, "joined", None), msg(MessageRole::User, "hi", None)],
    )];
    let s = load_session_v1_0_0(v1(hist));
    assert_eq!(s.title, "First chat");
    assert_eq!(s.workspace_id, "placeholder-workspace");
    assert_eq!(s.execution_strategy, TurnTaking::Broadcast);
    assert_eq!(s.conversation_mode, ConversationMode::Normal);
    assert!(s.active_participant_ids.is_empty() && s.system_messages.is_empty());
    assert!(s.participants.is_empty() && s.participant_models.is_empty());
    assert!(!s.is_favorite && !s.is_archived && s.sort_order.is_none());
    assert!(s.auto_chat_config.is_none() && s.talk_style.is_none());
    let msgs = &s.persona_histories[0].1;
    assert_eq!(msgs[0].metadata.system_message_type.as_deref(), Some("system"));
    assert_eq!(msgs[1].metadata.system_message_type, None);
}

fn v2_5() -> SessionV2_5_0 {
    SessionV2_5_0 {
        id: "s".to_string(),
        title: "t".to_string(),
        created_at: "c".to_string(),
        updated_at: "u".to_string(),
        current_persona_id: "p".to_string(),
        persona_histories: vec![],
        app_mode: AppMode::Idle,
        workspace_id: Some("w".to_string()),
        active_participant_ids: vec!["p".to_string()],
        execution_strategy: "Sequential".to_string(),
        system_messages: vec![
            msg(MessageRole::System, "left", Some("leave")),
            msg(MessageRole::System, "note", None),
        ],
        participants: HashMap::new(),
        conversation_mode: ConversationMode::Brief,
        talk_style: None,
    }
}

#[test]
fn normalization_fills_only_missing_system_types() {
    let s = v2_5().migrate();
    assert_eq!(s.system_messages[0].metadata.system_message_type.as_deref(), Some("leave"));
    assert_eq!(s.system_messages[1].metadata.system_message_type.as_deref(), Some("system"));
    assert_eq!(s.system_messages[1].content, "note");
}

#[test]
fn strategy_names_are_read_case_insensitively_except_mentioned() {
    let s = v2_5().migrate().migrate();
    assert_eq!(s.execution_strategy, ExecutionStrategyV1_0_0::Sequential);
    let mut r = v2_5();
    r.execution_strategy = "mentioned".to_string();
    assert_eq!(r.migrate().migrate().execution_strategy, ExecutionStrategyV1_0_0::Broadcast);
    let mut r = v2_5();
    r.execution_strategy = "whatever".to_string();
    assert_eq!(r.migrate().migrate().execution_strategy, ExecutionStrategyV1_0_0::Broadcast);
}

#[test]
fn workspace_is_kept_when_present() {
    let v29: SessionV2_9_0 = v2_5().migrate().migrate().migrate().migrate();
    let v3 = v29.migrate();
    assert_eq!(v3.workspace_id, "w");
}

#[test]
fn v4_migration_clears_backends_and_models() {
    let v34: SessionV3_4_0 = v2_5()
        .migrate()
        .migrate()
        .migrate()
        .migrate()
        .migrate()
        .migrate()
        .migrate()
        .migrate()
        .migrate();
    let mut v34 = v34;
    v34.participant_backends.insert("p".to_string(), "gemini_api".to_string());
    v34.participant_models.insert("p".to_string(), None);
    v34.execution_strategy = ExecutionStrategyV1_0_0::Mentioned;
    let v4: SessionV4_0_0 = v34.migrate();
    assert!(v4.participant_backends.is_empty() && v4.participant_models.is_empty());
    assert_eq!(v4.execution_strategy, ExecutionStrategyV2_0_0::Mentioned { strategy: None });
}

fn chat(id: &str, updated: &str) -> ChatSession {
    let mut s = load_session_v1_0_0(v1(vec![]));
    s.id = id.to_string();
    s.updated_at = updated.to_string();
    s
}

#[test]
fn store_and_load_keeps_the_session() {
    let mut s = chat("a", "2024");
    s.execution_strategy = TurnTaking::Sequential;
    s.is_favorite = true;
    s.sort_order = Some(-2);
    let back = SessionV4_0_0::from_domain(s.clone()).into_domain();
    assert_eq!(back.id, "a");
    assert!(back.is_favorite);
    assert_eq!(back.sort_order, Some(-2));
    assert_eq!(back.execution_strategy, TurnTaking::Sequential);
}

#[test]
fn sessions_sort_most_recent_first() {
    let sorted = sort_sessions_most_recent_first(vec![
        chat("a", "2024-01-02"),
        chat("b", "2024-03-01"),
        chat("c", "2024-01-02"),
        chat("d", "2023-12-31"),
    ]);
    let ids: Vec<&str> = sorted.iter().map(|s| s.id.as_str()).collect();
    assert_eq!(ids, vec!["b", "a", "c", "d"]);
    assert!(sort_sessions_most_recent_first(vec![]).is_empty());
}

#[test]
fn turn_taking_after_store_and_load() {
    let mut s = chat("m", "2024");
    s.execution_strategy = TurnTaking::Mentioned { strategy: MentionMatching::Name };
    let back = SessionV4_0_0::from_domain(s).into_domain();
    assert_eq!(back.execution_strategy, TurnTaking::Mentioned { strategy: MentionMatching::Name });
    let mut s = chat("o", "2024");
    s.execution_strategy = TurnTaking::OrderedSequential(SequenceOrder::AsAdded);
    let rec = SessionV4_0_0::from_domain(s);
    assert_eq!(rec.execution_strategy, ExecutionStrategyV2_0_0::Sequential);
    let mut s = chat("x", "2024");
    s.execution_strategy = TurnTaking::Moderator;
    assert_eq!(SessionV4_0_0::from_domain(s).execution_strategy, ExecutionStrategyV2_0_0::Broadcast);
    let rec = SessionV4_0_0::from_domain({
        let mut s = chat("y", "2024");
        s.execution_strategy = TurnTaking::Mentioned { strategy: MentionMatching::Partial };
        s
    });
    assert_eq!(
        rec.execution_strategy,
        ExecutionStrategyV2_0_0::Mentioned { strategy: Some("\"partial\"".to_string()) }
    );
}

#[test]
fn any_schema_migrates_to_the_latest() {
    let r = orcs::session_record::migrate_session_to_latest(orcs::session_record::SessionRecord::V1_0_0(v1(vec![])));
    assert_eq!(r.id, "s1");
    assert_eq!(r.title, "First chat");
    assert_eq!(r.created_at, "c");
    assert_eq!(r.updated_at, "u");
    assert_eq!(r.current_persona_id, "mai");
    assert_eq!(r.workspace_id, "placeholder-workspace");
    let again = orcs::session_record::migrate_session_to_latest(orcs::session_record::SessionRecord::V4_0_0(r.clone()));
    assert_eq!(again.id, r.id);
    assert_eq!(again.workspace_id, r.workspace_id);
}
