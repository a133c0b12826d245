use orcs::dialogue::{
    all_presets, check_preset_delete, check_preset_save, find_preset, is_system_preset,
    ConversationMode, DialoguePreset, PresetSource, TurnTaking,
};

fn preset(id: &str, source: PresetSource) -> DialoguePreset {
    DialoguePreset {
        id: id.to_string(),
        name: id.to_string(),
        icon: None,
        description: None,
        execution_strategy: TurnTaking::Broadcast,
        conversation_mode: ConversationMode::Normal,
        talk_style: None,
        created_at: "2025-01-01T00:00:00Z".to_string(),
        source,
        default_persona_ids: vec![],
    }
}

#[test]
fn system_ids_start_with_preset_dash() {
    assert!(is_system_preset("preset-brainstorm"));
    assert!(is_system_preset("preset-"));
    assert!(!is_system_preset("preset"));
    assert!(!is_system_preset("my-preset-1"));
}

#[test]
fn system_presets_are_read_only() {
    let msg = "Cannot save system presets. System presets are read-only.".to_string();
    assert_eq!(check_preset_save(&preset("preset-x", PresetSource::User)), Err(msg.clone()));
    assert_eq!(check_preset_save(&preset("mine", PresetSource::System)), Err(msg));
    assert_eq!(check_preset_save(&preset("mine", PresetSource::User)), Ok(()));
    assert_eq!(
        check_preset_delete("preset-x"),
        Err("Cannot delete system presets. System presets are read-only.".to_string())
    );
    assert_eq!(check_preset_delete("mine"), Ok(()));
}

#[test]
fn lookup_and_listing() {
    let system = vec![preset("preset-a", PresetSource::System), preset("preset-b", PresetSource::System)];
    assert_eq!(find_preset(&system, "preset-b"), Some(1));
    assert_eq!(find_preset(&system, "mine"), None);
    let all = all_presets(system, vec![preset("mine", PresetSource::User)]);
    let ids: Vec<&str> = all.iter().map(|p| p.id.as_str()).collect();
    assert_eq!(ids, vec!["preset-a", "preset-b", "mine"]);
}
