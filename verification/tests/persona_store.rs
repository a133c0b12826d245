use orcs::persona::{orphaned_ids, Persona, PersonaBackend, PersonaSource};

fn persona(id: &str) -> Persona {
    Persona {
        id: id.to_string(),
        name: format!("Persona {}", id),
        role: "Role".to_string(),
        background: "Background".to_string(),
        communication_style: "Style".to_string(),
        default_participant: false,
        source: PersonaSource::User,
        backend: PersonaBackend::ClaudeCli,
        model_name: None,
        icon: None,
        base_color: None,
    }
}

#[test]
fn stored_personas_missing_from_new_list_are_orphaned() {
    let stored = vec!["a".to_string(), "b".to_string(), "c".to_string()];
    let new_list = vec![persona("b"), persona("d")];
    assert_eq!(orphaned_ids(&stored, &new_list), vec!["a".to_string(), "c".to_string()]);
    assert!(orphaned_ids(&stored, &vec![persona("a"), persona("b"), persona("c")]).is_empty());
    assert_eq!(orphaned_ids(&stored, &vec![]), stored);
}
