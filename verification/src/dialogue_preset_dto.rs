//! Dialogue preset records. 1.0.0 kept the execution model and the talk
//! style as JSON text; 1.1.0 holds them typed and adds default personas.
//! Migrating reads the JSON: an execution model that does not read falls
//! back to broadcast, a talk style that does not read becomes no style.

use vstd::prelude::*;
use crate::dialogue::{
    ConversationMode, DialoguePreset, TurnTaking, PresetSource, ConversationStyle,
    execution_model_from_json, parse_execution_model_json, parse_talk_style_json,
    talk_style_from_json,
};

verus! {

/// Dialogue preset record, schema 1.0.0.
#[derive(Debug, Clone)]
pub struct DialoguePresetV1_0_0 {
    pub id: String,
    pub name: String,
    pub icon: Option<String>,
    pub description: Option<String>,
    /// JSON text of an execution model.
    pub execution_strategy: String,
    pub conversation_mode: ConversationMode,
    /// JSON text of a talk style (None: no style).
    pub talk_style: Option<String>,
    pub created_at: String,
    pub source: PresetSource,
}

/// Dialogue preset record, schema 1.1.0.
#[derive(Debug, Clone)]
pub struct DialoguePresetV1_1_0 {
    pub id: String,
    pub name: String,
    pub icon: Option<String>,
    pub description: Option<String>,
    pub execution_strategy: TurnTaking,
    pub conversation_mode: ConversationMode,
    pub talk_style: Option<ConversationStyle>,
    pub created_at: String,
    pub source: PresetSource,
    /// Personas added when the preset is applied (empty: none).
    pub default_persona_ids: Vec<String>,
}

/// The execution model a 1.0.0 record's text stands for.
pub open spec fn spec_execution_model_of_text(text: Seq<char>) -> TurnTaking {
    match execution_model_from_json(text) {
        Some(m) => m,
        None => TurnTaking::Broadcast,
    }
}

/// The talk style a 1.0.0 record's optional text stands for.
pub open spec fn spec_talk_style_of_text(text: Option<String>) -> Option<ConversationStyle> {
    match text {
        Some(t) => talk_style_from_json(t@),
        None => None,
    }
}

impl DialoguePresetV1_0_0 {
    /// Migrates to 1.1.0: the JSON texts are read (an unreadable execution
    /// model becomes broadcast, an unreadable talk style none) and no default
    /// personas are set.
    pub fn migrate(self) -> (r: DialoguePresetV1_1_0)
        ensures
            r.id == self.id,
            r.name == self.name,
            r.icon == self.icon,
            r.description == self.description,
            r.execution_strategy == spec_execution_model_of_text(self.execution_strategy@),
            r.conversation_mode == self.conversation_mode,
            r.talk_style == spec_talk_style_of_text(self.talk_style),
            r.created_at == self.created_at,
            r.source == self.source,
            r.default_persona_ids@.len() == 0,
    {
        let execution_strategy = match parse_execution_model_json(self.execution_strategy.as_str()) {
            Some(m) => m,
            None => TurnTaking::Broadcast,
        };
        let talk_style = match &self.talk_style {
            Some(t) => parse_talk_style_json(t.as_str()),
            None => None,
        };
        DialoguePresetV1_1_0 {
            id: self.id,
            name: self.name,
            icon: self.icon,
            description: self.description,
            execution_strategy,
            conversation_mode: self.conversation_mode,
            talk_style,
            created_at: self.created_at,
            source: self.source,
            default_persona_ids: Vec::new(),
        }
    }
}

/// The domain preset of a 1.1.0 record: every field carried over.
pub open spec fn spec_preset_into_domain(d: DialoguePresetV1_1_0) -> DialoguePreset {
    DialoguePreset {
        id: d.id,
        name: d.name,
        icon: d.icon,
        description: d.description,
        execution_strategy: d.execution_strategy,
        conversation_mode: d.conversation_mode,
        talk_style: d.talk_style,
        created_at: d.created_at,
        source: d.source,
        default_persona_ids: d.default_persona_ids,
    }
}

/// The 1.1.0 record of a domain preset.
pub open spec fn spec_preset_from_domain(p: DialoguePreset) -> DialoguePresetV1_1_0 {
    DialoguePresetV1_1_0 {
        id: p.id,
        name: p.name,
        icon: p.icon,
        description: p.description,
        execution_strategy: p.execution_strategy,
        conversation_mode: p.conversation_mode,
        talk_style: p.talk_style,
        created_at: p.created_at,
        source: p.source,
        default_persona_ids: p.default_persona_ids,
    }
}

impl DialoguePresetV1_1_0 {
    /// The domain preset.
    pub fn into_domain(self) -> (r: DialoguePreset)
        ensures
            r == spec_preset_into_domain(self),
    {
        DialoguePreset {
            id: self.id,
            name: self.name,
            icon: self.icon,
            description: self.description,
            execution_strategy: self.execution_strategy,
            conversation_mode: self.conversation_mode,
            talk_style: self.talk_style,
            created_at: self.created_at,
            source: self.source,
            default_persona_ids: self.default_persona_ids,
        }
    }

    /// The record of a domain preset.
    pub fn from_domain(preset: DialoguePreset) -> (r: Self)
        ensures
            r == spec_preset_from_domain(preset),
    {
        DialoguePresetV1_1_0 {
            id: preset.id,
            name: preset.name,
            icon: preset.icon,
            description: preset.description,
            execution_strategy: preset.execution_strategy,
            conversation_mode: preset.conversation_mode,
            talk_style: preset.talk_style,
            created_at: preset.created_at,
            source: preset.source,
            default_persona_ids: preset.default_persona_ids,
        }
    }
}

/// Storing a preset and reading it back gives the preset again.
pub proof fn lemma_preset_round_trip(p: DialoguePreset)
    ensures
        spec_preset_into_domain(spec_preset_from_domain(p)) == p,
{
}

/// Reading a dialogue preset record keeps every field in the field of the same
/// name, and so does storing one.
pub proof fn lemma_preset_fields_kept(a: DialoguePresetV1_1_0, b: DialoguePreset)
    ensures
        spec_preset_into_domain(a).id == a.id,
        spec_preset_into_domain(a).name == a.name,
        spec_preset_into_domain(a).icon == a.icon,
        spec_preset_into_domain(a).description == a.description,
        spec_preset_into_domain(a).execution_strategy == a.execution_strategy,
        spec_preset_into_domain(a).conversation_mode == a.conversation_mode,
        spec_preset_into_domain(a).talk_style == a.talk_style,
        spec_preset_into_domain(a).created_at == a.created_at,
        spec_preset_into_domain(a).source == a.source,
        spec_preset_into_domain(a).default_persona_ids == a.default_persona_ids,
        spec_preset_from_domain(b).id == b.id,
        spec_preset_from_domain(b).name == b.name,
        spec_preset_from_domain(b).icon == b.icon,
        spec_preset_from_domain(b).description == b.description,
        spec_preset_from_domain(b).execution_strategy == b.execution_strategy,
        spec_preset_from_domain(b).conversation_mode == b.conversation_mode,
        spec_preset_from_domain(b).talk_style == b.talk_style,
        spec_preset_from_domain(b).created_at == b.created_at,
        spec_preset_from_domain(b).source == b.source,
        spec_preset_from_domain(b).default_persona_ids == b.default_persona_ids,
{
}

} // verus!
