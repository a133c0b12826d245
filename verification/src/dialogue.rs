//! Dialogue settings: how participants take turns (execution model), the
//! style of a conversation, and saved presets of both.
//!
//! The execution models and talk styles are those of `llm_toolkit`'s
//! dialogue agent, held here as plain values; stored JSON text is read with
//! `serde_json` into `llm_toolkit`'s types and handed over field by field.

use vstd::prelude::*;
use llm_toolkit::agent::dialogue as toolkit;
use crate::text::{has_prefix, str_eq};

verus! {

/// How `@mentions` in a message are matched against participants.
#[derive(Debug, Clone, Copy, PartialEq, Eq, Structural)]
pub enum MentionMatching {
    /// `@word`: the characters after `@` up to whitespace.
    ExactWord,
    /// `@Full Name`: an exact full name, spaces included.
    Name,
    /// The longest participant name the mention is a prefix of.
    Partial,
}

/// Order in which broadcast responses are yielded.
#[derive(Debug, Clone, PartialEq, Eq)]
pub enum ResponseOrder {
    /// As each participant finishes.
    Completion,
    /// In the order participants were added.
    ParticipantOrder,
    /// In the given order of participant names.
    Explicit(Vec<String>),
}

/// Order of execution of a sequential dialogue.
#[derive(Debug, Clone, PartialEq, Eq)]
pub enum SequenceOrder {
    /// In the order participants were added.
    AsAdded,
    /// The named participants first, in the given order, then the others.
    Explicit(Vec<String>),
}

/// How participants take turns.
#[derive(Debug, Clone, PartialEq, Eq)]
pub enum TurnTaking {
    /// One after another, each output chained as the next input.
    Sequential,
    /// Sequential, in a controlled order.
    OrderedSequential(SequenceOrder),
    /// All respond to the same input.
    Broadcast,
    /// Broadcast, yielding responses in a controlled order.
    OrderedBroadcast(ResponseOrder),
    /// Only mentioned participants respond (everyone when none is mentioned).
    Mentioned { strategy: MentionMatching },
    /// A moderator decides the model for each turn.
    Moderator,
}

/// A custom talk style.
#[derive(Debug, Clone, PartialEq, Eq)]
pub struct StyleTemplate {
    pub name: String,
    pub description: String,
    pub guidelines: Vec<String>,
    pub expected_behaviors: Vec<String>,
}

/// The style of a conversation.
#[derive(Debug, Clone, PartialEq, Eq)]
pub enum ConversationStyle {
    Brainstorm,
    Casual,
    DecisionMaking,
    Debate,
    ProblemSolving,
    Review,
    Planning,
    Research,
    Template(StyleTemplate),
}

/// Length and tone of the answers in a session.
#[derive(Debug, Clone, Copy, PartialEq, Eq, Structural)]
pub enum ConversationMode {
    Normal,
    Concise,
    Brief,
}

impl Default for ConversationMode {
    /// Normal answers.
    fn default() -> (r: Self)
        ensures
            r == ConversationMode::Normal,
    {
        ConversationMode::Normal
    }
}

/// Where a dialogue preset comes from.
#[derive(Debug, Clone, Copy, PartialEq, Eq, Structural)]
pub enum PresetSource {
    /// Shipped with the application.
    System,
    /// Created by the user.
    User,
}

impl Default for PresetSource {
    fn default() -> (r: Self)
        ensures
            r == PresetSource::User,
    {
        PresetSource::User
    }
}

/// A saved combination of dialogue settings.
#[derive(Debug, Clone)]
pub struct DialoguePreset {
    pub id: String,
    pub name: String,
    pub icon: Option<String>,
    pub description: Option<String>,
    pub execution_strategy: TurnTaking,
    pub conversation_mode: ConversationMode,
    pub talk_style: Option<ConversationStyle>,
    pub created_at: String,
    pub source: PresetSource,
    /// Personas added when the preset is applied (empty: none).
    pub default_persona_ids: Vec<String>,
}

#[verifier::external_type_specification]
#[verifier::external_body]
pub struct ExToolkitTalkStyle(toolkit::TalkStyle);

#[verifier::external_type_specification]
#[verifier::external_body]
pub struct ExToolkitExecutionModel(toolkit::ExecutionModel);

#[verifier::external_type_specification]
#[verifier::external_body]
pub struct ExToolkitSequentialOrder(toolkit::SequentialOrder);

#[verifier::external_type_specification]
#[verifier::external_body]
pub struct ExToolkitBroadcastOrder(toolkit::BroadcastOrder);

#[verifier::external_type_specification]
#[verifier::external_body]
pub struct ExToolkitMentionMatchStrategy(toolkit::MentionMatchStrategy);

/// What `serde_json::from_str::<llm_toolkit TalkStyle>` gives for a text,
/// held as this crate's `ConversationStyle`; None when the text is refused.
pub uninterp spec fn talk_style_from_json(text: Seq<char>) -> Option<ConversationStyle>;

/// What `serde_json::from_str::<llm_toolkit ExecutionModel>` gives for a
/// text, held as this crate's `TurnTaking`; None when the text is refused.
pub uninterp spec fn execution_model_from_json(text: Seq<char>) -> Option<TurnTaking>;

/// The same talk style, variant for variant.
#[verifier::external_body]
fn talk_style_of(s: toolkit::TalkStyle) -> ConversationStyle {
    match s {
        toolkit::TalkStyle::Brainstorm => ConversationStyle::Brainstorm,
        toolkit::TalkStyle::Casual => ConversationStyle::Casual,
        toolkit::TalkStyle::DecisionMaking => ConversationStyle::DecisionMaking,
        toolkit::TalkStyle::Debate => ConversationStyle::Debate,
        toolkit::TalkStyle::ProblemSolving => ConversationStyle::ProblemSolving,
        toolkit::TalkStyle::Review => ConversationStyle::Review,
        toolkit::TalkStyle::Planning => ConversationStyle::Planning,
        toolkit::TalkStyle::Research => ConversationStyle::Research,
        toolkit::TalkStyle::Template(t) => ConversationStyle::Template(StyleTemplate { name: t.name, description: t.description, guidelines: t.guidelines, expected_behaviors: t.expected_behaviors }),
    }
}

/// The same mention strategy, variant for variant.
#[verifier::external_body]
fn mention_strategy_of(s: toolkit::MentionMatchStrategy) -> MentionMatching {
    match s {
        toolkit::MentionMatchStrategy::ExactWord => MentionMatching::ExactWord,
        toolkit::MentionMatchStrategy::Name => MentionMatching::Name,
        toolkit::MentionMatchStrategy::Partial => MentionMatching::Partial,
    }
}

/// The same sequential order, variant for variant.
#[verifier::external_body]
fn sequential_order_of(o: toolkit::SequentialOrder) -> SequenceOrder {
    match o {
        toolkit::SequentialOrder::AsAdded => SequenceOrder::AsAdded,
        toolkit::SequentialOrder::Explicit(names) => SequenceOrder::Explicit(names),
    }
}

/// The same broadcast order, variant for variant.
#[verifier::external_body]
fn broadcast_order_of(o: toolkit::BroadcastOrder) -> ResponseOrder {
    match o {
        toolkit::BroadcastOrder::Completion => ResponseOrder::Completion,
        toolkit::BroadcastOrder::ParticipantOrder => ResponseOrder::ParticipantOrder,
        toolkit::BroadcastOrder::Explicit(names) => ResponseOrder::Explicit(names),
    }
}

/// The same execution model, variant for variant.
#[verifier::external_body]
fn execution_model_of(m: toolkit::ExecutionModel) -> TurnTaking {
    match m {
        toolkit::ExecutionModel::Sequential => TurnTaking::Sequential,
        toolkit::ExecutionModel::OrderedSequential(o) => TurnTaking::OrderedSequential(sequential_order_of(o)),
        toolkit::ExecutionModel::Broadcast => TurnTaking::Broadcast,
        toolkit::ExecutionModel::OrderedBroadcast(o) => TurnTaking::OrderedBroadcast(broadcast_order_of(o)),
        toolkit::ExecutionModel::Mentioned { strategy } => TurnTaking::Mentioned { strategy: mention_strategy_of(strategy) },
        toolkit::ExecutionModel::Moderator => TurnTaking::Moderator,
    }
}

/// `serde_json::from_str` of a talk style.
///
/// Claimed: the outcome is a function of the text alone (named
/// `talk_style_from_json`); the JSON grammar and serde's enum encoding are
/// not restated.
#[verifier::external_body]
pub(crate) fn parse_talk_style_json(text: &str) -> (r: Option<ConversationStyle>)
    ensures
        r == talk_style_from_json(text@),
{
    serde_json::from_str::<toolkit::TalkStyle>(text).ok().map(talk_style_of)
}

/// `serde_json::from_str` of an execution model.
///
/// Claimed: the outcome is a function of the text alone (named
/// `execution_model_from_json`); the JSON grammar and serde's enum encoding
/// are not restated.
#[verifier::external_body]
pub(crate) fn parse_execution_model_json(text: &str) -> (r: Option<TurnTaking>)
    ensures
        r == execution_model_from_json(text@),
{
    serde_json::from_str::<toolkit::ExecutionModel>(text).ok().map(execution_model_of)
}

/// What `serde_json::from_str::<llm_toolkit MentionMatchStrategy>` gives
/// for a text, held as this crate's `MentionMatching`; None when refused.
pub uninterp spec fn mention_matching_from_json(text: Seq<char>) -> Option<MentionMatching>;

/// `serde_json::from_str` of a mention strategy.
///
/// Claimed: the outcome is a function of the text alone (named
/// `mention_matching_from_json`), and the quoted snake-case name of a variant
/// reads as that variant (the type derives `Deserialize` with
/// `rename_all = "snake_case"`).
#[verifier::external_body]
pub(crate) fn parse_mention_matching_json(text: &str) -> (r: Option<MentionMatching>)
    ensures
        r == mention_matching_from_json(text@),
        forall|m: MentionMatching| text@ == mention_matching_json_text(m) ==> r == Some(m),
{
    serde_json::from_str::<toolkit::MentionMatchStrategy>(text).ok().map(mention_strategy_of)
}

/// The JSON text `serde_json::to_string` writes for a mention strategy: the
/// variant's name in snake case, quoted (the type is a unit-variant enum with
/// `rename_all = "snake_case"`).
pub open spec fn mention_matching_json_text(s: MentionMatching) -> Seq<char> {
    match s {
        MentionMatching::ExactWord => "\"exact_word\""@,
        MentionMatching::Name => "\"name\""@,
        MentionMatching::Partial => "\"partial\""@,
    }
}

/// `serde_json::to_string` of a mention strategy.
///
/// Claimed: it succeeds, with the quoted snake-case name of the variant.
#[verifier::external_body]
pub(crate) fn mention_matching_to_json(s: MentionMatching) -> (r: Option<String>)
    ensures
        r is Some,
        r.unwrap()@ == mention_matching_json_text(s),
{
    let toolkit_value = match s {
        MentionMatching::ExactWord => toolkit::MentionMatchStrategy::ExactWord,
        MentionMatching::Name => toolkit::MentionMatchStrategy::Name,
        MentionMatching::Partial => toolkit::MentionMatchStrategy::Partial,
    };
    serde_json::to_string(&toolkit_value).ok()
}

impl Default for MentionMatching {
    fn default() -> (r: Self)
        ensures
            r == MentionMatching::ExactWord,
    {
        MentionMatching::ExactWord
    }
}

// ============================================================================
// Preset store rules
// ============================================================================

/// Identifiers of system presets start with "preset-".
pub open spec fn spec_is_system_preset_id(id: Seq<char>) -> bool {
    "preset-"@.len() <= id.len() && id.subrange(0, "preset-"@.len() as int) == "preset-"@
}

/// Whether an identifier names a system preset.
pub fn is_system_preset(preset_id: &str) -> (r: bool)
    ensures
        r == spec_is_system_preset_id(preset_id@),
{
    has_prefix(preset_id, "preset-")
}

/// Whether a preset may be saved: user presets only. A preset marked as a
/// system preset, or whose identifier is a system one, is refused.
pub fn check_preset_save(preset: &DialoguePreset) -> (r: Result<(), String>)
    ensures
        (preset.source == PresetSource::System || spec_is_system_preset_id(preset.id@)) ==> (r matches Err(m)
            && m@ == "Cannot save system presets. System presets are read-only."@),
        !(preset.source == PresetSource::System || spec_is_system_preset_id(preset.id@)) ==> r is Ok,
{
    if preset.source == PresetSource::System || is_system_preset(preset.id.as_str()) {
        proof {
            reveal_strlit("Cannot save system presets. System presets are read-only.");
        }
        Err(String::from_str("Cannot save system presets. System presets are read-only."))
    } else {
        Ok(())
    }
}

/// Whether a preset may be deleted: not when its identifier is a system one.
pub fn check_preset_delete(preset_id: &str) -> (r: Result<(), String>)
    ensures
        spec_is_system_preset_id(preset_id@) ==> (r matches Err(m)
            && m@ == "Cannot delete system presets. System presets are read-only."@),
        !spec_is_system_preset_id(preset_id@) ==> r is Ok,
{
    if is_system_preset(preset_id) {
        proof {
            reveal_strlit("Cannot delete system presets. System presets are read-only.");
        }
        Err(String::from_str("Cannot delete system presets. System presets are read-only."))
    } else {
        Ok(())
    }
}

/// `i` is the first preset with identifier `id`.
pub open spec fn is_first_preset(presets: Seq<DialoguePreset>, id: Seq<char>, i: int) -> bool {
    &&& 0 <= i < presets.len()
    &&& presets[i].id@ == id
    &&& forall|j: int| 0 <= j < i ==> (#[trigger] presets[j]).id@ != id
}

/// The position of the first preset with identifier `id`, if any; system
/// presets are looked up this way before the stored ones are read.
pub fn find_preset(presets: &Vec<DialoguePreset>, id: &str) -> (r: Option<usize>)
    ensures
        match r {
            Some(i) => is_first_preset(presets@, id@, i as int),
            None => forall|j: int| 0 <= j < presets@.len() ==> (#[trigger] presets@[j]).id@ != id@,
        },
{
    let n = presets.len();
    let mut i: usize = 0;
    while i < n
        invariant
            n == presets@.len(),
            i <= n,
            forall|j: int| 0 <= j < i ==> (#[trigger] presets@[j]).id@ != id@,
        decreases n - i,
    {
        if str_eq(presets[i].id.as_str(), id) {
            return Some(i);
        }
        i = i + 1;
    }
    None
}

/// All presets: the system ones first, then the stored ones, in order.
pub fn all_presets(system: Vec<DialoguePreset>, user: Vec<DialoguePreset>) -> (r: Vec<DialoguePreset>)
    ensures
        r@ == system@ + user@,
{
    let mut all = system;
    let mut user = user;
    all.append(&mut user);
    all
}

} // verus!
