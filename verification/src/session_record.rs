//! Sessions as the application holds them today, and their stored records
//! from schema 1.0.0 to 4.0.0.
//!
//! Each schema is migrated to the next: fields are carried over and new ones
//! get their defaults. Two steps change data: 2.5.0 to 2.6.0 gives every
//! system-role message without a message type the type "system", and 2.9.0 to
//! 3.0.0 gives a session without a workspace the placeholder workspace id.
//! The execution strategy is stored by name up to 2.6.0, then as a strategy
//! value (schema 1.0.0 of strategies), and from 4.0.0 as a strategy value of
//! schema 2.0.0, which is read into a turn-taking model.

use vstd::prelude::*;
use std::collections::HashMap;
use crate::dialogue::{
    ConversationMode, ConversationStyle, MentionMatching, TurnTaking, mention_matching_json_text,
};
use crate::session::{AppMode, MessageRole};
use crate::session_dto::{
    ExecutionStrategyV1_0_0, ExecutionStrategyV2_0_0, is_stored_strategy_of, lemma_plain_strategy_names,
    spec_migrate_strategy, spec_strategy_into_domain, spec_strategy_of_name,
};
use crate::text::{clone_opt_string, lemma_text_lt_asymmetric, lemma_text_lt_transitive, text_less, text_lt};
use vstd::multiset::Multiset;

verus! {

/// Metadata kept with a message.
#[derive(Debug, Clone, PartialEq, Eq)]
pub struct MessageMetadata {
    /// Kind of system message ("system", a join or leave notice, ...); None
    /// for ordinary messages.
    pub system_message_type: Option<String>,
}

impl Default for MessageMetadata {
    /// No system message type.
    fn default() -> (r: Self)
        ensures
            r.system_message_type is None,
    {
        MessageMetadata { system_message_type: None }
    }
}

/// One message of a session.
#[derive(Debug, Clone, PartialEq, Eq)]
pub struct SessionMessage {
    pub role: MessageRole,
    pub content: String,
    /// ISO 8601 timestamp.
    pub timestamp: String,
    pub metadata: MessageMetadata,
}

/// The AutoChat settings of a session, kept as the JSON text they were
/// stored as; nothing in this library reads them.
#[derive(Debug, Clone, PartialEq, Eq)]
pub struct AutoChatConfig {
    pub settings_json: String,
}

/// A conversation session.
#[derive(Debug, Clone)]
pub struct ChatSession {
    pub id: String,
    pub title: String,
    /// ISO 8601 timestamp of creation.
    pub created_at: String,
    /// ISO 8601 timestamp of the last update.
    pub updated_at: String,
    /// The persona currently speaking.
    pub current_persona_id: String,
    /// Conversation history of each persona, keyed by persona id.
    pub persona_histories: Vec<(String, Vec<SessionMessage>)>,
    pub app_mode: AppMode,
    /// The workspace the session belongs to.
    pub workspace_id: String,
    /// Persona ids of the active participants.
    pub active_participant_ids: Vec<String>,
    /// How participants take turns.
    pub execution_strategy: TurnTaking,
    /// System messages (join and leave notices, ...).
    pub system_messages: Vec<SessionMessage>,
    /// Display name of each participant, by persona id.
    pub participants: HashMap<String, String>,
    /// Icon of each participant, by persona id.
    pub participant_icons: HashMap<String, String>,
    /// Base color of each participant, by persona id.
    pub participant_colors: HashMap<String, String>,
    /// Backend of each participant, by persona id.
    pub participant_backends: HashMap<String, String>,
    /// Model name of each participant, by persona id.
    pub participant_models: HashMap<String, Option<String>>,
    pub conversation_mode: ConversationMode,
    pub talk_style: Option<ConversationStyle>,
    /// Pinned to the top of the session list.
    pub is_favorite: bool,
    /// Hidden from the session list by default.
    pub is_archived: bool,
    /// Manual position among favorites (lower first).
    pub sort_order: Option<i32>,
    /// AutoChat settings (None: AutoChat off).
    pub auto_chat_config: Option<AutoChatConfig>,
}

/// Workspace id given to sessions stored without a workspace.
pub open spec fn spec_placeholder_workspace_id() -> Seq<char> {
    "placeholder-workspace"@
}

/// Workspace id given to sessions stored without a workspace.
pub fn placeholder_workspace_id() -> (r: String)
    ensures
        r@ == spec_placeholder_workspace_id(),
{
    proof {
        reveal_strlit("placeholder-workspace");
    }
    "placeholder-workspace".to_string()
}

/// The workspace id of a session: its own, or the placeholder.
pub open spec fn spec_workspace_or_placeholder(w: Option<String>) -> Seq<char> {
    match w {
        Some(id) => id@,
        None => spec_placeholder_workspace_id(),
    }
}

/// Strategy name of sessions stored before they kept one.
pub fn default_execution_strategy() -> (r: String)
    ensures
        r@ == "broadcast"@,
{
    proof {
        reveal_strlit("broadcast");
    }
    "broadcast".to_string()
}

/// `r` is message `m` with its type filled in: a system-role message
/// without a message type gets the type "system"; anything else is kept.
pub open spec fn message_normalized(m: SessionMessage, r: SessionMessage) -> bool {
    &&& r.role == m.role
    &&& r.content == m.content
    &&& r.timestamp == m.timestamp
    &&& if m.metadata.system_message_type is None && m.role == MessageRole::System {
        r.metadata.system_message_type matches Some(t) && t@ == "system"@
    } else {
        r.metadata == m.metadata
    }
}

/// `r` is `ms`, message by message normalized.
pub open spec fn messages_normalized(ms: Seq<SessionMessage>, r: Seq<SessionMessage>) -> bool {
    &&& r.len() == ms.len()
    &&& forall|i: int| 0 <= i < ms.len() ==> message_normalized(ms[i], #[trigger] r[i])
}

/// `r` has the keys of `h`, in order, each with its messages normalized.
pub open spec fn histories_normalized(
    h: Seq<(String, Vec<SessionMessage>)>,
    r: Seq<(String, Vec<SessionMessage>)>,
) -> bool {
    &&& r.len() == h.len()
    &&& forall|i: int|
        0 <= i < h.len() ==> (#[trigger] r[i]).0 == h[i].0 && messages_normalized(h[i].1@, r[i].1@)
}

/// Normalizes one message.
fn normalize_message(m: &SessionMessage) -> (r: SessionMessage)
    ensures
        message_normalized(*m, r),
{
    let system_message_type = if m.metadata.system_message_type.is_none() && m.role
        == MessageRole::System {
        proof {
            reveal_strlit("system");
        }
        Some("system".to_string())
    } else {
        clone_opt_string(&m.metadata.system_message_type)
    };
    SessionMessage {
        role: m.role,
        content: m.content.clone(),
        timestamp: m.timestamp.clone(),
        metadata: MessageMetadata { system_message_type },
    }
}

/// Normalizes a list of messages, keeping their order.
fn normalize_conversation_messages(ms: &Vec<SessionMessage>) -> (r: Vec<SessionMessage>)
    ensures
        messages_normalized(ms@, r@),
{
    let mut r: Vec<SessionMessage> = Vec::new();
    let mut i: usize = 0;
    while i < ms.len()
        invariant
            i <= ms@.len(),
            r@.len() == i,
            forall|j: int| 0 <= j < i ==> message_normalized(ms@[j], #[trigger] r@[j]),
        decreases ms@.len() - i,
    {
        let m = normalize_message(&ms[i]);
        r.push(m);
        i = i + 1;
    }
    r
}

/// Normalizes every history, keeping keys and order.
fn normalize_histories(h: &Vec<(String, Vec<SessionMessage>)>) -> (r: Vec<(String, Vec<SessionMessage>)>)
    ensures
        histories_normalized(h@, r@),
{
    let mut r: Vec<(String, Vec<SessionMessage>)> = Vec::new();
    let mut i: usize = 0;
    while i < h.len()
        invariant
            i <= h@.len(),
            r@.len() == i,
            forall|j: int|
                0 <= j < i ==> (#[trigger] r@[j]).0 == h@[j].0 && messages_normalized(h@[j].1@, r@[j].1@),
        decreases h@.len() - i,
    {
        let key = h[i].0.clone();
        let messages = normalize_conversation_messages(&h[i].1);
        r.push((key, messages));
        i = i + 1;
    }
    r
}

/// Session record, schema 1.0.0: the session's name is kept under `name`.
#[derive(Debug, Clone)]
pub struct SessionV1_0_0 {
    pub id: String,
    pub name: String,
    pub created_at: String,
    pub updated_at: String,
    pub current_persona_id: String,
    pub persona_histories: Vec<(String, Vec<SessionMessage>)>,
    pub app_mode: AppMode,
}

/// Session record, schema 1.1.0: `name` renamed to `title`.
#[derive(Debug, Clone)]
pub struct SessionV1_1_0 {
    pub id: String,
    pub title: String,
    pub created_at: String,
    pub updated_at: String,
    pub current_persona_id: String,
    pub persona_histories: Vec<(String, Vec<SessionMessage>)>,
    pub app_mode: AppMode,
}

/// Session record, schema 2.0.0: adds the workspace the session belongs to (optional).
#[derive(Debug, Clone)]
pub struct SessionV2_0_0 {
    pub id: String,
    pub title: String,
    pub created_at: String,
    pub updated_at: String,
    pub current_persona_id: String,
    pub persona_histories: Vec<(String, Vec<SessionMessage>)>,
    pub app_mode: AppMode,
    pub workspace_id: Option<String>,
}

/// Session record, schema 2.1.0: adds the active participants and the execution strategy, by name.
#[derive(Debug, Clone)]
pub struct SessionV2_1_0 {
    pub id: String,
    pub title: String,
    pub created_at: String,
    pub updated_at: String,
    pub current_persona_id: String,
    pub persona_histories: Vec<(String, Vec<SessionMessage>)>,
    pub app_mode: AppMode,
    pub workspace_id: Option<String>,
    pub active_participant_ids: Vec<String>,
    pub execution_strategy: String,
}

/// Session record, schema 2.2.0: adds system messages (join and leave notices).
#[derive(Debug, Clone)]
pub struct SessionV2_2_0 {
    pub id: String,
    pub title: String,
    pub created_at: String,
    pub updated_at: String,
    pub current_persona_id: String,
    pub persona_histories: Vec<(String, Vec<SessionMessage>)>,
    pub app_mode: AppMode,
    pub workspace_id: Option<String>,
    pub active_participant_ids: Vec<String>,
    pub execution_strategy: String,
    pub system_messages: Vec<SessionMessage>,
}

/// Session record, schema 2.3.0: adds the display names of participants, by persona id.
#[derive(Debug, Clone)]
pub struct SessionV2_3_0 {
    pub id: String,
    pub title: String,
    pub created_at: String,
    pub updated_at: String,
    pub current_persona_id: String,
    pub persona_histories: Vec<(String, Vec<SessionMessage>)>,
    pub app_mode: AppMode,
    pub workspace_id: Option<String>,
    pub active_participant_ids: Vec<String>,
    pub execution_strategy: String,
    pub system_messages: Vec<SessionMessage>,
    pub participants: HashMap<String, String>,
}

/// Session record, schema 2.4.0: adds the conversation mode.
#[derive(Debug, Clone)]
pub struct SessionV2_4_0 {
    pub id: String,
    pub title: String,
    pub created_at: String,
    pub updated_at: String,
    pub current_persona_id: String,
    pub persona_histories: Vec<(String, Vec<SessionMessage>)>,
    pub app_mode: AppMode,
    pub workspace_id: Option<String>,
    pub active_participant_ids: Vec<String>,
    pub execution_strategy: String,
    pub system_messages: Vec<SessionMessage>,
    pub participants: HashMap<String, String>,
    pub conversation_mode: ConversationMode,
}

/// Session record, schema 2.5.0: adds the talk style.
#[derive(Debug, Clone)]
pub struct SessionV2_5_0 {
    pub id: String,
    pub title: String,
    pub created_at: String,
    pub updated_at: String,
    pub current_persona_id: String,
    pub persona_histories: Vec<(String, Vec<SessionMessage>)>,
    pub app_mode: AppMode,
    pub workspace_id: Option<String>,
    pub active_participant_ids: Vec<String>,
    pub execution_strategy: String,
    pub system_messages: Vec<SessionMessage>,
    pub participants: HashMap<String, String>,
    pub conversation_mode: ConversationMode,
    pub talk_style: Option<ConversationStyle>,
}

/// Session record, schema 2.6.0: same fields; every system message carries its message type.
#[derive(Debug, Clone)]
pub struct SessionV2_6_0 {
    pub id: String,
    pub title: String,
    pub created_at: String,
    pub updated_at: String,
    pub current_persona_id: String,
    pub persona_histories: Vec<(String, Vec<SessionMessage>)>,
    pub app_mode: AppMode,
    pub workspace_id: Option<String>,
    pub active_participant_ids: Vec<String>,
    pub execution_strategy: String,
    pub system_messages: Vec<SessionMessage>,
    pub participants: HashMap<String, String>,
    pub conversation_mode: ConversationMode,
    pub talk_style: Option<ConversationStyle>,
}

/// Session record, schema 2.7.0: the execution strategy becomes a typed value.
#[derive(Debug, Clone)]
pub struct SessionV2_7_0 {
    pub id: String,
    pub title: String,
    pub created_at: String,
    pub updated_at: String,
    pub current_persona_id: String,
    pub persona_histories: Vec<(String, Vec<SessionMessage>)>,
    pub app_mode: AppMode,
    pub workspace_id: Option<String>,
    pub active_participant_ids: Vec<String>,
    pub execution_strategy: ExecutionStrategyV1_0_0,
    pub system_messages: Vec<SessionMessage>,
    pub participants: HashMap<String, String>,
    pub conversation_mode: ConversationMode,
    pub talk_style: Option<ConversationStyle>,
}

/// Session record, schema 2.8.0: adds participant icons.
#[derive(Debug, Clone)]
pub struct SessionV2_8_0 {
    pub id: String,
    pub title: String,
    pub created_at: String,
    pub updated_at: String,
    pub current_persona_id: String,
    pub persona_histories: Vec<(String, Vec<SessionMessage>)>,
    pub app_mode: AppMode,
    pub workspace_id: Option<String>,
    pub active_participant_ids: Vec<String>,
    pub execution_strategy: ExecutionStrategyV1_0_0,
    pub system_messages: Vec<SessionMessage>,
    pub participants: HashMap<String, String>,
    pub participant_icons: HashMap<String, String>,
    pub conversation_mode: ConversationMode,
    pub talk_style: Option<ConversationStyle>,
}

/// Session record, schema 2.9.0: adds participant colors.
#[derive(Debug, Clone)]
pub struct SessionV2_9_0 {
    pub id: String,
    pub title: String,
    pub created_at: String,
    pub updated_at: String,
    pub current_persona_id: String,
    pub persona_histories: Vec<(String, Vec<SessionMessage>)>,
    pub app_mode: AppMode,
    pub workspace_id: Option<String>,
    pub active_participant_ids: Vec<String>,
    pub execution_strategy: ExecutionStrategyV1_0_0,
    pub system_messages: Vec<SessionMessage>,
    pub participants: HashMap<String, String>,
    pub participant_icons: HashMap<String, String>,
    pub participant_colors: HashMap<String, String>,
    pub conversation_mode: ConversationMode,
    pub talk_style: Option<ConversationStyle>,
}

/// Session record, schema 3.0.0: the workspace becomes required.
#[derive(Debug, Clone)]
pub struct SessionV3_0_0 {
    pub id: String,
    pub title: String,
    pub created_at: String,
    pub updated_at: String,
    pub current_persona_id: String,
    pub persona_histories: Vec<(String, Vec<SessionMessage>)>,
    pub app_mode: AppMode,
    pub workspace_id: String,
    pub active_participant_ids: Vec<String>,
    pub execution_strategy: ExecutionStrategyV1_0_0,
    pub system_messages: Vec<SessionMessage>,
    pub participants: HashMap<String, String>,
    pub participant_icons: HashMap<String, String>,
    pub participant_colors: HashMap<String, String>,
    pub conversation_mode: ConversationMode,
    pub talk_style: Option<ConversationStyle>,
}

/// Session record, schema 3.1.0: adds the favorite and archived flags.
#[derive(Debug, Clone)]
pub struct SessionV3_1_0 {
    pub id: String,
    pub title: String,
    pub created_at: String,
    pub updated_at: String,
    pub current_persona_id: String,
    pub persona_histories: Vec<(String, Vec<SessionMessage>)>,
    pub app_mode: AppMode,
    pub workspace_id: String,
    pub active_participant_ids: Vec<String>,
    pub execution_strategy: ExecutionStrategyV1_0_0,
    pub system_messages: Vec<SessionMessage>,
    pub participants: HashMap<String, String>,
    pub participant_icons: HashMap<String, String>,
    pub participant_colors: HashMap<String, String>,
    pub conversation_mode: ConversationMode,
    pub talk_style: Option<ConversationStyle>,
    pub is_favorite: bool,
    pub is_archived: bool,
}

/// Session record, schema 3.2.0: adds a manual sort order.
#[derive(Debug, Clone)]
pub struct SessionV3_2_0 {
    pub id: String,
    pub title: String,
    pub created_at: String,
    pub updated_at: String,
    pub current_persona_id: String,
    pub persona_histories: Vec<(String, Vec<SessionMessage>)>,
    pub app_mode: AppMode,
    pub workspace_id: String,
    pub active_participant_ids: Vec<String>,
    pub execution_strategy: ExecutionStrategyV1_0_0,
    pub system_messages: Vec<SessionMessage>,
    pub participants: HashMap<String, String>,
    pub participant_icons: HashMap<String, String>,
    pub participant_colors: HashMap<String, String>,
    pub conversation_mode: ConversationMode,
    pub talk_style: Option<ConversationStyle>,
    pub is_favorite: bool,
    pub is_archived: bool,
    pub sort_order: Option<i32>,
}

/// Session record, schema 3.3.0: adds the AutoChat settings.
#[derive(Debug, Clone)]
pub struct SessionV3_3_0 {
    pub id: String,
    pub title: String,
    pub created_at: String,
    pub updated_at: String,
    pub current_persona_id: String,
    pub persona_histories: Vec<(String, Vec<SessionMessage>)>,
    pub app_mode: AppMode,
    pub workspace_id: String,
    pub active_participant_ids: Vec<String>,
    pub execution_strategy: ExecutionStrategyV1_0_0,
    pub system_messages: Vec<SessionMessage>,
    pub participants: HashMap<String, String>,
    pub participant_icons: HashMap<String, String>,
    pub participant_colors: HashMap<String, String>,
    pub conversation_mode: ConversationMode,
    pub talk_style: Option<ConversationStyle>,
    pub is_favorite: bool,
    pub is_archived: bool,
    pub sort_order: Option<i32>,
    pub auto_chat_config: Option<AutoChatConfig>,
}

/// Session record, schema 3.4.0: adds participant backends and models.
#[derive(Debug, Clone)]
pub struct SessionV3_4_0 {
    pub id: String,
    pub title: String,
    pub created_at: String,
    pub updated_at: String,
    pub current_persona_id: String,
    pub persona_histories: Vec<(String, Vec<SessionMessage>)>,
    pub app_mode: AppMode,
    pub workspace_id: String,
    pub active_participant_ids: Vec<String>,
    pub execution_strategy: ExecutionStrategyV1_0_0,
    pub system_messages: Vec<SessionMessage>,
    pub participants: HashMap<String, String>,
    pub participant_icons: HashMap<String, String>,
    pub participant_colors: HashMap<String, String>,
    pub participant_backends: HashMap<String, String>,
    pub participant_models: HashMap<String, Option<String>>,
    pub conversation_mode: ConversationMode,
    pub talk_style: Option<ConversationStyle>,
    pub is_favorite: bool,
    pub is_archived: bool,
    pub sort_order: Option<i32>,
    pub auto_chat_config: Option<AutoChatConfig>,
}

/// Session record, schema 4.0.0: the execution strategy moves to schema 2.0.0.
#[derive(Debug, Clone)]
pub struct SessionV4_0_0 {
    pub id: String,
    pub title: String,
    pub created_at: String,
    pub updated_at: String,
    pub current_persona_id: String,
    pub persona_histories: Vec<(String, Vec<SessionMessage>)>,
    pub app_mode: AppMode,
    pub workspace_id: String,
    pub active_participant_ids: Vec<String>,
    pub execution_strategy: ExecutionStrategyV2_0_0,
    pub system_messages: Vec<SessionMessage>,
    pub participants: HashMap<String, String>,
    pub participant_icons: HashMap<String, String>,
    pub participant_colors: HashMap<String, String>,
    pub participant_backends: HashMap<String, String>,
    pub participant_models: HashMap<String, Option<String>>,
    pub conversation_mode: ConversationMode,
    pub talk_style: Option<ConversationStyle>,
    pub is_favorite: bool,
    pub is_archived: bool,
    pub sort_order: Option<i32>,
    pub auto_chat_config: Option<AutoChatConfig>,
}

/// One migration step, 1.0.0 to 1.1.0: what `migrate` makes of `a`.
pub open spec fn spec_step_v1_0_0(a: SessionV1_0_0, b: SessionV1_1_0) -> bool {
    &&& b.id == a.id
    &&& b.title == a.name
    &&& b.created_at == a.created_at
    &&& b.updated_at == a.updated_at
    &&& b.current_persona_id == a.current_persona_id
    &&& b.persona_histories == a.persona_histories
    &&& b.app_mode == a.app_mode
}

/// One migration step, 1.1.0 to 2.0.0: what `migrate` makes of `a`.
pub open spec fn spec_step_v1_1_0(a: SessionV1_1_0, b: SessionV2_0_0) -> bool {
    &&& b.id == a.id
    &&& b.title == a.title
    &&& b.created_at == a.created_at
    &&& b.updated_at == a.updated_at
    &&& b.current_persona_id == a.current_persona_id
    &&& b.persona_histories == a.persona_histories
    &&& b.app_mode == a.app_mode
    &&& b.workspace_id is None
}

/// One migration step, 2.0.0 to 2.1.0: what `migrate` makes of `a`.
pub open spec fn spec_step_v2_0_0(a: SessionV2_0_0, b: SessionV2_1_0) -> bool {
    &&& b.id == a.id
    &&& b.title == a.title
    &&& b.created_at == a.created_at
    &&& b.updated_at == a.updated_at
    &&& b.current_persona_id == a.current_persona_id
    &&& b.persona_histories == a.persona_histories
    &&& b.app_mode == a.app_mode
    &&& b.workspace_id == a.workspace_id
    &&& b.active_participant_ids@.len() == 0
    &&& b.execution_strategy@ == "broadcast"@
}

/// One migration step, 2.1.0 to 2.2.0: what `migrate` makes of `a`.
pub open spec fn spec_step_v2_1_0(a: SessionV2_1_0, b: SessionV2_2_0) -> bool {
    &&& b.id == a.id
    &&& b.title == a.title
    &&& b.created_at == a.created_at
    &&& b.updated_at == a.updated_at
    &&& b.current_persona_id == a.current_persona_id
    &&& b.persona_histories == a.persona_histories
    &&& b.app_mode == a.app_mode
    &&& b.workspace_id == a.workspace_id
    &&& b.active_participant_ids == a.active_participant_ids
    &&& b.execution_strategy == a.execution_strategy
    &&& b.system_messages@.len() == 0
}

/// One migration step, 2.2.0 to 2.3.0: what `migrate` makes of `a`.
pub open spec fn spec_step_v2_2_0(a: SessionV2_2_0, b: SessionV2_3_0) -> bool {
    &&& b.id == a.id
    &&& b.title == a.title
    &&& b.created_at == a.created_at
    &&& b.updated_at == a.updated_at
    &&& b.current_persona_id == a.current_persona_id
    &&& b.persona_histories == a.persona_histories
    &&& b.app_mode == a.app_mode
    &&& b.workspace_id == a.workspace_id
    &&& b.active_participant_ids == a.active_participant_ids
    &&& b.execution_strategy == a.execution_strategy
    &&& b.system_messages == a.system_messages
    &&& b.participants@ == Map::<String, String>::empty()
}

/// One migration step, 2.3.0 to 2.4.0: what `migrate` makes of `a`.
pub open spec fn spec_step_v2_3_0(a: SessionV2_3_0, b: SessionV2_4_0) -> bool {
    &&& b.id == a.id
    &&& b.title == a.title
    &&& b.created_at == a.created_at
    &&& b.updated_at == a.updated_at
    &&& b.current_persona_id == a.current_persona_id
    &&& b.persona_histories == a.persona_histories
    &&& b.app_mode == a.app_mode
    &&& b.workspace_id == a.workspace_id
    &&& b.active_participant_ids == a.active_participant_ids
    &&& b.execution_strategy == a.execution_strategy
    &&& b.system_messages == a.system_messages
    &&& b.participants == a.participants
    &&& b.conversation_mode == ConversationMode::Normal
}

/// One migration step, 2.4.0 to 2.5.0: what `migrate` makes of `a`.
pub open spec fn spec_step_v2_4_0(a: SessionV2_4_0, b: SessionV2_5_0) -> bool {
    &&& b.id == a.id
    &&& b.title == a.title
    &&& b.created_at == a.created_at
    &&& b.updated_at == a.updated_at
    &&& b.current_persona_id == a.current_persona_id
    &&& b.persona_histories == a.persona_histories
    &&& b.app_mode == a.app_mode
    &&& b.workspace_id == a.workspace_id
    &&& b.active_participant_ids == a.active_participant_ids
    &&& b.execution_strategy == a.execution_strategy
    &&& b.system_messages == a.system_messages
    &&& b.participants == a.participants
    &&& b.conversation_mode == a.conversation_mode
    &&& b.talk_style is None
}

/// One migration step, 2.5.0 to 2.6.0: what `migrate` makes of `a`.
pub open spec fn spec_step_v2_5_0(a: SessionV2_5_0, b: SessionV2_6_0) -> bool {
    &&& b.id == a.id
    &&& b.title == a.title
    &&& b.created_at == a.created_at
    &&& b.updated_at == a.updated_at
    &&& b.current_persona_id == a.current_persona_id
    &&& histories_normalized(a.persona_histories@, b.persona_histories@)
    &&& b.app_mode == a.app_mode
    &&& b.workspace_id == a.workspace_id
    &&& b.active_participant_ids == a.active_participant_ids
    &&& b.execution_strategy == a.execution_strategy
    &&& messages_normalized(a.system_messages@, b.system_messages@)
    &&& b.participants == a.participants
    &&& b.conversation_mode == a.conversation_mode
    &&& b.talk_style == a.talk_style
}

/// One migration step, 2.6.0 to 2.7.0: what `migrate` makes of `a`.
pub open spec fn spec_step_v2_6_0(a: SessionV2_6_0, b: SessionV2_7_0) -> bool {
    &&& b.id == a.id
    &&& b.title == a.title
    &&& b.created_at == a.created_at
    &&& b.updated_at == a.updated_at
    &&& b.current_persona_id == a.current_persona_id
    &&& b.persona_histories == a.persona_histories
    &&& b.app_mode == a.app_mode
    &&& b.workspace_id == a.workspace_id
    &&& b.active_participant_ids == a.active_participant_ids
    &&& b.execution_strategy == spec_strategy_of_name(a.execution_strategy@)
    &&& b.system_messages == a.system_messages
    &&& b.participants == a.participants
    &&& b.conversation_mode == a.conversation_mode
    &&& b.talk_style == a.talk_style
}

/// One migration step, 2.7.0 to 2.8.0: what `migrate` makes of `a`.
pub open spec fn spec_step_v2_7_0(a: SessionV2_7_0, b: SessionV2_8_0) -> bool {
    &&& b.id == a.id
    &&& b.title == a.title
    &&& b.created_at == a.created_at
    &&& b.updated_at == a.updated_at
    &&& b.current_persona_id == a.current_persona_id
    &&& b.persona_histories == a.persona_histories
    &&& b.app_mode == a.app_mode
    &&& b.workspace_id == a.workspace_id
    &&& b.active_participant_ids == a.active_participant_ids
    &&& b.execution_strategy == a.execution_strategy
    &&& b.system_messages == a.system_messages
    &&& b.participants == a.participants
    &&& b.participant_icons@ == Map::<String, String>::empty()
    &&& b.conversation_mode == a.conversation_mode
    &&& b.talk_style == a.talk_style
}

/// One migration step, 2.8.0 to 2.9.0: what `migrate` makes of `a`.
pub open spec fn spec_step_v2_8_0(a: SessionV2_8_0, b: SessionV2_9_0) -> bool {
    &&& b.id == a.id
    &&& b.title == a.title
    &&& b.created_at == a.created_at
    &&& b.updated_at == a.updated_at
    &&& b.current_persona_id == a.current_persona_id
    &&& b.persona_histories == a.persona_histories
    &&& b.app_mode == a.app_mode
    &&& b.workspace_id == a.workspace_id
    &&& b.active_participant_ids == a.active_participant_ids
    &&& b.execution_strategy == a.execution_strategy
    &&& b.system_messages == a.system_messages
    &&& b.participants == a.participants
    &&& b.participant_icons == a.participant_icons
    &&& b.participant_colors@ == Map::<String, String>::empty()
    &&& b.conversation_mode == a.conversation_mode
    &&& b.talk_style == a.talk_style
}

/// One migration step, 2.9.0 to 3.0.0: what `migrate` makes of `a`.
pub open spec fn spec_step_v2_9_0(a: SessionV2_9_0, b: SessionV3_0_0) -> bool {
    &&& b.id == a.id
    &&& b.title == a.title
    &&& b.created_at == a.created_at
    &&& b.updated_at == a.updated_at
    &&& b.current_persona_id == a.current_persona_id
    &&& b.persona_histories == a.persona_histories
    &&& b.app_mode == a.app_mode
    &&& b.workspace_id@ == spec_workspace_or_placeholder(a.workspace_id)
    &&& b.active_participant_ids == a.active_participant_ids
    &&& b.execution_strategy == a.execution_strategy
    &&& b.system_messages == a.system_messages
    &&& b.participants == a.participants
    &&& b.participant_icons == a.participant_icons
    &&& b.participant_colors == a.participant_colors
    &&& b.conversation_mode == a.conversation_mode
    &&& b.talk_style == a.talk_style
}

/// One migration step, 3.0.0 to 3.1.0: what `migrate` makes of `a`.
pub open spec fn spec_step_v3_0_0(a: SessionV3_0_0, b: SessionV3_1_0) -> bool {
    &&& b.id == a.id
    &&& b.title == a.title
    &&& b.created_at == a.created_at
    &&& b.updated_at == a.updated_at
    &&& b.current_persona_id == a.current_persona_id
    &&& b.persona_histories == a.persona_histories
    &&& b.app_mode == a.app_mode
    &&& b.workspace_id == a.workspace_id
    &&& b.active_participant_ids == a.active_participant_ids
    &&& b.execution_strategy == a.execution_strategy
    &&& b.system_messages == a.system_messages
    &&& b.participants == a.participants
    &&& b.participant_icons == a.participant_icons
    &&& b.participant_colors == a.participant_colors
    &&& b.conversation_mode == a.conversation_mode
    &&& b.talk_style == a.talk_style
    &&& !b.is_favorite
    &&& !b.is_archived
}

/// One migration step, 3.1.0 to 3.2.0: what `migrate` makes of `a`.
pub open spec fn spec_step_v3_1_0(a: SessionV3_1_0, b: SessionV3_2_0) -> bool {
    &&& b.id == a.id
    &&& b.title == a.title
    &&& b.created_at == a.created_at
    &&& b.updated_at == a.updated_at
    &&& b.current_persona_id == a.current_persona_id
    &&& b.persona_histories == a.persona_histories
    &&& b.app_mode == a.app_mode
    &&& b.workspace_id == a.workspace_id
    &&& b.active_participant_ids == a.active_participant_ids
    &&& b.execution_strategy == a.execution_strategy
    &&& b.system_messages == a.system_messages
    &&& b.participants == a.participants
    &&& b.participant_icons == a.participant_icons
    &&& b.participant_colors == a.participant_colors
    &&& b.conversation_mode == a.conversation_mode
    &&& b.talk_style == a.talk_style
    &&& b.is_favorite == a.is_favorite
    &&& b.is_archived == a.is_archived
    &&& b.sort_order is None
}

/// One migration step, 3.2.0 to 3.3.0: what `migrate` makes of `a`.
pub open spec fn spec_step_v3_2_0(a: SessionV3_2_0, b: SessionV3_3_0) -> bool {
    &&& b.id == a.id
    &&& b.title == a.title
    &&& b.created_at == a.created_at
    &&& b.updated_at == a.updated_at
    &&& b.current_persona_id == a.current_persona_id
    &&& b.persona_histories == a.persona_histories
    &&& b.app_mode == a.app_mode
    &&& b.workspace_id == a.workspace_id
    &&& b.active_participant_ids == a.active_participant_ids
    &&& b.execution_strategy == a.execution_strategy
    &&& b.system_messages == a.system_messages
    &&& b.participants == a.participants
    &&& b.participant_icons == a.participant_icons
    &&& b.participant_colors == a.participant_colors
    &&& b.conversation_mode == a.conversation_mode
    &&& b.talk_style == a.talk_style
    &&& b.is_favorite == a.is_favorite
    &&& b.is_archived == a.is_archived
    &&& b.sort_order == a.sort_order
    &&& b.auto_chat_config is None
}

/// One migration step, 3.3.0 to 3.4.0: what `migrate` makes of `a`.
pub open spec fn spec_step_v3_3_0(a: SessionV3_3_0, b: SessionV3_4_0) -> bool {
    &&& b.id == a.id
    &&& b.title == a.title
    &&& b.created_at == a.created_at
    &&& b.updated_at == a.updated_at
    &&& b.current_persona_id == a.current_persona_id
    &&& b.persona_histories == a.persona_histories
    &&& b.app_mode == a.app_mode
    &&& b.workspace_id == a.workspace_id
    &&& b.active_participant_ids == a.active_participant_ids
    &&& b.execution_strategy == a.execution_strategy
    &&& b.system_messages == a.system_messages
    &&& b.participants == a.participants
    &&& b.participant_icons == a.participant_icons
    &&& b.participant_colors == a.participant_colors
    &&& b.participant_backends@ == Map::<String, String>::empty()
    &&& b.participant_models@ == Map::<String, Option<String>>::empty()
    &&& b.conversation_mode == a.conversation_mode
    &&& b.talk_style == a.talk_style
    &&& b.is_favorite == a.is_favorite
    &&& b.is_archived == a.is_archived
    &&& b.sort_order == a.sort_order
    &&& b.auto_chat_config == a.auto_chat_config
}

/// One migration step, 3.4.0 to 4.0.0: what `migrate` makes of `a`.
pub open spec fn spec_step_v3_4_0(a: SessionV3_4_0, b: SessionV4_0_0) -> bool {
    &&& b.id == a.id
    &&& b.title == a.title
    &&& b.created_at == a.created_at
    &&& b.updated_at == a.updated_at
    &&& b.current_persona_id == a.current_persona_id
    &&& b.persona_histories == a.persona_histories
    &&& b.app_mode == a.app_mode
    &&& b.workspace_id == a.workspace_id
    &&& b.active_participant_ids == a.active_participant_ids
    &&& b.execution_strategy == spec_migrate_strategy(a.execution_strategy)
    &&& b.system_messages == a.system_messages
    &&& b.participants == a.participants
    &&& b.participant_icons == a.participant_icons
    &&& b.participant_colors == a.participant_colors
    &&& b.participant_backends@ == Map::<String, String>::empty()
    &&& b.participant_models@ == Map::<String, Option<String>>::empty()
    &&& b.conversation_mode == a.conversation_mode
    &&& b.talk_style == a.talk_style
    &&& b.is_favorite == a.is_favorite
    &&& b.is_archived == a.is_archived
    &&& b.sort_order == a.sort_order
    &&& b.auto_chat_config == a.auto_chat_config
}

impl SessionV1_0_0 {
    /// Migrates to 1.1.0: `name` becomes `title`.
    pub fn migrate(self) -> (r: SessionV1_1_0)
        ensures
            spec_step_v1_0_0(self, r),
    {
        SessionV1_1_0 {
            id: self.id,
            title: self.name,
            created_at: self.created_at,
            updated_at: self.updated_at,
            current_persona_id: self.current_persona_id,
            persona_histories: self.persona_histories,
            app_mode: self.app_mode,
        }
    }
}

impl SessionV1_1_0 {
    /// Migrates to 2.0.0: no workspace.
    pub fn migrate(self) -> (r: SessionV2_0_0)
        ensures
            spec_step_v1_1_0(self, r),
    {
        SessionV2_0_0 {
            id: self.id,
            title: self.title,
            created_at: self.created_at,
            updated_at: self.updated_at,
            current_persona_id: self.current_persona_id,
            persona_histories: self.persona_histories,
            app_mode: self.app_mode,
            workspace_id: None,
        }
    }
}

impl SessionV2_0_0 {
    /// Migrates to 2.1.0: no active participants; the strategy named "broadcast".
    pub fn migrate(self) -> (r: SessionV2_1_0)
        ensures
            spec_step_v2_0_0(self, r),
    {
        SessionV2_1_0 {
            id: self.id,
            title: self.title,
            created_at: self.created_at,
            updated_at: self.updated_at,
            current_persona_id: self.current_persona_id,
            persona_histories: self.persona_histories,
            app_mode: self.app_mode,
            workspace_id: self.workspace_id,
            active_participant_ids: Vec::new(),
            execution_strategy: default_execution_strategy(),
        }
    }
}

impl SessionV2_1_0 {
    /// Migrates to 2.2.0: no system messages.
    pub fn migrate(self) -> (r: SessionV2_2_0)
        ensures
            spec_step_v2_1_0(self, r),
    {
        SessionV2_2_0 {
            id: self.id,
            title: self.title,
            created_at: self.created_at,
            updated_at: self.updated_at,
            current_persona_id: self.current_persona_id,
            persona_histories: self.persona_histories,
            app_mode: self.app_mode,
            workspace_id: self.workspace_id,
            active_participant_ids: self.active_participant_ids,
            execution_strategy: self.execution_strategy,
            system_messages: Vec::new(),
        }
    }
}

impl SessionV2_2_0 {
    /// Migrates to 2.3.0: no participant names.
    pub fn migrate(self) -> (r: SessionV2_3_0)
        ensures
            spec_step_v2_2_0(self, r),
    {
        SessionV2_3_0 {
            id: self.id,
            title: self.title,
            created_at: self.created_at,
            updated_at: self.updated_at,
            current_persona_id: self.current_persona_id,
            persona_histories: self.persona_histories,
            app_mode: self.app_mode,
            workspace_id: self.workspace_id,
            active_participant_ids: self.active_participant_ids,
            execution_strategy: self.execution_strategy,
            system_messages: self.system_messages,
            participants: HashMap::new(),
        }
    }
}

impl SessionV2_3_0 {
    /// Migrates to 2.4.0: the default (normal) conversation mode.
    pub fn migrate(self) -> (r: SessionV2_4_0)
        ensures
            spec_step_v2_3_0(self, r),
    {
        SessionV2_4_0 {
            id: self.id,
            title: self.title,
            created_at: self.created_at,
            updated_at: self.updated_at,
            current_persona_id: self.current_persona_id,
            persona_histories: self.persona_histories,
            app_mode: self.app_mode,
            workspace_id: self.workspace_id,
            active_participant_ids: self.active_participant_ids,
            execution_strategy: self.execution_strategy,
            system_messages: self.system_messages,
            participants: self.participants,
            conversation_mode: ConversationMode::default(),
        }
    }
}

impl SessionV2_4_0 {
    /// Migrates to 2.5.0: no talk style.
    pub fn migrate(self) -> (r: SessionV2_5_0)
        ensures
            spec_step_v2_4_0(self, r),
    {
        SessionV2_5_0 {
            id: self.id,
            title: self.title,
            created_at: self.created_at,
            updated_at: self.updated_at,
            current_persona_id: self.current_persona_id,
            persona_histories: self.persona_histories,
            app_mode: self.app_mode,
            workspace_id: self.workspace_id,
            active_participant_ids: self.active_participant_ids,
            execution_strategy: self.execution_strategy,
            system_messages: self.system_messages,
            participants: self.participants,
            conversation_mode: self.conversation_mode,
            talk_style: None,
        }
    }
}

impl SessionV2_5_0 {
    /// Migrates to 2.6.0: every system-role message without a message type, in the histories and among the system messages, gets the type "system"; all else is kept.
    pub fn migrate(self) -> (r: SessionV2_6_0)
        ensures
            spec_step_v2_5_0(self, r),
    {
        let persona_histories = normalize_histories(&self.persona_histories);
        let system_messages = normalize_conversation_messages(&self.system_messages);
        SessionV2_6_0 {
            id: self.id,
            title: self.title,
            created_at: self.created_at,
            updated_at: self.updated_at,
            current_persona_id: self.current_persona_id,
            persona_histories,
            app_mode: self.app_mode,
            workspace_id: self.workspace_id,
            active_participant_ids: self.active_participant_ids,
            execution_strategy: self.execution_strategy,
            system_messages,
            participants: self.participants,
            conversation_mode: self.conversation_mode,
            talk_style: self.talk_style,
        }
    }
}

impl SessionV2_6_0 {
    /// Migrates to 2.7.0: the strategy name is read into a strategy value.
    pub fn migrate(self) -> (r: SessionV2_7_0)
        ensures
            spec_step_v2_6_0(self, r),
    {
        SessionV2_7_0 {
            id: self.id,
            title: self.title,
            created_at: self.created_at,
            updated_at: self.updated_at,
            current_persona_id: self.current_persona_id,
            persona_histories: self.persona_histories,
            app_mode: self.app_mode,
            workspace_id: self.workspace_id,
            active_participant_ids: self.active_participant_ids,
            execution_strategy: ExecutionStrategyV1_0_0::from(self.execution_strategy),
            system_messages: self.system_messages,
            participants: self.participants,
            conversation_mode: self.conversation_mode,
            talk_style: self.talk_style,
        }
    }
}

impl SessionV2_7_0 {
    /// Migrates to 2.8.0: no participant icons.
    pub fn migrate(self) -> (r: SessionV2_8_0)
        ensures
            spec_step_v2_7_0(self, r),
    {
        SessionV2_8_0 {
            id: self.id,
            title: self.title,
            created_at: self.created_at,
            updated_at: self.updated_at,
            current_persona_id: self.current_persona_id,
            persona_histories: self.persona_histories,
            app_mode: self.app_mode,
            workspace_id: self.workspace_id,
            active_participant_ids: self.active_participant_ids,
            execution_strategy: self.execution_strategy,
            system_messages: self.system_messages,
            participants: self.participants,
            participant_icons: HashMap::new(),
            conversation_mode: self.conversation_mode,
            talk_style: self.talk_style,
        }
    }
}

impl SessionV2_8_0 {
    /// Migrates to 2.9.0: no participant colors.
    pub fn migrate(self) -> (r: SessionV2_9_0)
        ensures
            spec_step_v2_8_0(self, r),
    {
        SessionV2_9_0 {
            id: self.id,
            title: self.title,
            created_at: self.created_at,
            updated_at: self.updated_at,
            current_persona_id: self.current_persona_id,
            persona_histories: self.persona_histories,
            app_mode: self.app_mode,
            workspace_id: self.workspace_id,
            active_participant_ids: self.active_participant_ids,
            execution_strategy: self.execution_strategy,
            system_messages: self.system_messages,
            participants: self.participants,
            participant_icons: self.participant_icons,
            participant_colors: HashMap::new(),
            conversation_mode: self.conversation_mode,
            talk_style: self.talk_style,
        }
    }
}

impl SessionV2_9_0 {
    /// Migrates to 3.0.0: a session without a workspace gets the placeholder workspace id.
    pub fn migrate(self) -> (r: SessionV3_0_0)
        ensures
            spec_step_v2_9_0(self, r),
    {
        let workspace_id = match self.workspace_id {
            Some(w) => w,
            None => placeholder_workspace_id(),
        };
        SessionV3_0_0 {
            id: self.id,
            title: self.title,
            created_at: self.created_at,
            updated_at: self.updated_at,
            current_persona_id: self.current_persona_id,
            persona_histories: self.persona_histories,
            app_mode: self.app_mode,
            workspace_id,
            active_participant_ids: self.active_participant_ids,
            execution_strategy: self.execution_strategy,
            system_messages: self.system_messages,
            participants: self.participants,
            participant_icons: self.participant_icons,
            participant_colors: self.participant_colors,
            conversation_mode: self.conversation_mode,
            talk_style: self.talk_style,
        }
    }
}

impl SessionV3_0_0 {
    /// Migrates to 3.1.0: neither favorite nor archived.
    pub fn migrate(self) -> (r: SessionV3_1_0)
        ensures
            spec_step_v3_0_0(self, r),
    {
        SessionV3_1_0 {
            id: self.id,
            title: self.title,
            created_at: self.created_at,
            updated_at: self.updated_at,
            current_persona_id: self.current_persona_id,
            persona_histories: self.persona_histories,
            app_mode: self.app_mode,
            workspace_id: self.workspace_id,
            active_participant_ids: self.active_participant_ids,
            execution_strategy: self.execution_strategy,
            system_messages: self.system_messages,
            participants: self.participants,
            participant_icons: self.participant_icons,
            participant_colors: self.participant_colors,
            conversation_mode: self.conversation_mode,
            talk_style: self.talk_style,
            is_favorite: false,
            is_archived: false,
        }
    }
}

impl SessionV3_1_0 {
    /// Migrates to 3.2.0: no sort order.
    pub fn migrate(self) -> (r: SessionV3_2_0)
        ensures
            spec_step_v3_1_0(self, r),
    {
        SessionV3_2_0 {
            id: self.id,
            title: self.title,
            created_at: self.created_at,
            updated_at: self.updated_at,
            current_persona_id: self.current_persona_id,
            persona_histories: self.persona_histories,
            app_mode: self.app_mode,
            workspace_id: self.workspace_id,
            active_participant_ids: self.active_participant_ids,
            execution_strategy: self.execution_strategy,
            system_messages: self.system_messages,
            participants: self.participants,
            participant_icons: self.participant_icons,
            participant_colors: self.participant_colors,
            conversation_mode: self.conversation_mode,
            talk_style: self.talk_style,
            is_favorite: self.is_favorite,
            is_archived: self.is_archived,
            sort_order: None,
        }
    }
}

impl SessionV3_2_0 {
    /// Migrates to 3.3.0: AutoChat off.
    pub fn migrate(self) -> (r: SessionV3_3_0)
        ensures
            spec_step_v3_2_0(self, r),
    {
        SessionV3_3_0 {
            id: self.id,
            title: self.title,
            created_at: self.created_at,
            updated_at: self.updated_at,
            current_persona_id: self.current_persona_id,
            persona_histories: self.persona_histories,
            app_mode: self.app_mode,
            workspace_id: self.workspace_id,
            active_participant_ids: self.active_participant_ids,
            execution_strategy: self.execution_strategy,
            system_messages: self.system_messages,
            participants: self.participants,
            participant_icons: self.participant_icons,
            participant_colors: self.participant_colors,
            conversation_mode: self.conversation_mode,
            talk_style: self.talk_style,
            is_favorite: self.is_favorite,
            is_archived: self.is_archived,
            sort_order: self.sort_order,
            auto_chat_config: None,
        }
    }
}

impl SessionV3_3_0 {
    /// Migrates to 3.4.0: no participant backends or models.
    pub fn migrate(self) -> (r: SessionV3_4_0)
        ensures
            spec_step_v3_3_0(self, r),
    {
        SessionV3_4_0 {
            id: self.id,
            title: self.title,
            created_at: self.created_at,
            updated_at: self.updated_at,
            current_persona_id: self.current_persona_id,
            persona_histories: self.persona_histories,
            app_mode: self.app_mode,
            workspace_id: self.workspace_id,
            active_participant_ids: self.active_participant_ids,
            execution_strategy: self.execution_strategy,
            system_messages: self.system_messages,
            participants: self.participants,
            participant_icons: self.participant_icons,
            participant_colors: self.participant_colors,
            participant_backends: HashMap::new(),
            participant_models: HashMap::new(),
            conversation_mode: self.conversation_mode,
            talk_style: self.talk_style,
            is_favorite: self.is_favorite,
            is_archived: self.is_archived,
            sort_order: self.sort_order,
            auto_chat_config: self.auto_chat_config,
        }
    }
}

impl SessionV3_4_0 {
    /// Migrates to 4.0.0: the strategy is migrated to schema 2.0.0, and participant backends and models are cleared.
    pub fn migrate(self) -> (r: SessionV4_0_0)
        ensures
            spec_step_v3_4_0(self, r),
    {
        SessionV4_0_0 {
            id: self.id,
            title: self.title,
            created_at: self.created_at,
            updated_at: self.updated_at,
            current_persona_id: self.current_persona_id,
            persona_histories: self.persona_histories,
            app_mode: self.app_mode,
            workspace_id: self.workspace_id,
            active_participant_ids: self.active_participant_ids,
            execution_strategy: self.execution_strategy.migrate(),
            system_messages: self.system_messages,
            participants: self.participants,
            participant_icons: self.participant_icons,
            participant_colors: self.participant_colors,
            participant_backends: HashMap::new(),
            participant_models: HashMap::new(),
            conversation_mode: self.conversation_mode,
            talk_style: self.talk_style,
            is_favorite: self.is_favorite,
            is_archived: self.is_archived,
            sort_order: self.sort_order,
            auto_chat_config: self.auto_chat_config,
        }
    }
}

/// The domain session of a 4.0.0 record: every field carried over, the
/// strategy read into a turn-taking model.
pub open spec fn spec_session_into_domain(d: SessionV4_0_0) -> ChatSession {
    ChatSession {
        id: d.id,
        title: d.title,
        created_at: d.created_at,
        updated_at: d.updated_at,
        current_persona_id: d.current_persona_id,
        persona_histories: d.persona_histories,
        app_mode: d.app_mode,
        workspace_id: d.workspace_id,
        active_participant_ids: d.active_participant_ids,
        execution_strategy: spec_strategy_into_domain(d.execution_strategy),
        system_messages: d.system_messages,
        participants: d.participants,
        participant_icons: d.participant_icons,
        participant_colors: d.participant_colors,
        participant_backends: d.participant_backends,
        participant_models: d.participant_models,
        conversation_mode: d.conversation_mode,
        talk_style: d.talk_style,
        is_favorite: d.is_favorite,
        is_archived: d.is_archived,
        sort_order: d.sort_order,
        auto_chat_config: d.auto_chat_config,
    }
}

/// `r` is the 4.0.0 record of session `s`: every field carried over, the
/// turn-taking model stored as a strategy of schema 2.0.0.
pub open spec fn is_session_record_of(s: ChatSession, r: SessionV4_0_0) -> bool {
    &&& r.id == s.id
    &&& r.title == s.title
    &&& r.created_at == s.created_at
    &&& r.updated_at == s.updated_at
    &&& r.current_persona_id == s.current_persona_id
    &&& r.persona_histories == s.persona_histories
    &&& r.app_mode == s.app_mode
    &&& r.workspace_id == s.workspace_id
    &&& r.active_participant_ids == s.active_participant_ids
    &&& is_stored_strategy_of(s.execution_strategy, r.execution_strategy)
    &&& r.system_messages == s.system_messages
    &&& r.participants == s.participants
    &&& r.participant_icons == s.participant_icons
    &&& r.participant_colors == s.participant_colors
    &&& r.participant_backends == s.participant_backends
    &&& r.participant_models == s.participant_models
    &&& r.conversation_mode == s.conversation_mode
    &&& r.talk_style == s.talk_style
    &&& r.is_favorite == s.is_favorite
    &&& r.is_archived == s.is_archived
    &&& r.sort_order == s.sort_order
    &&& r.auto_chat_config == s.auto_chat_config
}

impl SessionV4_0_0 {
    /// The domain session.
    pub fn into_domain(self) -> (r: ChatSession)
        ensures
            r == spec_session_into_domain(self),
            forall|m: MentionMatching|
                (self.execution_strategy matches ExecutionStrategyV2_0_0::Mentioned { strategy: Some(t) }
                    && t@ == mention_matching_json_text(m)) ==> r.execution_strategy == (TurnTaking::Mentioned {
                    strategy: m,
                }),
    {
        ChatSession {
            id: self.id,
            title: self.title,
            created_at: self.created_at,
            updated_at: self.updated_at,
            current_persona_id: self.current_persona_id,
            persona_histories: self.persona_histories,
            app_mode: self.app_mode,
            workspace_id: self.workspace_id,
            active_participant_ids: self.active_participant_ids,
            execution_strategy: self.execution_strategy.into_domain(),
            system_messages: self.system_messages,
            participants: self.participants,
            participant_icons: self.participant_icons,
            participant_colors: self.participant_colors,
            participant_backends: self.participant_backends,
            participant_models: self.participant_models,
            conversation_mode: self.conversation_mode,
            talk_style: self.talk_style,
            is_favorite: self.is_favorite,
            is_archived: self.is_archived,
            sort_order: self.sort_order,
            auto_chat_config: self.auto_chat_config,
        }
    }

    /// The record of a domain session.
    pub fn from_domain(session: ChatSession) -> (r: Self)
        ensures
            is_session_record_of(session, r),
    {
        SessionV4_0_0 {
            id: session.id,
            title: session.title,
            created_at: session.created_at,
            updated_at: session.updated_at,
            current_persona_id: session.current_persona_id,
            persona_histories: session.persona_histories,
            app_mode: session.app_mode,
            workspace_id: session.workspace_id,
            active_participant_ids: session.active_participant_ids,
            execution_strategy: ExecutionStrategyV2_0_0::from_domain(session.execution_strategy),
            system_messages: session.system_messages,
            participants: session.participants,
            participant_icons: session.participant_icons,
            participant_colors: session.participant_colors,
            participant_backends: session.participant_backends,
            participant_models: session.participant_models,
            conversation_mode: session.conversation_mode,
            talk_style: session.talk_style,
            is_favorite: session.is_favorite,
            is_archived: session.is_archived,
            sort_order: session.sort_order,
            auto_chat_config: session.auto_chat_config,
        }
    }
}

/// Loads a session stored under schema 1.0.0: migrates it through every
/// schema to 4.0.0 and reads the domain session.
pub fn load_session_v1_0_0(s: SessionV1_0_0) -> (r: ChatSession)
    ensures
        r.id == s.id,
        r.title == s.name,
        r.created_at == s.created_at,
        r.updated_at == s.updated_at,
        r.current_persona_id == s.current_persona_id,
        histories_normalized(s.persona_histories@, r.persona_histories@),
        r.app_mode == s.app_mode,
        r.workspace_id@ == spec_placeholder_workspace_id(),
        r.active_participant_ids@.len() == 0,
        r.execution_strategy == TurnTaking::Broadcast,
        r.system_messages@.len() == 0,
        r.participants@ == Map::<String, String>::empty(),
        r.participant_icons@ == Map::<String, String>::empty(),
        r.participant_colors@ == Map::<String, String>::empty(),
        r.participant_backends@ == Map::<String, String>::empty(),
        r.participant_models@ == Map::<String, Option<String>>::empty(),
        r.conversation_mode == ConversationMode::Normal,
        r.talk_style is None,
        !r.is_favorite,
        !r.is_archived,
        r.sort_order is None,
        r.auto_chat_config is None,
{
    proof {
        lemma_plain_strategy_names();
    }
    let v2_0 = s.migrate().migrate();
    let v2_5 = v2_0.migrate().migrate().migrate().migrate().migrate();
    let v2_9 = v2_5.migrate().migrate().migrate().migrate();
    let v3_4 = v2_9.migrate().migrate().migrate().migrate().migrate();
    v3_4.migrate().into_domain()
}

/// Storing a session and loading it back gives the same session, but for the
/// turn-taking model, which comes back as its stored strategy reads.
pub proof fn lemma_session_round_trip(s: ChatSession, r: SessionV4_0_0)
    requires
        is_session_record_of(s, r),
    ensures
        spec_session_into_domain(r) == (ChatSession {
            execution_strategy: spec_strategy_into_domain(r.execution_strategy),
            ..s
        }),
{
}

/// Sequential and broadcast turn taking survive storing and loading.
pub proof fn lemma_plain_strategy_round_trip(s: ChatSession, r: SessionV4_0_0)
    requires
        is_session_record_of(s, r),
        s.execution_strategy is Sequential || s.execution_strategy is Broadcast,
    ensures
        spec_session_into_domain(r) == s,
{
}

/// Normalizing twice is normalizing once: a message that is already
/// normalized is left as it is.
pub proof fn lemma_normalize_idempotent(m: SessionMessage, r: SessionMessage, r2: SessionMessage)
    requires
        message_normalized(m, r),
        message_normalized(r, r2),
    ensures
        r2.role == r.role,
        r2.content == r.content,
        r2.metadata == r.metadata,
{
}

/// A stored session record of any schema.
pub enum SessionRecord {
    V1_0_0(SessionV1_0_0),
    V1_1_0(SessionV1_1_0),
    V2_0_0(SessionV2_0_0),
    V2_1_0(SessionV2_1_0),
    V2_2_0(SessionV2_2_0),
    V2_3_0(SessionV2_3_0),
    V2_4_0(SessionV2_4_0),
    V2_5_0(SessionV2_5_0),
    V2_6_0(SessionV2_6_0),
    V2_7_0(SessionV2_7_0),
    V2_8_0(SessionV2_8_0),
    V2_9_0(SessionV2_9_0),
    V3_0_0(SessionV3_0_0),
    V3_1_0(SessionV3_1_0),
    V3_2_0(SessionV3_2_0),
    V3_3_0(SessionV3_3_0),
    V3_4_0(SessionV3_4_0),
    V4_0_0(SessionV4_0_0),
}

/// What every schema of a session records alike: identifier, title (the
/// name, in 1.0.0), creation and update times, current persona and mode.
pub open spec fn record_header(rec: SessionRecord) -> (String, String, String, String, String, AppMode) {
    match rec {
        SessionRecord::V1_0_0(s) => (s.id, s.name, s.created_at, s.updated_at, s.current_persona_id, s.app_mode),
        SessionRecord::V1_1_0(s) => (s.id, s.title, s.created_at, s.updated_at, s.current_persona_id, s.app_mode),
        SessionRecord::V2_0_0(s) => (s.id, s.title, s.created_at, s.updated_at, s.current_persona_id, s.app_mode),
        SessionRecord::V2_1_0(s) => (s.id, s.title, s.created_at, s.updated_at, s.current_persona_id, s.app_mode),
        SessionRecord::V2_2_0(s) => (s.id, s.title, s.created_at, s.updated_at, s.current_persona_id, s.app_mode),
        SessionRecord::V2_3_0(s) => (s.id, s.title, s.created_at, s.updated_at, s.current_persona_id, s.app_mode),
        SessionRecord::V2_4_0(s) => (s.id, s.title, s.created_at, s.updated_at, s.current_persona_id, s.app_mode),
        SessionRecord::V2_5_0(s) => (s.id, s.title, s.created_at, s.updated_at, s.current_persona_id, s.app_mode),
        SessionRecord::V2_6_0(s) => (s.id, s.title, s.created_at, s.updated_at, s.current_persona_id, s.app_mode),
        SessionRecord::V2_7_0(s) => (s.id, s.title, s.created_at, s.updated_at, s.current_persona_id, s.app_mode),
        SessionRecord::V2_8_0(s) => (s.id, s.title, s.created_at, s.updated_at, s.current_persona_id, s.app_mode),
        SessionRecord::V2_9_0(s) => (s.id, s.title, s.created_at, s.updated_at, s.current_persona_id, s.app_mode),
        SessionRecord::V3_0_0(s) => (s.id, s.title, s.created_at, s.updated_at, s.current_persona_id, s.app_mode),
        SessionRecord::V3_1_0(s) => (s.id, s.title, s.created_at, s.updated_at, s.current_persona_id, s.app_mode),
        SessionRecord::V3_2_0(s) => (s.id, s.title, s.created_at, s.updated_at, s.current_persona_id, s.app_mode),
        SessionRecord::V3_3_0(s) => (s.id, s.title, s.created_at, s.updated_at, s.current_persona_id, s.app_mode),
        SessionRecord::V3_4_0(s) => (s.id, s.title, s.created_at, s.updated_at, s.current_persona_id, s.app_mode),
        SessionRecord::V4_0_0(s) => (s.id, s.title, s.created_at, s.updated_at, s.current_persona_id, s.app_mode),
    }
}

/// `r` is what the migration steps from 1.0.0 onward make of `a`.
pub open spec fn latest_from_v1_0_0(a: SessionV1_0_0, r: SessionV4_0_0) -> bool {
    exists|b: SessionV1_1_0| #[trigger] spec_step_v1_0_0(a, b) && latest_from_v1_1_0(b, r)
}

/// `r` is what the migration steps from 1.1.0 onward make of `a`.
pub open spec fn latest_from_v1_1_0(a: SessionV1_1_0, r: SessionV4_0_0) -> bool {
    exists|b: SessionV2_0_0| #[trigger] spec_step_v1_1_0(a, b) && latest_from_v2_0_0(b, r)
}

/// `r` is what the migration steps from 2.0.0 onward make of `a`.
pub open spec fn latest_from_v2_0_0(a: SessionV2_0_0, r: SessionV4_0_0) -> bool {
    exists|b: SessionV2_1_0| #[trigger] spec_step_v2_0_0(a, b) && latest_from_v2_1_0(b, r)
}

/// `r` is what the migration steps from 2.1.0 onward make of `a`.
pub open spec fn latest_from_v2_1_0(a: SessionV2_1_0, r: SessionV4_0_0) -> bool {
    exists|b: SessionV2_2_0| #[trigger] spec_step_v2_1_0(a, b) && latest_from_v2_2_0(b, r)
}

/// `r` is what the migration steps from 2.2.0 onward make of `a`.
pub open spec fn latest_from_v2_2_0(a: SessionV2_2_0, r: SessionV4_0_0) -> bool {
    exists|b: SessionV2_3_0| #[trigger] spec_step_v2_2_0(a, b) && latest_from_v2_3_0(b, r)
}

/// `r` is what the migration steps from 2.3.0 onward make of `a`.
pub open spec fn latest_from_v2_3_0(a: SessionV2_3_0, r: SessionV4_0_0) -> bool {
    exists|b: SessionV2_4_0| #[trigger] spec_step_v2_3_0(a, b) && latest_from_v2_4_0(b, r)
}

/// `r` is what the migration steps from 2.4.0 onward make of `a`.
pub open spec fn latest_from_v2_4_0(a: SessionV2_4_0, r: SessionV4_0_0) -> bool {
    exists|b: SessionV2_5_0| #[trigger] spec_step_v2_4_0(a, b) && latest_from_v2_5_0(b, r)
}

/// `r` is what the migration steps from 2.5.0 onward make of `a`.
pub open spec fn latest_from_v2_5_0(a: SessionV2_5_0, r: SessionV4_0_0) -> bool {
    exists|b: SessionV2_6_0| #[trigger] spec_step_v2_5_0(a, b) && latest_from_v2_6_0(b, r)
}

/// `r` is what the migration steps from 2.6.0 onward make of `a`.
pub open spec fn latest_from_v2_6_0(a: SessionV2_6_0, r: SessionV4_0_0) -> bool {
    exists|b: SessionV2_7_0| #[trigger] spec_step_v2_6_0(a, b) && latest_from_v2_7_0(b, r)
}

/// `r` is what the migration steps from 2.7.0 onward make of `a`.
pub open spec fn latest_from_v2_7_0(a: SessionV2_7_0, r: SessionV4_0_0) -> bool {
    exists|b: SessionV2_8_0| #[trigger] spec_step_v2_7_0(a, b) && latest_from_v2_8_0(b, r)
}

/// `r` is what the migration steps from 2.8.0 onward make of `a`.
pub open spec fn latest_from_v2_8_0(a: SessionV2_8_0, r: SessionV4_0_0) -> bool {
    exists|b: SessionV2_9_0| #[trigger] spec_step_v2_8_0(a, b) && latest_from_v2_9_0(b, r)
}

/// `r` is what the migration steps from 2.9.0 onward make of `a`.
pub open spec fn latest_from_v2_9_0(a: SessionV2_9_0, r: SessionV4_0_0) -> bool {
    exists|b: SessionV3_0_0| #[trigger] spec_step_v2_9_0(a, b) && latest_from_v3_0_0(b, r)
}

/// `r` is what the migration steps from 3.0.0 onward make of `a`.
pub open spec fn latest_from_v3_0_0(a: SessionV3_0_0, r: SessionV4_0_0) -> bool {
    exists|b: SessionV3_1_0| #[trigger] spec_step_v3_0_0(a, b) && latest_from_v3_1_0(b, r)
}

/// `r` is what the migration steps from 3.1.0 onward make of `a`.
pub open spec fn latest_from_v3_1_0(a: SessionV3_1_0, r: SessionV4_0_0) -> bool {
    exists|b: SessionV3_2_0| #[trigger] spec_step_v3_1_0(a, b) && latest_from_v3_2_0(b, r)
}

/// `r` is what the migration steps from 3.2.0 onward make of `a`.
pub open spec fn latest_from_v3_2_0(a: SessionV3_2_0, r: SessionV4_0_0) -> bool {
    exists|b: SessionV3_3_0| #[trigger] spec_step_v3_2_0(a, b) && latest_from_v3_3_0(b, r)
}

/// `r` is what the migration steps from 3.3.0 onward make of `a`.
pub open spec fn latest_from_v3_3_0(a: SessionV3_3_0, r: SessionV4_0_0) -> bool {
    exists|b: SessionV3_4_0| #[trigger] spec_step_v3_3_0(a, b) && latest_from_v3_4_0(b, r)
}

/// `r` is what the migration steps from 3.4.0 onward make of `a`.
pub open spec fn latest_from_v3_4_0(a: SessionV3_4_0, r: SessionV4_0_0) -> bool {
    spec_step_v3_4_0(a, r)
}

/// `r` is the 4.0.0 session that migrating `rec` step by step gives: each
/// step as its `migrate` states it; a 4.0.0 record is itself.
pub open spec fn spec_session_to_latest(rec: SessionRecord, r: SessionV4_0_0) -> bool {
    match rec {
        SessionRecord::V1_0_0(s) => latest_from_v1_0_0(s, r),
        SessionRecord::V1_1_0(s) => latest_from_v1_1_0(s, r),
        SessionRecord::V2_0_0(s) => latest_from_v2_0_0(s, r),
        SessionRecord::V2_1_0(s) => latest_from_v2_1_0(s, r),
        SessionRecord::V2_2_0(s) => latest_from_v2_2_0(s, r),
        SessionRecord::V2_3_0(s) => latest_from_v2_3_0(s, r),
        SessionRecord::V2_4_0(s) => latest_from_v2_4_0(s, r),
        SessionRecord::V2_5_0(s) => latest_from_v2_5_0(s, r),
        SessionRecord::V2_6_0(s) => latest_from_v2_6_0(s, r),
        SessionRecord::V2_7_0(s) => latest_from_v2_7_0(s, r),
        SessionRecord::V2_8_0(s) => latest_from_v2_8_0(s, r),
        SessionRecord::V2_9_0(s) => latest_from_v2_9_0(s, r),
        SessionRecord::V3_0_0(s) => latest_from_v3_0_0(s, r),
        SessionRecord::V3_1_0(s) => latest_from_v3_1_0(s, r),
        SessionRecord::V3_2_0(s) => latest_from_v3_2_0(s, r),
        SessionRecord::V3_3_0(s) => latest_from_v3_3_0(s, r),
        SessionRecord::V3_4_0(s) => latest_from_v3_4_0(s, r),
        SessionRecord::V4_0_0(s) => r == s,
    }
}

impl SessionV1_0_0 {
    /// Applies every migration step from 1.0.0 to 4.0.0.
    fn to_latest(self) -> (r: SessionV4_0_0)
        ensures
            latest_from_v1_0_0(self, r),
    {
        let ghost a = self;
        let next = self.migrate();
        let r = next.to_latest();
        proof {
            assert(spec_step_v1_0_0(a, next) && latest_from_v1_1_0(next, r));
        }
        r
    }
}

impl SessionV1_1_0 {
    /// Applies every migration step from 1.1.0 to 4.0.0.
    fn to_latest(self) -> (r: SessionV4_0_0)
        ensures
            latest_from_v1_1_0(self, r),
    {
        let ghost a = self;
        let next = self.migrate();
        let r = next.to_latest();
        proof {
            assert(spec_step_v1_1_0(a, next) && latest_from_v2_0_0(next, r));
        }
        r
    }
}

impl SessionV2_0_0 {
    /// Applies every migration step from 2.0.0 to 4.0.0.
    fn to_latest(self) -> (r: SessionV4_0_0)
        ensures
            latest_from_v2_0_0(self, r),
    {
        let ghost a = self;
        let next = self.migrate();
        let r = next.to_latest();
        proof {
            assert(spec_step_v2_0_0(a, next) && latest_from_v2_1_0(next, r));
        }
        r
    }
}

impl SessionV2_1_0 {
    /// Applies every migration step from 2.1.0 to 4.0.0.
    fn to_latest(self) -> (r: SessionV4_0_0)
        ensures
            latest_from_v2_1_0(self, r),
    {
        let ghost a = self;
        let next = self.migrate();
        let r = next.to_latest();
        proof {
            assert(spec_step_v2_1_0(a, next) && latest_from_v2_2_0(next, r));
        }
        r
    }
}

impl SessionV2_2_0 {
    /// Applies every migration step from 2.2.0 to 4.0.0.
    fn to_latest(self) -> (r: SessionV4_0_0)
        ensures
            latest_from_v2_2_0(self, r),
    {
        let ghost a = self;
        let next = self.migrate();
        let r = next.to_latest();
        proof {
            assert(spec_step_v2_2_0(a, next) && latest_from_v2_3_0(next, r));
        }
        r
    }
}

impl SessionV2_3_0 {
    /// Applies every migration step from 2.3.0 to 4.0.0.
    fn to_latest(self) -> (r: SessionV4_0_0)
        ensures
            latest_from_v2_3_0(self, r),
    {
        let ghost a = self;
        let next = self.migrate();
        let r = next.to_latest();
        proof {
            assert(spec_step_v2_3_0(a, next) && latest_from_v2_4_0(next, r));
        }
        r
    }
}

impl SessionV2_4_0 {
    /// Applies every migration step from 2.4.0 to 4.0.0.
    fn to_latest(self) -> (r: SessionV4_0_0)
        ensures
            latest_from_v2_4_0(self, r),
    {
        let ghost a = self;
        let next = self.migrate();
        let r = next.to_latest();
        proof {
            assert(spec_step_v2_4_0(a, next) && latest_from_v2_5_0(next, r));
        }
        r
    }
}

impl SessionV2_5_0 {
    /// Applies every migration step from 2.5.0 to 4.0.0.
    fn to_latest(self) -> (r: SessionV4_0_0)
        ensures
            latest_from_v2_5_0(self, r),
    {
        let ghost a = self;
        let next = self.migrate();
        let r = next.to_latest();
        proof {
            assert(spec_step_v2_5_0(a, next) && latest_from_v2_6_0(next, r));
        }
        r
    }
}

impl SessionV2_6_0 {
    /// Applies every migration step from 2.6.0 to 4.0.0.
    fn to_latest(self) -> (r: SessionV4_0_0)
        ensures
            latest_from_v2_6_0(self, r),
    {
        let ghost a = self;
        let next = self.migrate();
        let r = next.to_latest();
        proof {
            assert(spec_step_v2_6_0(a, next) && latest_from_v2_7_0(next, r));
        }
        r
    }
}

impl SessionV2_7_0 {
    /// Applies every migration step from 2.7.0 to 4.0.0.
    fn to_latest(self) -> (r: SessionV4_0_0)
        ensures
            latest_from_v2_7_0(self, r),
    {
        let ghost a = self;
        let next = self.migrate();
        let r = next.to_latest();
        proof {
            assert(spec_step_v2_7_0(a, next) && latest_from_v2_8_0(next, r));
        }
        r
    }
}

impl SessionV2_8_0 {
    /// Applies every migration step from 2.8.0 to 4.0.0.
    fn to_latest(self) -> (r: SessionV4_0_0)
        ensures
            latest_from_v2_8_0(self, r),
    {
        let ghost a = self;
        let next = self.migrate();
        let r = next.to_latest();
        proof {
            assert(spec_step_v2_8_0(a, next) && latest_from_v2_9_0(next, r));
        }
        r
    }
}

impl SessionV2_9_0 {
    /// Applies every migration step from 2.9.0 to 4.0.0.
    fn to_latest(self) -> (r: SessionV4_0_0)
        ensures
            latest_from_v2_9_0(self, r),
    {
        let ghost a = self;
        let next = self.migrate();
        let r = next.to_latest();
        proof {
            assert(spec_step_v2_9_0(a, next) && latest_from_v3_0_0(next, r));
        }
        r
    }
}

impl SessionV3_0_0 {
    /// Applies every migration step from 3.0.0 to 4.0.0.
    fn to_latest(self) -> (r: SessionV4_0_0)
        ensures
            latest_from_v3_0_0(self, r),
    {
        let ghost a = self;
        let next = self.migrate();
        let r = next.to_latest();
        proof {
            assert(spec_step_v3_0_0(a, next) && latest_from_v3_1_0(next, r));
        }
        r
    }
}

impl SessionV3_1_0 {
    /// Applies every migration step from 3.1.0 to 4.0.0.
    fn to_latest(self) -> (r: SessionV4_0_0)
        ensures
            latest_from_v3_1_0(self, r),
    {
        let ghost a = self;
        let next = self.migrate();
        let r = next.to_latest();
        proof {
            assert(spec_step_v3_1_0(a, next) && latest_from_v3_2_0(next, r));
        }
        r
    }
}

impl SessionV3_2_0 {
    /// Applies every migration step from 3.2.0 to 4.0.0.
    fn to_latest(self) -> (r: SessionV4_0_0)
        ensures
            latest_from_v3_2_0(self, r),
    {
        let ghost a = self;
        let next = self.migrate();
        let r = next.to_latest();
        proof {
            assert(spec_step_v3_2_0(a, next) && latest_from_v3_3_0(next, r));
        }
        r
    }
}

impl SessionV3_3_0 {
    /// Applies every migration step from 3.3.0 to 4.0.0.
    fn to_latest(self) -> (r: SessionV4_0_0)
        ensures
            latest_from_v3_3_0(self, r),
    {
        let ghost a = self;
        let next = self.migrate();
        let r = next.to_latest();
        proof {
            assert(spec_step_v3_3_0(a, next) && latest_from_v3_4_0(next, r));
        }
        r
    }
}

impl SessionV3_4_0 {
    /// Applies every migration step from 3.4.0 to 4.0.0.
    fn to_latest(self) -> (r: SessionV4_0_0)
        ensures
            latest_from_v3_4_0(self, r),
    {
        self.migrate()
    }
}

/// Migrates a stored session of any schema, step by step, to schema 4.0.0.
/// The header fields are carried through every step, and a 4.0.0 record is
/// returned as it is.
pub fn migrate_session_to_latest(rec: SessionRecord) -> (r: SessionV4_0_0)
    ensures
        spec_session_to_latest(rec, r),
        (r.id, r.title, r.created_at, r.updated_at, r.current_persona_id, r.app_mode) == record_header(rec),
{
    match rec {
        SessionRecord::V1_0_0(s) => s.to_latest(),
        SessionRecord::V1_1_0(s) => s.to_latest(),
        SessionRecord::V2_0_0(s) => s.to_latest(),
        SessionRecord::V2_1_0(s) => s.to_latest(),
        SessionRecord::V2_2_0(s) => s.to_latest(),
        SessionRecord::V2_3_0(s) => s.to_latest(),
        SessionRecord::V2_4_0(s) => s.to_latest(),
        SessionRecord::V2_5_0(s) => s.to_latest(),
        SessionRecord::V2_6_0(s) => s.to_latest(),
        SessionRecord::V2_7_0(s) => s.to_latest(),
        SessionRecord::V2_8_0(s) => s.to_latest(),
        SessionRecord::V2_9_0(s) => s.to_latest(),
        SessionRecord::V3_0_0(s) => s.to_latest(),
        SessionRecord::V3_1_0(s) => s.to_latest(),
        SessionRecord::V3_2_0(s) => s.to_latest(),
        SessionRecord::V3_3_0(s) => s.to_latest(),
        SessionRecord::V3_4_0(s) => s.to_latest(),
        SessionRecord::V4_0_0(s) => s,
    }
}

/// Normalizing a conversation twice is normalizing it once: the second pass
/// leaves every message as the first pass left it.
pub proof fn lemma_messages_normalize_idempotent(ms: Seq<SessionMessage>, r: Seq<SessionMessage>, r2: Seq<SessionMessage>)
    requires
        messages_normalized(ms, r),
        messages_normalized(r, r2),
    ensures
        r2 == r,
        r2.len() == r.len(),
        forall|i: int| 0 <= i < r.len() ==> {
            &&& (#[trigger] r2[i]).role == r[i].role
            &&& r2[i].content == r[i].content
            &&& r2[i].timestamp == r[i].timestamp
            &&& r2[i].metadata == r[i].metadata
        },
{
    assert forall|i: int| 0 <= i < r.len() implies {
        &&& (#[trigger] r2[i]).role == r[i].role
        &&& r2[i].content == r[i].content
        &&& r2[i].timestamp == r[i].timestamp
        &&& r2[i].metadata == r[i].metadata
    } by {
        assert(message_normalized(ms[i], r[i]));
        assert(message_normalized(r[i], r2[i]));
    }
    assert(r2 =~= r);
}

/// Sessions in the order they are listed: no session was updated before one
/// listed after it (timestamps compared as text).
pub open spec fn most_recent_first(s: Seq<ChatSession>) -> bool {
    forall|i: int, j: int|
        0 <= i < j < s.len() ==> !text_lt(#[trigger] s[i].updated_at@, #[trigger] s[j].updated_at@)
}

/// `idx` arranges `orig` into `r`: each session of `r` is the one at its
/// index in `orig`, and no input position is used twice.
pub open spec fn arranges(orig: Seq<ChatSession>, r: Seq<ChatSession>, idx: Seq<int>) -> bool {
    &&& idx.len() == r.len()
    &&& r.len() == orig.len()
    &&& forall|i: int| 0 <= i < r.len() ==> 0 <= #[trigger] idx[i] < orig.len() && r[i] == orig[idx[i]]
    &&& forall|i: int, j: int| 0 <= i < j < r.len() ==> #[trigger] idx[i] != #[trigger] idx[j]
}

/// Sessions updated at the same time keep the order they had.
pub open spec fn ties_keep_order(r: Seq<ChatSession>, idx: Seq<int>) -> bool {
    forall|i: int, j: int|
        0 <= i < j < r.len() && (#[trigger] r[i]).updated_at@ == (#[trigger] r[j]).updated_at@ ==> idx[i] < idx[j]
}

/// No text comes before itself.
proof fn lemma_text_lt_irreflexive(a: Seq<char>)
    ensures
        !text_lt(a, a),
{
    if text_lt(a, a) {
        lemma_text_lt_asymmetric(a, a);
    }
}

/// Orders sessions most recently updated first; sessions updated at the same
/// time keep their relative order. The result holds the same sessions.
pub fn sort_sessions_most_recent_first(sessions: Vec<ChatSession>) -> (r: Vec<ChatSession>)
    ensures
        r@.to_multiset() == sessions@.to_multiset(),
        most_recent_first(r@),
        exists|idx: Seq<int>| arranges(sessions@, r@, idx) && ties_keep_order(r@, idx),
{
    broadcast use vstd::seq_lib::group_to_multiset_ensures;

    let ghost orig = sessions@;
    let mut rest = sessions;
    let n = rest.len();
    let mut r: Vec<ChatSession> = Vec::new();
    let ghost mut idx: Seq<int> = Seq::empty();
    let mut k: usize = 0;
    proof {
        assert(r@.to_multiset() =~= Multiset::<ChatSession>::empty());
        assert(r@.to_multiset().add(rest@.to_multiset()) =~= orig.to_multiset());
        assert(orig.skip(0) =~= orig);
    }
    while rest.len() > 0
        invariant
            orig.len() == n,
            k + rest@.len() == n,
            rest@ == orig.skip(k as int),
            r@.len() == k,
            idx.len() == k,
            forall|i: int| 0 <= i < k ==> 0 <= #[trigger] idx[i] < k && r@[i] == orig[idx[i]],
            forall|i: int, j: int| 0 <= i < j < k ==> #[trigger] idx[i] != #[trigger] idx[j],
            ties_keep_order(r@, idx),
            r@.to_multiset().add(rest@.to_multiset()) == orig.to_multiset(),
            most_recent_first(r@),
        decreases rest@.len(),
    {
        let ghost rest0 = rest@;
        let x = rest.remove(0);
        proof {
            vstd::seq_lib::to_multiset_remove(rest0, 0);
            vstd::seq_lib::to_multiset_contains(rest0, x);
            assert(rest0.contains(x)) by {
                assert(rest0[0] == x);
            }
            assert(rest0.to_multiset().count(x) > 0);
            assert(rest@.to_multiset() == rest0.to_multiset().remove(x));
            assert(x == orig[k as int]);
            assert(rest@ =~= orig.skip(k as int + 1));
        }
        let mut p: usize = 0;
        while p < r.len()
            invariant
                p <= r@.len(),
                forall|q: int| 0 <= q < p ==> !text_lt(#[trigger] r@[q].updated_at@, x.updated_at@),
            ensures
                p <= r@.len(),
                forall|q: int| 0 <= q < p ==> !text_lt(#[trigger] r@[q].updated_at@, x.updated_at@),
                p < r@.len() ==> text_lt(r@[p as int].updated_at@, x.updated_at@),
            decreases r@.len() - p,
        {
            if text_less(r[p].updated_at.as_str(), x.updated_at.as_str()) {
                break;
            }
            p = p + 1;
        }
        let ghost r0 = r@;
        let ghost idx0 = idx;
        r.insert(p, x);
        proof {
            idx = idx0.insert(p as int, k as int);
            assert forall|i: int| 0 <= i < r@.len() implies r@[i] == (if i < p {
                r0[i]
            } else if i == p {
                x
            } else {
                r0[i - 1]
            }) && idx[i] == (if i < p {
                idx0[i]
            } else if i == p {
                k as int
            } else {
                idx0[i - 1]
            }) by {}
            assert forall|i: int, j: int| 0 <= i < j < r@.len() implies !text_lt(
                #[trigger] r@[i].updated_at@,
                #[trigger] r@[j].updated_at@,
            ) by {
                if j < p {
                } else if j == p {
                } else if i < p {
                } else if i == p {
                    if text_lt(x.updated_at@, r0[j - 1].updated_at@) {
                        if j - 1 == p {
                            lemma_text_lt_asymmetric(r0[p as int].updated_at@, x.updated_at@);
                        } else {
                            lemma_text_lt_transitive(
                                r0[p as int].updated_at@,
                                x.updated_at@,
                                r0[j - 1].updated_at@,
                            );
                        }
                    }
                } else {
                }
            }
            assert forall|i: int| 0 <= i < k + 1 implies 0 <= #[trigger] idx[i] < k + 1 && r@[i] == orig[idx[i]] by {}
            assert forall|i: int, j: int| 0 <= i < j < k + 1 implies #[trigger] idx[i] != #[trigger] idx[j] by {}
            assert forall|i: int, j: int|
                0 <= i < j < r@.len() && (#[trigger] r@[i]).updated_at@ == (#[trigger] r@[j]).updated_at@ implies idx[i]
                < idx[j] by {
                if i == p && j > p {
                    // Every session after the insertion point was updated before `x`.
                    if j - 1 == p {
                        lemma_text_lt_irreflexive(x.updated_at@);
                    } else {
                        assert(!text_lt(r0[p as int].updated_at@, r0[j - 1].updated_at@));
                    }
                } else if j == p {
                    assert(idx0[i] < k);
                } else if i < p && j > p {
                    assert(r0[i].updated_at@ == r0[j - 1].updated_at@);
                } else if i > p {
                    assert(r0[i - 1].updated_at@ == r0[j - 1].updated_at@);
                }
            }
            vstd::seq_lib::to_multiset_insert(r0, p as int, x);
            assert(r@.to_multiset() == r0.to_multiset().insert(x));
            assert(r@.to_multiset().add(rest@.to_multiset()) =~= orig.to_multiset());
        }
        k = k + 1;
    }
    proof {
        assert(rest@.to_multiset() =~= Multiset::<ChatSession>::empty());
        assert(r@.to_multiset() =~= orig.to_multiset());
        assert(arranges(orig, r@, idx));
    }
    r
}

/// Loading a session record keeps every field in the field of the same name
/// (a favorite stays a favorite, an archived session stays archived, and so
/// on); only the strategy is read into a turn-taking model. Storing a session
/// keeps every field likewise.
pub proof fn lemma_session_fields_kept(d: SessionV4_0_0, s: ChatSession, r: SessionV4_0_0)
    ensures
        spec_session_into_domain(d).id == d.id,
        spec_session_into_domain(d).title == d.title,
        spec_session_into_domain(d).created_at == d.created_at,
        spec_session_into_domain(d).updated_at == d.updated_at,
        spec_session_into_domain(d).current_persona_id == d.current_persona_id,
        spec_session_into_domain(d).persona_histories == d.persona_histories,
        spec_session_into_domain(d).app_mode == d.app_mode,
        spec_session_into_domain(d).workspace_id == d.workspace_id,
        spec_session_into_domain(d).active_participant_ids == d.active_participant_ids,
        spec_session_into_domain(d).system_messages == d.system_messages,
        spec_session_into_domain(d).participants == d.participants,
        spec_session_into_domain(d).participant_icons == d.participant_icons,
        spec_session_into_domain(d).participant_colors == d.participant_colors,
        spec_session_into_domain(d).participant_backends == d.participant_backends,
        spec_session_into_domain(d).participant_models == d.participant_models,
        spec_session_into_domain(d).conversation_mode == d.conversation_mode,
        spec_session_into_domain(d).talk_style == d.talk_style,
        spec_session_into_domain(d).is_favorite == d.is_favorite,
        spec_session_into_domain(d).is_archived == d.is_archived,
        spec_session_into_domain(d).sort_order == d.sort_order,
        spec_session_into_domain(d).auto_chat_config == d.auto_chat_config,
        spec_session_into_domain(d).execution_strategy == spec_strategy_into_domain(d.execution_strategy),
        is_session_record_of(s, r) ==> r.id == s.id,
        is_session_record_of(s, r) ==> r.title == s.title,
        is_session_record_of(s, r) ==> r.created_at == s.created_at,
        is_session_record_of(s, r) ==> r.updated_at == s.updated_at,
        is_session_record_of(s, r) ==> r.current_persona_id == s.current_persona_id,
        is_session_record_of(s, r) ==> r.persona_histories == s.persona_histories,
        is_session_record_of(s, r) ==> r.app_mode == s.app_mode,
        is_session_record_of(s, r) ==> r.workspace_id == s.workspace_id,
        is_session_record_of(s, r) ==> r.active_participant_ids == s.active_participant_ids,
        is_session_record_of(s, r) ==> r.system_messages == s.system_messages,
        is_session_record_of(s, r) ==> r.participants == s.participants,
        is_session_record_of(s, r) ==> r.participant_icons == s.participant_icons,
        is_session_record_of(s, r) ==> r.participant_colors == s.participant_colors,
        is_session_record_of(s, r) ==> r.participant_backends == s.participant_backends,
        is_session_record_of(s, r) ==> r.participant_models == s.participant_models,
        is_session_record_of(s, r) ==> r.conversation_mode == s.conversation_mode,
        is_session_record_of(s, r) ==> r.talk_style == s.talk_style,
        is_session_record_of(s, r) ==> r.is_favorite == s.is_favorite,
        is_session_record_of(s, r) ==> r.is_archived == s.is_archived,
        is_session_record_of(s, r) ==> r.sort_order == s.sort_order,
        is_session_record_of(s, r) ==> r.auto_chat_config == s.auto_chat_config,
        is_session_record_of(s, r) ==> is_stored_strategy_of(s.execution_strategy, r.execution_strategy),
{
}

/// Migrating a 1.0.0 session to the latest schema keeps its id, name (as
/// title), created_at, updated_at, current_persona_id, app_mode unchanged.
pub proof fn lemma_latest_from_v1_0_0_keeps(a: SessionV1_0_0, r: SessionV4_0_0)
    requires
        latest_from_v1_0_0(a, r),
    ensures
        r.id == a.id,
        r.title == a.name,
        r.created_at == a.created_at,
        r.updated_at == a.updated_at,
        r.current_persona_id == a.current_persona_id,
        r.app_mode == a.app_mode,
{
    let b = choose|b: SessionV1_1_0| #[trigger] spec_step_v1_0_0(a, b) && latest_from_v1_1_0(b, r);
    lemma_latest_from_v1_1_0_keeps(b, r);
}

/// Migrating a 1.1.0 session to the latest schema keeps its id, title,
/// created_at, updated_at, current_persona_id, app_mode unchanged.
pub proof fn lemma_latest_from_v1_1_0_keeps(a: SessionV1_1_0, r: SessionV4_0_0)
    requires
        latest_from_v1_1_0(a, r),
    ensures
        r.id == a.id,
        r.title == a.title,
        r.created_at == a.created_at,
        r.updated_at == a.updated_at,
        r.current_persona_id == a.current_persona_id,
        r.app_mode == a.app_mode,
{
    let b = choose|b: SessionV2_0_0| #[trigger] spec_step_v1_1_0(a, b) && latest_from_v2_0_0(b, r);
    lemma_latest_from_v2_0_0_keeps(b, r);
}

/// Migrating a 2.0.0 session to the latest schema keeps its id, title,
/// created_at, updated_at, current_persona_id, app_mode unchanged.
pub proof fn lemma_latest_from_v2_0_0_keeps(a: SessionV2_0_0, r: SessionV4_0_0)
    requires
        latest_from_v2_0_0(a, r),
    ensures
        r.id == a.id,
        r.title == a.title,
        r.created_at == a.created_at,
        r.updated_at == a.updated_at,
        r.current_persona_id == a.current_persona_id,
        r.app_mode == a.app_mode,
{
    let b = choose|b: SessionV2_1_0| #[trigger] spec_step_v2_0_0(a, b) && latest_from_v2_1_0(b, r);
    lemma_latest_from_v2_1_0_keeps(b, r);
}

/// Migrating a 2.1.0 session to the latest schema keeps its id, title,
/// created_at, updated_at, current_persona_id, app_mode, active_participant_ids
/// unchanged.
pub proof fn lemma_latest_from_v2_1_0_keeps(a: SessionV2_1_0, r: SessionV4_0_0)
    requires
        latest_from_v2_1_0(a, r),
    ensures
        r.id == a.id,
        r.title == a.title,
        r.created_at == a.created_at,
        r.updated_at == a.updated_at,
        r.current_persona_id == a.current_persona_id,
        r.app_mode == a.app_mode,
        r.active_participant_ids == a.active_participant_ids,
{
    let b = choose|b: SessionV2_2_0| #[trigger] spec_step_v2_1_0(a, b) && latest_from_v2_2_0(b, r);
    lemma_latest_from_v2_2_0_keeps(b, r);
}

/// Migrating a 2.2.0 session to the latest schema keeps its id, title,
/// created_at, updated_at, current_persona_id, app_mode, active_participant_ids
/// unchanged.
pub proof fn lemma_latest_from_v2_2_0_keeps(a: SessionV2_2_0, r: SessionV4_0_0)
    requires
        latest_from_v2_2_0(a, r),
    ensures
        r.id == a.id,
        r.title == a.title,
        r.created_at == a.created_at,
        r.updated_at == a.updated_at,
        r.current_persona_id == a.current_persona_id,
        r.app_mode == a.app_mode,
        r.active_participant_ids == a.active_participant_ids,
{
    let b = choose|b: SessionV2_3_0| #[trigger] spec_step_v2_2_0(a, b) && latest_from_v2_3_0(b, r);
    lemma_latest_from_v2_3_0_keeps(b, r);
}

/// Migrating a 2.3.0 session to the latest schema keeps its id, title,
/// created_at, updated_at, current_persona_id, app_mode,
/// active_participant_ids, participants unchanged.
pub proof fn lemma_latest_from_v2_3_0_keeps(a: SessionV2_3_0, r: SessionV4_0_0)
    requires
        latest_from_v2_3_0(a, r),
    ensures
        r.id == a.id,
        r.title == a.title,
        r.created_at == a.created_at,
        r.updated_at == a.updated_at,
        r.current_persona_id == a.current_persona_id,
        r.app_mode == a.app_mode,
        r.active_participant_ids == a.active_participant_ids,
        r.participants == a.participants,
{
    let b = choose|b: SessionV2_4_0| #[trigger] spec_step_v2_3_0(a, b) && latest_from_v2_4_0(b, r);
    lemma_latest_from_v2_4_0_keeps(b, r);
}

/// Migrating a 2.4.0 session to the latest schema keeps its id, title,
/// created_at, updated_at, current_persona_id, app_mode,
/// active_participant_ids, participants, conversation_mode unchanged.
pub proof fn lemma_latest_from_v2_4_0_keeps(a: SessionV2_4_0, r: SessionV4_0_0)
    requires
        latest_from_v2_4_0(a, r),
    ensures
        r.id == a.id,
        r.title == a.title,
        r.created_at == a.created_at,
        r.updated_at == a.updated_at,
        r.current_persona_id == a.current_persona_id,
        r.app_mode == a.app_mode,
        r.active_participant_ids == a.active_participant_ids,
        r.participants == a.participants,
        r.conversation_mode == a.conversation_mode,
{
    let b = choose|b: SessionV2_5_0| #[trigger] spec_step_v2_4_0(a, b) && latest_from_v2_5_0(b, r);
    lemma_latest_from_v2_5_0_keeps(b, r);
}

/// Migrating a 2.5.0 session to the latest schema keeps its id, title,
/// created_at, updated_at, current_persona_id, app_mode,
/// active_participant_ids, participants, conversation_mode, talk_style
/// unchanged.
pub proof fn lemma_latest_from_v2_5_0_keeps(a: SessionV2_5_0, r: SessionV4_0_0)
    requires
        latest_from_v2_5_0(a, r),
    ensures
        r.id == a.id,
        r.title == a.title,
        r.created_at == a.created_at,
        r.updated_at == a.updated_at,
        r.current_persona_id == a.current_persona_id,
        r.app_mode == a.app_mode,
        r.active_participant_ids == a.active_participant_ids,
        r.participants == a.participants,
        r.conversation_mode == a.conversation_mode,
        r.talk_style == a.talk_style,
{
    let b = choose|b: SessionV2_6_0| #[trigger] spec_step_v2_5_0(a, b) && latest_from_v2_6_0(b, r);
    lemma_latest_from_v2_6_0_keeps(b, r);
}

/// Migrating a 2.6.0 session to the latest schema keeps its id, title,
/// created_at, updated_at, current_persona_id, persona_histories, app_mode,
/// active_participant_ids, system_messages, participants, conversation_mode,
/// talk_style unchanged.
pub proof fn lemma_latest_from_v2_6_0_keeps(a: SessionV2_6_0, r: SessionV4_0_0)
    requires
        latest_from_v2_6_0(a, r),
    ensures
        r.id == a.id,
        r.title == a.title,
        r.created_at == a.created_at,
        r.updated_at == a.updated_at,
        r.current_persona_id == a.current_persona_id,
        r.persona_histories == a.persona_histories,
        r.app_mode == a.app_mode,
        r.active_participant_ids == a.active_participant_ids,
        r.system_messages == a.system_messages,
        r.participants == a.participants,
        r.conversation_mode == a.conversation_mode,
        r.talk_style == a.talk_style,
{
    let b = choose|b: SessionV2_7_0| #[trigger] spec_step_v2_6_0(a, b) && latest_from_v2_7_0(b, r);
    lemma_latest_from_v2_7_0_keeps(b, r);
}

/// Migrating a 2.7.0 session to the latest schema keeps its id, title,
/// created_at, updated_at, current_persona_id, persona_histories, app_mode,
/// active_participant_ids, system_messages, participants, conversation_mode,
/// talk_style unchanged.
pub proof fn lemma_latest_from_v2_7_0_keeps(a: SessionV2_7_0, r: SessionV4_0_0)
    requires
        latest_from_v2_7_0(a, r),
    ensures
        r.id == a.id,
        r.title == a.title,
        r.created_at == a.created_at,
        r.updated_at == a.updated_at,
        r.current_persona_id == a.current_persona_id,
        r.persona_histories == a.persona_histories,
        r.app_mode == a.app_mode,
        r.active_participant_ids == a.active_participant_ids,
        r.system_messages == a.system_messages,
        r.participants == a.participants,
        r.conversation_mode == a.conversation_mode,
        r.talk_style == a.talk_style,
{
    let b = choose|b: SessionV2_8_0| #[trigger] spec_step_v2_7_0(a, b) && latest_from_v2_8_0(b, r);
    lemma_latest_from_v2_8_0_keeps(b, r);
}

/// Migrating a 2.8.0 session to the latest schema keeps its id, title,
/// created_at, updated_at, current_persona_id, persona_histories, app_mode,
/// active_participant_ids, system_messages, participants, participant_icons,
/// conversation_mode, talk_style unchanged.
pub proof fn lemma_latest_from_v2_8_0_keeps(a: SessionV2_8_0, r: SessionV4_0_0)
    requires
        latest_from_v2_8_0(a, r),
    ensures
        r.id == a.id,
        r.title == a.title,
        r.created_at == a.created_at,
        r.updated_at == a.updated_at,
        r.current_persona_id == a.current_persona_id,
        r.persona_histories == a.persona_histories,
        r.app_mode == a.app_mode,
        r.active_participant_ids == a.active_participant_ids,
        r.system_messages == a.system_messages,
        r.participants == a.participants,
        r.participant_icons == a.participant_icons,
        r.conversation_mode == a.conversation_mode,
        r.talk_style == a.talk_style,
{
    let b = choose|b: SessionV2_9_0| #[trigger] spec_step_v2_8_0(a, b) && latest_from_v2_9_0(b, r);
    lemma_latest_from_v2_9_0_keeps(b, r);
}

/// Migrating a 2.9.0 session to the latest schema keeps its id, title,
/// created_at, updated_at, current_persona_id, persona_histories, app_mode,
/// active_participant_ids, system_messages, participants, participant_icons,
/// participant_colors, conversation_mode, talk_style unchanged.
pub proof fn lemma_latest_from_v2_9_0_keeps(a: SessionV2_9_0, r: SessionV4_0_0)
    requires
        latest_from_v2_9_0(a, r),
    ensures
        r.id == a.id,
        r.title == a.title,
        r.created_at == a.created_at,
        r.updated_at == a.updated_at,
        r.current_persona_id == a.current_persona_id,
        r.persona_histories == a.persona_histories,
        r.app_mode == a.app_mode,
        r.active_participant_ids == a.active_participant_ids,
        r.system_messages == a.system_messages,
        r.participants == a.participants,
        r.participant_icons == a.participant_icons,
        r.participant_colors == a.participant_colors,
        r.conversation_mode == a.conversation_mode,
        r.talk_style == a.talk_style,
{
    let b = choose|b: SessionV3_0_0| #[trigger] spec_step_v2_9_0(a, b) && latest_from_v3_0_0(b, r);
    lemma_latest_from_v3_0_0_keeps(b, r);
}

/// Migrating a 3.0.0 session to the latest schema keeps its id, title,
/// created_at, updated_at, current_persona_id, persona_histories, app_mode,
/// workspace_id, active_participant_ids, system_messages, participants,
/// participant_icons, participant_colors, conversation_mode, talk_style
/// unchanged.
pub proof fn lemma_latest_from_v3_0_0_keeps(a: SessionV3_0_0, r: SessionV4_0_0)
    requires
        latest_from_v3_0_0(a, r),
    ensures
        r.id == a.id,
        r.title == a.title,
        r.created_at == a.created_at,
        r.updated_at == a.updated_at,
        r.current_persona_id == a.current_persona_id,
        r.persona_histories == a.persona_histories,
        r.app_mode == a.app_mode,
        r.workspace_id == a.workspace_id,
        r.active_participant_ids == a.active_participant_ids,
        r.system_messages == a.system_messages,
        r.participants == a.participants,
        r.participant_icons == a.participant_icons,
        r.participant_colors == a.participant_colors,
        r.conversation_mode == a.conversation_mode,
        r.talk_style == a.talk_style,
{
    let b = choose|b: SessionV3_1_0| #[trigger] spec_step_v3_0_0(a, b) && latest_from_v3_1_0(b, r);
    lemma_latest_from_v3_1_0_keeps(b, r);
}

/// Migrating a 3.1.0 session to the latest schema keeps its id, title,
/// created_at, updated_at, current_persona_id, persona_histories, app_mode,
/// workspace_id, active_participant_ids, system_messages, participants,
/// participant_icons, participant_colors, conversation_mode, talk_style,
/// is_favorite, is_archived unchanged.
pub proof fn lemma_latest_from_v3_1_0_keeps(a: SessionV3_1_0, r: SessionV4_0_0)
    requires
        latest_from_v3_1_0(a, r),
    ensures
        r.id == a.id,
        r.title == a.title,
        r.created_at == a.created_at,
        r.updated_at == a.updated_at,
        r.current_persona_id == a.current_persona_id,
        r.persona_histories == a.persona_histories,
        r.app_mode == a.app_mode,
        r.workspace_id == a.workspace_id,
        r.active_participant_ids == a.active_participant_ids,
        r.system_messages == a.system_messages,
        r.participants == a.participants,
        r.participant_icons == a.participant_icons,
        r.participant_colors == a.participant_colors,
        r.conversation_mode == a.conversation_mode,
        r.talk_style == a.talk_style,
        r.is_favorite == a.is_favorite,
        r.is_archived == a.is_archived,
{
    let b = choose|b: SessionV3_2_0| #[trigger] spec_step_v3_1_0(a, b) && latest_from_v3_2_0(b, r);
    lemma_latest_from_v3_2_0_keeps(b, r);
}

/// Migrating a 3.2.0 session to the latest schema keeps its id, title,
/// created_at, updated_at, current_persona_id, persona_histories, app_mode,
/// workspace_id, active_participant_ids, system_messages, participants,
/// participant_icons, participant_colors, conversation_mode, talk_style,
/// is_favorite, is_archived, sort_order unchanged.
pub proof fn lemma_latest_from_v3_2_0_keeps(a: SessionV3_2_0, r: SessionV4_0_0)
    requires
        latest_from_v3_2_0(a, r),
    ensures
        r.id == a.id,
        r.title == a.title,
        r.created_at == a.created_at,
        r.updated_at == a.updated_at,
        r.current_persona_id == a.current_persona_id,
        r.persona_histories == a.persona_histories,
        r.app_mode == a.app_mode,
        r.workspace_id == a.workspace_id,
        r.active_participant_ids == a.active_participant_ids,
        r.system_messages == a.system_messages,
        r.participants == a.participants,
        r.participant_icons == a.participant_icons,
        r.participant_colors == a.participant_colors,
        r.conversation_mode == a.conversation_mode,
        r.talk_style == a.talk_style,
        r.is_favorite == a.is_favorite,
        r.is_archived == a.is_archived,
        r.sort_order == a.sort_order,
{
    let b = choose|b: SessionV3_3_0| #[trigger] spec_step_v3_2_0(a, b) && latest_from_v3_3_0(b, r);
    lemma_latest_from_v3_3_0_keeps(b, r);
}

/// Migrating a 3.3.0 session to the latest schema keeps its id, title,
/// created_at, updated_at, current_persona_id, persona_histories, app_mode,
/// workspace_id, active_participant_ids, system_messages, participants,
/// participant_icons, participant_colors, conversation_mode, talk_style,
/// is_favorite, is_archived, sort_order, auto_chat_config unchanged.
pub proof fn lemma_latest_from_v3_3_0_keeps(a: SessionV3_3_0, r: SessionV4_0_0)
    requires
        latest_from_v3_3_0(a, r),
    ensures
        r.id == a.id,
        r.title == a.title,
        r.created_at == a.created_at,
        r.updated_at == a.updated_at,
        r.current_persona_id == a.current_persona_id,
        r.persona_histories == a.persona_histories,
        r.app_mode == a.app_mode,
        r.workspace_id == a.workspace_id,
        r.active_participant_ids == a.active_participant_ids,
        r.system_messages == a.system_messages,
        r.participants == a.participants,
        r.participant_icons == a.participant_icons,
        r.participant_colors == a.participant_colors,
        r.conversation_mode == a.conversation_mode,
        r.talk_style == a.talk_style,
        r.is_favorite == a.is_favorite,
        r.is_archived == a.is_archived,
        r.sort_order == a.sort_order,
        r.auto_chat_config == a.auto_chat_config,
{
    let b = choose|b: SessionV3_4_0| #[trigger] spec_step_v3_3_0(a, b) && latest_from_v3_4_0(b, r);
    lemma_latest_from_v3_4_0_keeps(b, r);
}

/// Migrating a 3.4.0 session to the latest schema keeps its id, title,
/// created_at, updated_at, current_persona_id, persona_histories, app_mode,
/// workspace_id, active_participant_ids, system_messages, participants,
/// participant_icons, participant_colors, conversation_mode, talk_style,
/// is_favorite, is_archived, sort_order, auto_chat_config unchanged.
pub proof fn lemma_latest_from_v3_4_0_keeps(a: SessionV3_4_0, r: SessionV4_0_0)
    requires
        latest_from_v3_4_0(a, r),
    ensures
        r.id == a.id,
        r.title == a.title,
        r.created_at == a.created_at,
        r.updated_at == a.updated_at,
        r.current_persona_id == a.current_persona_id,
        r.persona_histories == a.persona_histories,
        r.app_mode == a.app_mode,
        r.workspace_id == a.workspace_id,
        r.active_participant_ids == a.active_participant_ids,
        r.system_messages == a.system_messages,
        r.participants == a.participants,
        r.participant_icons == a.participant_icons,
        r.participant_colors == a.participant_colors,
        r.conversation_mode == a.conversation_mode,
        r.talk_style == a.talk_style,
        r.is_favorite == a.is_favorite,
        r.is_archived == a.is_archived,
        r.sort_order == a.sort_order,
        r.auto_chat_config == a.auto_chat_config,
{

}

} // verus!
