//! Sessions: a conversation with its per-persona histories.
//!
//! A session's histories are kept as a list of `(persona id, messages)`
//! entries whose keys are pairwise distinct, read as a map from key to messages.

use vstd::prelude::*;

verus! {

/// Who wrote a message.
#[derive(Debug, Clone, Copy, PartialEq, Eq, Structural)]
pub enum MessageRole {
    User,
    Assistant,
    System,
}

/// What the application is doing in a session.
#[derive(Debug, Clone, Copy, PartialEq, Eq, Structural)]
pub enum AppMode {
    Idle,
}

/// One message of a conversation.
#[derive(Debug, Clone)]
pub struct ConversationMessage {
    pub role: MessageRole,
    pub content: String,
    /// ISO 8601 timestamp.
    pub timestamp: String,
}

/// A conversation session.
#[derive(Debug, Clone)]
pub struct Session {
    pub id: String,
    pub title: String,
    /// ISO 8601 timestamp of creation.
    pub created_at: String,
    /// ISO 8601 timestamp of the last update.
    pub updated_at: String,
    /// The persona currently speaking.
    pub current_persona_id: String,
    /// Conversation history for each persona, keyed by persona id.
    pub persona_histories: Vec<(String, Vec<ConversationMessage>)>,
    pub app_mode: AppMode,
}

/// The entries of a history list as (key, messages) values.
pub open spec fn entries_view(h: Seq<(String, Vec<ConversationMessage>)>) -> Seq<
    (Seq<char>, Seq<ConversationMessage>),
> {
    h.map_values(|e: (String, Vec<ConversationMessage>)| (e.0@, e.1@))
}

/// Entries read as a map from key to messages; a later entry overrides an earlier one.
pub open spec fn entries_map(s: Seq<(Seq<char>, Seq<ConversationMessage>)>) -> Map<
    Seq<char>,
    Seq<ConversationMessage>,
>
    decreases s.len(),
{
    if s.len() == 0 {
        Map::empty()
    } else {
        entries_map(s.drop_last()).insert(s.last().0, s.last().1)
    }
}

/// No key occurs twice.
pub open spec fn keys_distinct(h: Seq<(String, Vec<ConversationMessage>)>) -> bool {
    forall|i: int, j: int| 0 <= i < j < h.len() ==> #[trigger] h[i].0@ != #[trigger] h[j].0@
}

/// Replacing the messages of the entry whose key is `k` is inserting `k` into
/// the map, when no other entry has that key.
pub proof fn lemma_entries_map_update(
    s: Seq<(Seq<char>, Seq<ConversationMessage>)>,
    i: int,
    m: Seq<ConversationMessage>,
)
    requires
        0 <= i < s.len(),
        forall|j: int| 0 <= j < s.len() && j != i ==> s[j].0 != s[i].0,
    ensures
        entries_map(s.update(i, (s[i].0, m))) == entries_map(s).insert(s[i].0, m),
    decreases s.len(),
{
    let t = s.update(i, (s[i].0, m));
    if i == s.len() - 1 {
        assert(t.drop_last() =~= s.drop_last());
        assert(entries_map(t) =~= entries_map(s).insert(s[i].0, m));
    } else {
        let d = s.drop_last();
        assert(t.drop_last() =~= d.update(i, (d[i].0, m)));
        lemma_entries_map_update(d, i, m);
        assert(s.last().0 != s[i].0);
        assert(entries_map(t) =~= entries_map(s).insert(s[i].0, m));
    }
}

/// Sets the messages kept under `key`: replaces the entry with that key, or
/// appends one.
pub fn insert_history(
    h: &mut Vec<(String, Vec<ConversationMessage>)>,
    key: String,
    messages: Vec<ConversationMessage>,
)
    requires
        keys_distinct(old(h)@),
    ensures
        keys_distinct(final(h)@),
        entries_map(entries_view(final(h)@)) == entries_map(entries_view(old(h)@)).insert(
            key@,
            messages@,
        ),
{
    let n = h.len();
    let mut i: usize = 0;
    while i < n
        invariant
            n == h.len(),
            i <= n,
            h@ == old(h)@,
            keys_distinct(h@),
            forall|j: int| 0 <= j < i ==> (#[trigger] h@[j]).0@ != key@,
        decreases n - i,
    {
        if crate::text::str_eq(h[i].0.as_str(), key.as_str()) {
            let ghost before = h@;
            proof {
                let s = entries_view(before);
                assert forall|j: int| 0 <= j < s.len() && j != i implies s[j].0 != s[i as int].0 by {
                    if j < i {
                        assert(before[j].0@ != before[i as int].0@);
                    } else {
                        assert(before[i as int].0@ != before[j].0@);
                    }
                    assert(s[j].0 == before[j].0@);
                }
                lemma_entries_map_update(s, i as int, messages@);
            }
            h.set(i, (key, messages));
            proof {
                assert(entries_view(h@) =~= entries_view(before).update(
                    i as int,
                    (entries_view(before)[i as int].0, messages@),
                ));
                assert forall|a: int, b: int| 0 <= a < b < h@.len() implies #[trigger] h@[a].0@
                    != #[trigger] h@[b].0@ by {
                    assert(before[a].0@ != before[b].0@);
                }
            }
            return;
        }
        i = i + 1;
    }
    let ghost before = h@;
    h.push((key, messages));
    proof {
        assert(entries_view(h@).drop_last() =~= entries_view(before));
        assert forall|a: int, b: int| 0 <= a < b < h@.len() implies #[trigger] h@[a].0@
            != #[trigger] h@[b].0@ by {
            if b == h@.len() - 1 {
                assert(before[a].0@ != key@);
            } else {
                assert(before[a].0@ != before[b].0@);
            }
        }
    }
}

} // verus!
