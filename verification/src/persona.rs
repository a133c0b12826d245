//! Personas: the participants of a conversation, and where they are kept.

use vstd::prelude::*;
use crate::text::str_eq;

verus! {

/// Where a persona comes from.
#[derive(Debug, Clone, Copy, PartialEq, Eq, Structural)]
pub enum PersonaSource {
    /// Shipped with the application.
    System,
    /// Created by the user.
    User,
}

/// The backend a persona is executed with.
#[derive(Debug, Clone, Copy, PartialEq, Eq, Structural)]
pub enum PersonaBackend {
    ClaudeCli,
    ClaudeApi,
    GeminiCli,
    GeminiApi,
    OpenAiApi,
    CodexCli,
}

impl Default for PersonaBackend {
    fn default() -> (r: Self)
        ensures
            r == PersonaBackend::ClaudeCli,
    {
        PersonaBackend::ClaudeCli
    }
}

/// A persona: an assistant profile taking part in sessions.
#[derive(Debug, Clone)]
pub struct Persona {
    /// Unique identifier (a UUID).
    pub id: String,
    /// Display name.
    pub name: String,
    /// Role or title.
    pub role: String,
    /// Background description.
    pub background: String,
    /// Communication style.
    pub communication_style: String,
    /// Whether the persona joins new sessions by default.
    pub default_participant: bool,
    /// Where the persona comes from.
    pub source: PersonaSource,
    /// Backend the persona is executed with.
    pub backend: PersonaBackend,
    /// Model name for the backend; None means the backend's default model.
    pub model_name: Option<String>,
    /// Icon or emoji representing the persona.
    pub icon: Option<String>,
    /// Base color of the persona in the interface.
    pub base_color: Option<String>,
}

/// Storage of personas.
pub trait PersonaRepository {
    /// All stored personas, or a description of why they could not be read.
    fn get_all(&self) -> Result<Vec<Persona>, String>;

    /// Replaces the stored personas.
    fn save_all(&self, configs: &[Persona]) -> Result<(), String>;
}

/// Some persona has identifier `id`.
pub open spec fn has_persona_id(personas: Seq<Persona>, id: Seq<char>) -> bool {
    exists|i: int| 0 <= i < personas.len() && (#[trigger] personas[i]).id@ == id
}

/// The stored identifiers no persona of the new list has, in stored order.
pub open spec fn spec_orphaned_ids(stored: Seq<String>, personas: Seq<Persona>) -> Seq<String> {
    stored.filter(|id: String| !has_persona_id(personas, id@))
}

/// Whether some persona has identifier `id`.
fn contains_persona_id(personas: &Vec<Persona>, id: &str) -> (r: bool)
    ensures
        r == has_persona_id(personas@, id@),
{
    let n = personas.len();
    let mut i: usize = 0;
    while i < n
        invariant
            n == personas@.len(),
            i <= n,
            forall|j: int| 0 <= j < i ==> (#[trigger] personas@[j]).id@ != id@,
        decreases n - i,
    {
        if str_eq(personas[i].id.as_str(), id) {
            return true;
        }
        i = i + 1;
    }
    false
}

/// The stored personas that replacing the stored list with `personas`
/// removes: those whose identifier no new persona has.
pub fn orphaned_ids(stored: &Vec<String>, personas: &Vec<Persona>) -> (r: Vec<String>)
    ensures
        r@ == spec_orphaned_ids(stored@, personas@),
{
    broadcast use Seq::lemma_filter_push;

    let ghost pred = |id: String| !has_persona_id(personas@, id@);
    let n = stored.len();
    let mut r: Vec<String> = Vec::new();
    let mut i: usize = 0;
    proof {
        assert(stored@.take(0).filter(pred) =~= Seq::<String>::empty());
    }
    while i < n
        invariant
            n == stored@.len(),
            i <= n,
            pred == (|id: String| !has_persona_id(personas@, id@)),
            r@ == stored@.take(i as int).filter(pred),
        decreases n - i,
    {
        let id = &stored[i];
        proof {
            assert(stored@.take(i + 1) =~= stored@.take(i as int).push(stored@[i as int]));
            stored@.take(i as int).lemma_filter_push(stored@[i as int], pred);
        }
        if !contains_persona_id(personas, id.as_str()) {
            r.push(id.clone());
        }
        i = i + 1;
    }
    proof {
        assert(stored@.take(n as int) =~= stored@);
    }
    r
}

/// An identifier that remains stored after a save of `personas` over the
/// stored identifiers `stored`: a stored one that was not removed as
/// orphaned, or one that was written.
pub open spec fn stored_after_save(stored: Seq<String>, personas: Seq<Persona>, id: Seq<char>) -> bool {
    ||| exists|i: int|
        0 <= i < stored.len() && (#[trigger] stored[i])@ == id
            && !spec_orphaned_ids(stored, personas).contains(stored[i])
    ||| has_persona_id(personas, id)
}

/// After a save removes the orphaned identifiers and writes every persona,
/// exactly the identifiers of the saved personas remain stored.
pub proof fn lemma_save_leaves_exactly_the_personas(stored: Seq<String>, personas: Seq<Persona>, id: Seq<char>)
    ensures
        stored_after_save(stored, personas, id) <==> has_persona_id(personas, id),
{
    let pred = |s: String| !has_persona_id(personas, s@);
    if exists|i: int|
        0 <= i < stored.len() && (#[trigger] stored[i])@ == id
            && !spec_orphaned_ids(stored, personas).contains(stored[i]) {
        let i = choose|i: int|
            0 <= i < stored.len() && (#[trigger] stored[i])@ == id
                && !spec_orphaned_ids(stored, personas).contains(stored[i]);
        if !has_persona_id(personas, id) {
            assert(pred(stored[i]));
            stored.lemma_filter_contains(pred, i);
            assert(spec_orphaned_ids(stored, personas) == stored.filter(pred));
        }
    }
}

} // verus!
