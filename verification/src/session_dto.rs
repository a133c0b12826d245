//! Stored execution strategies of sessions.
//!
//! 1.0.0 is a plain strategy name; 2.0.0 also keeps, for mention-based turn
//! taking, how mentions are matched (as JSON text). Both stand apart from the
//! dialogue library's own type, which they are read into.

use vstd::prelude::*;
use crate::dialogue::{
    MentionMatching, TurnTaking, mention_matching_from_json, mention_matching_json_text,
    mention_matching_to_json, parse_mention_matching_json,
};
use crate::text::{
    ascii_lower, ascii_lowercase_text, is_ascii_text, spec_to_lowercase, str_eq, to_lowercase,
};

verus! {

/// Execution strategy, schema 1.0.0: a strategy name.
#[derive(Debug, Clone, Copy, PartialEq, Eq, Structural)]
pub enum ExecutionStrategyV1_0_0 {
    Sequential,
    Broadcast,
    Mentioned,
}

/// Execution strategy, schema 2.0.0.
#[derive(Debug, Clone, PartialEq, Eq)]
pub enum ExecutionStrategyV2_0_0 {
    Sequential,
    Broadcast,
    /// Mention-based; `strategy` is the JSON text of the mention matching.
    Mentioned { strategy: Option<String> },
}

/// The 1.0.0 strategy a stored name stands for: "sequential" in any case
/// gives `Sequential`; every other name, "mentioned" included (it is compared,
/// after lowercasing, with "Mentioned", which no lowercased text equals),
/// falls back to `Broadcast`.
pub open spec fn spec_strategy_of_name(name: Seq<char>) -> ExecutionStrategyV1_0_0 {
    if spec_to_lowercase(name) == "sequential"@ {
        ExecutionStrategyV1_0_0::Sequential
    } else if spec_to_lowercase(name) == "Mentioned"@ {
        ExecutionStrategyV1_0_0::Mentioned
    } else {
        ExecutionStrategyV1_0_0::Broadcast
    }
}

impl From<String> for ExecutionStrategyV1_0_0 {
    fn from(value: String) -> (r: Self) {
        let lowercase = to_lowercase(value.as_str());
        proof {
            reveal_strlit("sequential");
            reveal_strlit("Mentioned");
        }
        if str_eq(lowercase.as_str(), "sequential") {
            ExecutionStrategyV1_0_0::Sequential
        } else if str_eq(lowercase.as_str(), "Mentioned") {
            ExecutionStrategyV1_0_0::Mentioned
        } else {
            ExecutionStrategyV1_0_0::Broadcast
        }
    }
}

impl vstd::std_specs::convert::FromSpecImpl<String> for ExecutionStrategyV1_0_0 {
    open spec fn obeys_from_spec() -> bool {
        true
    }

    open spec fn from_spec(value: String) -> Self {
        spec_strategy_of_name(value@)
    }
}

/// A strategy name in ASCII is never read as mention-based: it is compared,
/// after lowercasing, with "Mentioned", and no lowercased ASCII text begins
/// with an uppercase letter.
pub proof fn lemma_ascii_name_never_mentioned(name: Seq<char>)
    requires
        is_ascii_text(name),
    ensures
        spec_strategy_of_name(name) != ExecutionStrategyV1_0_0::Mentioned,
{
    reveal_strlit("Mentioned");
    let l = ascii_lowercase_text(name);
    if l == "Mentioned"@ {
        assert(l.len() == 9);
        assert(name.len() == 9);
        assert(l[0] == ascii_lower(name[0]));
        assert(l[0] == 'M');
    }
}

/// "sequential", in any mix of cases, is read as sequential; "broadcast" as
/// broadcast.
pub proof fn lemma_plain_strategy_names()
    ensures
        spec_strategy_of_name("sequential"@) == ExecutionStrategyV1_0_0::Sequential,
        spec_strategy_of_name("Sequential"@) == ExecutionStrategyV1_0_0::Sequential,
        spec_strategy_of_name("broadcast"@) == ExecutionStrategyV1_0_0::Broadcast,
{
    reveal_strlit("sequential");
    reveal_strlit("Sequential");
    reveal_strlit("broadcast");
    reveal_strlit("Mentioned");
    assert(is_ascii_text("sequential"@));
    assert(ascii_lowercase_text("sequential"@) =~= "sequential"@);
    assert(is_ascii_text("Sequential"@));
    assert(ascii_lowercase_text("Sequential"@) =~= "sequential"@);
    assert(is_ascii_text("broadcast"@));
    assert(ascii_lowercase_text("broadcast"@) =~= "broadcast"@);
    assert("broadcast"@ != "sequential"@) by {
        assert("broadcast"@[0] != "sequential"@[0]);
    }
    assert("broadcast"@ != "Mentioned"@) by {
        assert("broadcast"@[0] != "Mentioned"@[0]);
    }
}

/// Strategy used when a record has none.
pub fn default_execution_strategy_v1_0_0() -> (r: ExecutionStrategyV1_0_0)
    ensures
        r == ExecutionStrategyV1_0_0::Broadcast,
{
    ExecutionStrategyV1_0_0::Broadcast
}

/// Strategy used when a record has none.
pub fn default_execution_strategy_v2_0_0() -> (r: ExecutionStrategyV2_0_0)
    ensures
        r == ExecutionStrategyV2_0_0::Broadcast,
{
    ExecutionStrategyV2_0_0::Broadcast
}

/// The 2.0.0 strategy of a 1.0.0 strategy; a mention-based strategy has no
/// matching recorded.
pub open spec fn spec_migrate_strategy(s: ExecutionStrategyV1_0_0) -> ExecutionStrategyV2_0_0 {
    match s {
        ExecutionStrategyV1_0_0::Sequential => ExecutionStrategyV2_0_0::Sequential,
        ExecutionStrategyV1_0_0::Broadcast => ExecutionStrategyV2_0_0::Broadcast,
        ExecutionStrategyV1_0_0::Mentioned => ExecutionStrategyV2_0_0::Mentioned { strategy: None },
    }
}

impl ExecutionStrategyV1_0_0 {
    /// Migrates to 2.0.0; a mention-based strategy has no matching recorded.
    pub fn migrate(self) -> (r: ExecutionStrategyV2_0_0)
        ensures
            r == spec_migrate_strategy(self),
    {
        match self {
            ExecutionStrategyV1_0_0::Sequential => ExecutionStrategyV2_0_0::Sequential,
            ExecutionStrategyV1_0_0::Broadcast => ExecutionStrategyV2_0_0::Broadcast,
            ExecutionStrategyV1_0_0::Mentioned => ExecutionStrategyV2_0_0::Mentioned { strategy: None },
        }
    }
}

/// The mention matching a stored text stands for; unreadable or missing
/// text gives the default, exact-word matching.
pub open spec fn spec_matching_of_text(text: Option<String>) -> MentionMatching {
    match text {
        Some(t) => match mention_matching_from_json(t@) {
            Some(m) => m,
            None => MentionMatching::ExactWord,
        },
        None => MentionMatching::ExactWord,
    }
}

/// The turn-taking model a stored 2.0.0 strategy stands for.
pub open spec fn spec_strategy_into_domain(s: ExecutionStrategyV2_0_0) -> TurnTaking {
    match s {
        ExecutionStrategyV2_0_0::Sequential => TurnTaking::Sequential,
        ExecutionStrategyV2_0_0::Broadcast => TurnTaking::Broadcast,
        ExecutionStrategyV2_0_0::Mentioned { strategy } => TurnTaking::Mentioned {
            strategy: spec_matching_of_text(strategy),
        },
    }
}

/// `r` is how a turn-taking model is stored under schema 2.0.0: ordered
/// sequential and ordered broadcast models as plain sequential and broadcast
/// (the order is not kept), a moderated model as broadcast, and a
/// mention-based model with the JSON text of its matching.
pub open spec fn is_stored_strategy_of(model: TurnTaking, r: ExecutionStrategyV2_0_0) -> bool {
    &&& (model is Sequential || model is OrderedSequential) ==> r == ExecutionStrategyV2_0_0::Sequential
    &&& (model is Broadcast || model is OrderedBroadcast || model is Moderator) ==> r
        == ExecutionStrategyV2_0_0::Broadcast
    &&& model matches TurnTaking::Mentioned { strategy } ==> (r matches ExecutionStrategyV2_0_0::Mentioned {
        strategy: Some(t),
    } && t@ == mention_matching_json_text(strategy))
}

impl ExecutionStrategyV2_0_0 {
    /// The turn-taking model this strategy stands for.
    pub fn into_domain(self) -> (r: TurnTaking)
        ensures
            r == spec_strategy_into_domain(self),
            forall|m: MentionMatching|
                (self matches ExecutionStrategyV2_0_0::Mentioned { strategy: Some(t) } && t@
                    == mention_matching_json_text(m)) ==> r == (TurnTaking::Mentioned { strategy: m }),
    {
        match self {
            ExecutionStrategyV2_0_0::Sequential => TurnTaking::Sequential,
            ExecutionStrategyV2_0_0::Broadcast => TurnTaking::Broadcast,
            ExecutionStrategyV2_0_0::Mentioned { strategy } => {
                let parsed = match &strategy {
                    Some(t) => parse_mention_matching_json(t.as_str()),
                    None => None,
                };
                let m = match parsed {
                    Some(m) => m,
                    None => MentionMatching::default(),
                };
                TurnTaking::Mentioned { strategy: m }
            },
        }
    }

    /// The stored strategy of a turn-taking model. Ordered sequential and
    /// ordered broadcast models are stored as plain sequential and broadcast
    /// (the order is not kept); a moderated model, which this schema cannot
    /// represent, is stored as broadcast.
    pub fn from_domain(model: TurnTaking) -> (r: Self)
        ensures
            is_stored_strategy_of(model, r),
    {
        match model {
            TurnTaking::Sequential => ExecutionStrategyV2_0_0::Sequential,
            TurnTaking::OrderedSequential(_) => ExecutionStrategyV2_0_0::Sequential,
            TurnTaking::Broadcast => ExecutionStrategyV2_0_0::Broadcast,
            TurnTaking::OrderedBroadcast(_) => ExecutionStrategyV2_0_0::Broadcast,
            TurnTaking::Mentioned { strategy } => ExecutionStrategyV2_0_0::Mentioned {
                strategy: mention_matching_to_json(strategy),
            },
            TurnTaking::Moderator => ExecutionStrategyV2_0_0::Broadcast,
        }
    }
}

/// A stored strategy reads as the turn-taking model of the same kind:
/// sequential as sequential, broadcast as broadcast, mention-based as
/// mention-based.
pub proof fn lemma_strategy_kind_kept(s: ExecutionStrategyV2_0_0)
    ensures
        (s == ExecutionStrategyV2_0_0::Sequential) <==> spec_strategy_into_domain(s) == TurnTaking::Sequential,
        (s == ExecutionStrategyV2_0_0::Broadcast) <==> spec_strategy_into_domain(s) == TurnTaking::Broadcast,
        (s is Mentioned) <==> (spec_strategy_into_domain(s) is Mentioned),
{
}

} // verus!
