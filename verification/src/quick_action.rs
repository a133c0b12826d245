//! Quick action slots: a fixed row of lettered slots, each of which may run a
//! slash command, and their stored record (schema 1.0.0).

use vstd::prelude::*;
use crate::text::clone_opt_string;

verus! {

/// One quick action slot.
#[derive(Debug, Clone, PartialEq, Eq)]
pub struct QuickActionSlot {
    /// Slot identifier (A, B, C, ...)
    pub slot_id: String,
    /// Name of the slash command the slot runs (None: empty slot)
    pub command_name: Option<String>,
    /// Custom icon override
    pub icon: Option<String>,
    /// Custom color override
    pub color: Option<String>,
}

/// The quick action configuration of a workspace.
#[derive(Debug, Clone, PartialEq, Eq)]
pub struct QuickActionConfig {
    /// The slots, in display order
    pub slots: Vec<QuickActionSlot>,
    /// Maximum number of slots shown at once
    pub max_visible_slots: usize,
}

/// The letters that name the default slots, in order.
pub open spec fn default_slot_ids() -> Seq<Seq<char>> {
    seq!["A"@, "B"@, "C"@, "D"@, "E"@, "F"@, "G"@, "H"@, "I"@, "J"@]
}

/// An empty slot with the given identifier.
pub open spec fn spec_empty_slot(id: Seq<char>, s: QuickActionSlot) -> bool {
    s.slot_id@ == id && s.command_name is None && s.icon is None && s.color is None
}

/// Number of slots shown when a stored record does not say.
pub fn default_max_visible_slots() -> (r: usize)
    ensures
        r == 10,
{
    10
}

fn empty_slot(id: &str) -> (r: QuickActionSlot)
    ensures
        spec_empty_slot(id@, r),
{
    QuickActionSlot { slot_id: id.to_string(), command_name: None, icon: None, color: None }
}

impl Default for QuickActionConfig {
    /// Ten empty slots, A to J, all of them visible.
    fn default() -> (r: Self)
        ensures
            r.slots@.len() == default_slot_ids().len(),
            forall|i: int| 0 <= i < r.slots@.len() ==> spec_empty_slot(default_slot_ids()[i], #[trigger] r.slots@[i]),
            r.max_visible_slots == 10,
    {
        let mut slots: Vec<QuickActionSlot> = Vec::new();
        slots.push(empty_slot("A"));
        slots.push(empty_slot("B"));
        slots.push(empty_slot("C"));
        slots.push(empty_slot("D"));
        slots.push(empty_slot("E"));
        slots.push(empty_slot("F"));
        slots.push(empty_slot("G"));
        slots.push(empty_slot("H"));
        slots.push(empty_slot("I"));
        slots.push(empty_slot("J"));
        proof {
            reveal_strlit("A");
            reveal_strlit("B");
            reveal_strlit("C");
            reveal_strlit("D");
            reveal_strlit("E");
            reveal_strlit("F");
            reveal_strlit("G");
            reveal_strlit("H");
            reveal_strlit("I");
            reveal_strlit("J");
        }
        QuickActionConfig { slots, max_visible_slots: default_max_visible_slots() }
    }
}

/// Quick action slot record, schema 1.0.0.
#[derive(Debug, Clone)]
pub struct QuickActionSlotV1_0_0 {
    pub slot_id: String,
    pub command_name: Option<String>,
    pub icon: Option<String>,
    pub color: Option<String>,
}

/// Quick action configuration record, schema 1.0.0.
#[derive(Debug, Clone)]
pub struct QuickActionConfigV1_0_0 {
    pub slots: Vec<QuickActionSlotV1_0_0>,
    pub max_visible_slots: usize,
}

/// The domain slot of a record: every field carried over.
pub open spec fn spec_slot_into_domain(d: QuickActionSlotV1_0_0) -> QuickActionSlot {
    QuickActionSlot { slot_id: d.slot_id, command_name: d.command_name, icon: d.icon, color: d.color }
}

/// The record of a domain slot.
pub open spec fn spec_slot_from_domain(s: QuickActionSlot) -> QuickActionSlotV1_0_0 {
    QuickActionSlotV1_0_0 { slot_id: s.slot_id, command_name: s.command_name, icon: s.icon, color: s.color }
}

impl QuickActionSlotV1_0_0 {
    /// The domain slot.
    pub fn into_domain(self) -> (r: QuickActionSlot)
        ensures
            r == spec_slot_into_domain(self),
    {
        QuickActionSlot {
            slot_id: self.slot_id,
            command_name: self.command_name,
            icon: self.icon,
            color: self.color,
        }
    }

    /// The record of a domain slot.
    pub fn from_domain(slot: &QuickActionSlot) -> (r: Self)
        ensures
            r == spec_slot_from_domain(*slot),
    {
        QuickActionSlotV1_0_0 {
            slot_id: slot.slot_id.clone(),
            command_name: clone_opt_string(&slot.command_name),
            icon: clone_opt_string(&slot.icon),
            color: clone_opt_string(&slot.color),
        }
    }
}

/// The domain slot of a record, copied from a reference.
fn slot_of_record(d: &QuickActionSlotV1_0_0) -> (r: QuickActionSlot)
    ensures
        r == spec_slot_into_domain(*d),
{
    QuickActionSlot {
        slot_id: d.slot_id.clone(),
        command_name: clone_opt_string(&d.command_name),
        icon: clone_opt_string(&d.icon),
        color: clone_opt_string(&d.color),
    }
}

impl QuickActionConfigV1_0_0 {
    /// The domain configuration: each slot converted, in order.
    pub fn into_domain(self) -> (r: QuickActionConfig)
        ensures
            r.slots@ == self.slots@.map_values(|d: QuickActionSlotV1_0_0| spec_slot_into_domain(d)),
            r.max_visible_slots == self.max_visible_slots,
    {
        let mut slots: Vec<QuickActionSlot> = Vec::new();
        let mut i: usize = 0;
        while i < self.slots.len()
            invariant
                i <= self.slots@.len(),
                slots@ == self.slots@.subrange(0, i as int).map_values(
                    |d: QuickActionSlotV1_0_0| spec_slot_into_domain(d),
                ),
            decreases self.slots@.len() - i,
        {
            let s = slot_of_record(&self.slots[i]);
            slots.push(s);
            proof {
                assert(self.slots@.subrange(0, i + 1) =~= self.slots@.subrange(0, i as int).push(self.slots@[i as int]));
            }
            i = i + 1;
        }
        proof {
            assert(self.slots@.subrange(0, i as int) =~= self.slots@);
        }
        QuickActionConfig { slots, max_visible_slots: self.max_visible_slots }
    }

    /// The record of a domain configuration: each slot converted, in order.
    pub fn from_domain(config: &QuickActionConfig) -> (r: Self)
        ensures
            r.slots@ == config.slots@.map_values(|s: QuickActionSlot| spec_slot_from_domain(s)),
            r.max_visible_slots == config.max_visible_slots,
    {
        let mut slots: Vec<QuickActionSlotV1_0_0> = Vec::new();
        let mut i: usize = 0;
        while i < config.slots.len()
            invariant
                i <= config.slots@.len(),
                slots@ == config.slots@.subrange(0, i as int).map_values(
                    |s: QuickActionSlot| spec_slot_from_domain(s),
                ),
            decreases config.slots@.len() - i,
        {
            let s = QuickActionSlotV1_0_0::from_domain(&config.slots[i]);
            slots.push(s);
            proof {
                assert(config.slots@.subrange(0, i + 1) =~= config.slots@.subrange(0, i as int).push(config.slots@[i as int]));
            }
            i = i + 1;
        }
        proof {
            assert(config.slots@.subrange(0, i as int) =~= config.slots@);
        }
        QuickActionConfigV1_0_0 { slots, max_visible_slots: config.max_visible_slots }
    }
}

/// Storing a configuration and loading it back gives the same slots and the
/// same number of visible slots.
pub proof fn lemma_quick_action_round_trip(c: QuickActionConfig)
    ensures
        c.slots@.map_values(|s: QuickActionSlot| spec_slot_from_domain(s)).map_values(
            |d: QuickActionSlotV1_0_0| spec_slot_into_domain(d),
        ) == c.slots@,
{
    assert(c.slots@.map_values(|s: QuickActionSlot| spec_slot_from_domain(s)).map_values(
        |d: QuickActionSlotV1_0_0| spec_slot_into_domain(d),
    ) =~= c.slots@);
}

/// Reading a quick action slot keeps every field in the field of the same
/// name, and so does storing one.
pub proof fn lemma_slot_fields_kept(a: QuickActionSlotV1_0_0, b: QuickActionSlot)
    ensures
        spec_slot_into_domain(a).slot_id == a.slot_id,
        spec_slot_into_domain(a).command_name == a.command_name,
        spec_slot_into_domain(a).icon == a.icon,
        spec_slot_into_domain(a).color == a.color,
        spec_slot_from_domain(b).slot_id == b.slot_id,
        spec_slot_from_domain(b).command_name == b.command_name,
        spec_slot_from_domain(b).icon == b.icon,
        spec_slot_from_domain(b).color == b.color,
{
}

} // verus!
