//! Application state that persists across restarts: selected workspace,
//! active session and the open tabs.
//!
//! Tabs are kept in display order and their `order` fields number them
//! 0, 1, 2, … after every operation that moves or removes tabs. Opening a tab
//! for a session that already has one activates that tab instead of adding a
//! second. New tab identifiers and the current time come from the caller.

use vstd::prelude::*;
use crate::text::str_eq;

verus! {

/// An open tab in the application: a view of a session, with its display order,
/// last access time and UI state.
#[derive(Debug, Clone, PartialEq, Eq)]
pub struct OpenTab {
    /// Unique tab identifier (UUID format)
    pub id: String,
    /// Associated session ID
    pub session_id: String,
    /// Workspace ID this tab belongs to
    pub workspace_id: String,
    /// Last access timestamp (seconds, as i32 for TypeScript compatibility)
    pub last_accessed_at: i32,
    /// Display order (lower numbers appear first)
    pub order: i32,
    /// Input text being typed
    pub input: Option<String>,
    /// Attached file paths
    pub attached_file_paths: Option<Vec<String>>,
    /// AutoChat mode enabled flag
    pub auto_mode: Option<bool>,
    /// Current AutoChat iteration number (None = not running)
    pub auto_chat_iteration: Option<i32>,
    /// Dirty flag (has unsaved changes)
    pub is_dirty: Option<bool>,
}

/// Application state that persists across restarts.
#[derive(Debug, Clone)]
pub struct AppState {
    /// ID of the last selected workspace, restored on startup.
    pub last_selected_workspace_id: Option<String>,
    /// ID of the default system workspace (~/orcs); None if not yet initialized.
    pub default_workspace_id: Option<String>,
    /// ID of the currently active session.
    pub active_session_id: Option<String>,
    /// List of currently open tabs.
    pub open_tabs: Vec<OpenTab>,
    /// ID of the currently active tab.
    pub active_tab_id: Option<String>,
}

/// The state of a fresh installation: nothing selected, no tabs.
pub open spec fn spec_is_empty_state(s: AppState) -> bool {
    &&& s.last_selected_workspace_id is None
    &&& s.default_workspace_id is None
    &&& s.active_session_id is None
    &&& s.open_tabs@.len() == 0
    &&& s.active_tab_id is None
}

impl Default for AppState {
    /// The empty state.
    fn default() -> (r: Self)
        ensures
            spec_is_empty_state(r),
    {
        AppState {
            last_selected_workspace_id: None,
            default_workspace_id: None,
            active_session_id: None,
            open_tabs: Vec::new(),
            active_tab_id: None,
        }
    }
}

impl AppState {
    /// Creates a new AppState with default values.
    pub fn new() -> (r: Self)
        ensures
            spec_is_empty_state(r),
    {
        Self::default()
    }
}

/// The empty state has its tabs well formed.
pub proof fn lemma_empty_state_well_formed(s: AppState)
    requires
        spec_is_empty_state(s),
    ensures
        tabs_well_formed(s),
{
}

/// Why a tab operation was refused.
#[derive(Debug, Clone, PartialEq, Eq)]
pub enum StateError {
    /// No tab has the given id.
    TabNotFound { tab_id: String },
    /// A tab index is out of range.
    InvalidTabIndices { from: usize, to: usize, len: usize },
}

/// The tab `t` with its display order set to `i`.
pub open spec fn with_order(t: OpenTab, i: int) -> OpenTab {
    OpenTab { order: i as i32, ..t }
}

/// The tabs numbered 0, 1, 2, … in sequence order.
pub open spec fn renumbered(tabs: Seq<OpenTab>) -> Seq<OpenTab> {
    Seq::new(tabs.len(), |i: int| with_order(tabs[i], i))
}

/// Every tab's order is its position.
pub open spec fn orders_contiguous(tabs: Seq<OpenTab>) -> bool {
    forall|i: int| 0 <= i < tabs.len() ==> (#[trigger] tabs[i]).order == i as i32
}

/// The active tab after closing the tab at index `k` (id `closed`), `rest`
/// being the tabs left: unchanged unless the closed tab was active; then the
/// tab that took its place, or the new last tab, or none when none is left.
pub open spec fn active_after_close(active: Option<String>, closed: Seq<char>, rest: Seq<OpenTab>, k: int) -> Option<String> {
    if active matches Some(a) && a@ == closed {
        if rest.len() == 0 {
            None
        } else if k < rest.len() {
            Some(rest[k].id)
        } else {
            Some(rest[rest.len() - 1].id)
        }
    } else {
        active
    }
}

/// The active tab, when there is one, is one of the open tabs.
pub open spec fn active_tab_valid(s: AppState) -> bool {
    s.active_tab_id matches Some(a) ==> has_tab_id(s.open_tabs@, a@)
}

/// The tabs are numbered by position and the active tab, if any, is open.
/// Every tab operation keeps this.
pub open spec fn tabs_well_formed(s: AppState) -> bool {
    orders_contiguous(s.open_tabs@) && active_tab_valid(s)
}

/// The tabs, those with id `id` marked as accessed at `now`.
pub open spec fn touched(tabs: Seq<OpenTab>, id: Seq<char>, now: i32) -> Seq<OpenTab> {
    Seq::new(
        tabs.len(),
        |i: int|
            if tabs[i].id@ == id {
                OpenTab { last_accessed_at: now, ..tabs[i] }
            } else {
                tabs[i]
            },
    )
}

/// `i` is the first tab whose id is `id`.
pub open spec fn is_first_with_id(tabs: Seq<OpenTab>, id: Seq<char>, i: int) -> bool {
    &&& 0 <= i < tabs.len()
    &&& tabs[i].id@ == id
    &&& forall|j: int| 0 <= j < i ==> (#[trigger] tabs[j]).id@ != id
}

/// Some tab has id `id`.
pub open spec fn has_tab_id(tabs: Seq<OpenTab>, id: Seq<char>) -> bool {
    exists|i: int| 0 <= i < tabs.len() && (#[trigger] tabs[i]).id@ == id
}

/// `i` is the first tab showing session `session`.
pub open spec fn is_first_for_session(tabs: Seq<OpenTab>, session: Seq<char>, i: int) -> bool {
    &&& 0 <= i < tabs.len()
    &&& tabs[i].session_id@ == session
    &&& forall|j: int| 0 <= j < i ==> (#[trigger] tabs[j]).session_id@ != session
}

/// Some tab shows session `session`.
pub open spec fn has_session_tab(tabs: Seq<OpenTab>, session: Seq<char>) -> bool {
    exists|i: int| 0 <= i < tabs.len() && (#[trigger] tabs[i]).session_id@ == session
}

/// The tab moved from `from` to `to`, the others keeping their relative order.
pub open spec fn moved(tabs: Seq<OpenTab>, from: int, to: int) -> Seq<OpenTab> {
    tabs.remove(from).insert(to, tabs[from])
}

/// Renumbers the tabs 0, 1, 2, … in order.
fn renumber(tabs: Vec<OpenTab>) -> (r: Vec<OpenTab>)
    ensures
        r@ == renumbered(tabs@),
{
    let ghost orig = tabs@;
    let mut rest = tabs;
    let mut r: Vec<OpenTab> = Vec::new();
    while rest.len() > 0
        invariant
            r@.len() + rest@.len() == orig.len(),
            rest@ == orig.subrange(r@.len() as int, orig.len() as int),
            forall|i: int| 0 <= i < r@.len() ==> #[trigger] r@[i] == with_order(orig[i], i),
        decreases rest@.len(),
    {
        let k = r.len();
        let t = rest.remove(0);
        r.push(OpenTab { order: k as i32, ..t });
        proof {
            assert(rest@ =~= orig.subrange(r@.len() as int, orig.len() as int));
        }
    }
    proof {
        assert(r@ =~= renumbered(orig));
    }
    r
}

/// Marks the tabs with id `id` as accessed at `now`.
fn touch(tabs: Vec<OpenTab>, id: &str, now: i32) -> (r: Vec<OpenTab>)
    ensures
        r@ == touched(tabs@, id@, now),
{
    let ghost orig = tabs@;
    let mut rest = tabs;
    let mut r: Vec<OpenTab> = Vec::new();
    while rest.len() > 0
        invariant
            r@.len() + rest@.len() == orig.len(),
            rest@ == orig.subrange(r@.len() as int, orig.len() as int),
            forall|i: int| 0 <= i < r@.len() ==> #[trigger] r@[i] == touched(orig, id@, now)[i],
        decreases rest@.len(),
    {
        let t = rest.remove(0);
        if str_eq(t.id.as_str(), id) {
            r.push(OpenTab { last_accessed_at: now, ..t });
        } else {
            r.push(t);
        }
        proof {
            assert(rest@ =~= orig.subrange(r@.len() as int, orig.len() as int));
        }
    }
    proof {
        assert(r@ =~= touched(orig, id@, now));
    }
    r
}

/// The index of the first tab whose id is `id`.
fn find_tab(tabs: &Vec<OpenTab>, id: &str) -> (r: Option<usize>)
    ensures
        match r {
            Some(i) => is_first_with_id(tabs@, id@, i as int),
            None => !has_tab_id(tabs@, id@),
        },
{
    let n = tabs.len();
    let mut i: usize = 0;
    while i < n
        invariant
            n == tabs@.len(),
            i <= n,
            forall|j: int| 0 <= j < i ==> (#[trigger] tabs@[j]).id@ != id@,
        decreases n - i,
    {
        if str_eq(tabs[i].id.as_str(), id) {
            return Some(i);
        }
        i = i + 1;
    }
    None
}

/// The index of the first tab showing session `session`.
fn find_session_tab(tabs: &Vec<OpenTab>, session: &str) -> (r: Option<usize>)
    ensures
        match r {
            Some(i) => is_first_for_session(tabs@, session@, i as int),
            None => !has_session_tab(tabs@, session@),
        },
{
    let n = tabs.len();
    let mut i: usize = 0;
    while i < n
        invariant
            n == tabs@.len(),
            i <= n,
            forall|j: int| 0 <= j < i ==> (#[trigger] tabs@[j]).session_id@ != session@,
        decreases n - i,
    {
        if str_eq(tabs[i].session_id.as_str(), session) {
            return Some(i);
        }
        i = i + 1;
    }
    None
}

impl AppState {
    /// Sets the last selected workspace.
    pub fn set_last_selected_workspace(&mut self, workspace_id: String)
        ensures
            *final(self) == (AppState { last_selected_workspace_id: Some(workspace_id), ..*old(self) }),
    {
        self.last_selected_workspace_id = Some(workspace_id);
    }

    /// Clears the last selected workspace.
    pub fn clear_last_selected_workspace(&mut self)
        ensures
            *final(self) == (AppState { last_selected_workspace_id: None, ..*old(self) }),
    {
        self.last_selected_workspace_id = None;
    }

    /// Sets the default workspace.
    pub fn set_default_workspace(&mut self, workspace_id: String)
        ensures
            *final(self) == (AppState { default_workspace_id: Some(workspace_id), ..*old(self) }),
    {
        self.default_workspace_id = Some(workspace_id);
    }

    /// Sets the active session.
    pub fn set_active_session(&mut self, session_id: String)
        ensures
            *final(self) == (AppState { active_session_id: Some(session_id), ..*old(self) }),
    {
        self.active_session_id = Some(session_id);
    }

    /// Clears the active session.
    pub fn clear_active_session(&mut self)
        ensures
            *final(self) == (AppState { active_session_id: None, ..*old(self) }),
    {
        self.active_session_id = None;
    }

    /// Opens a tab for a session and makes it active; returns its id.
    ///
    /// When a tab already shows the session, that tab (the first one) is
    /// marked as accessed at `now` and activated, and nothing is added.
    /// Otherwise a tab with id `new_tab_id` is appended, with the next order
    /// number and no UI state.
    pub fn open_tab(&mut self, session_id: String, workspace_id: String, new_tab_id: String, now: i32) -> (r: String)
        ensures
            final(self).last_selected_workspace_id == old(self).last_selected_workspace_id,
            final(self).default_workspace_id == old(self).default_workspace_id,
            final(self).active_session_id == old(self).active_session_id,
            final(self).active_tab_id == Some(r),
            tabs_well_formed(*old(self)) ==> tabs_well_formed(*final(self)),
            has_session_tab(old(self).open_tabs@, session_id@) ==> forall|k: int|
                #[trigger] is_first_for_session(old(self).open_tabs@, session_id@, k) ==> r
                    == old(self).open_tabs@[k].id && final(self).open_tabs@ == touched(
                    old(self).open_tabs@,
                    r@,
                    now,
                ),
            !has_session_tab(old(self).open_tabs@, session_id@) ==> r == new_tab_id
                && final(self).open_tabs@ == old(self).open_tabs@.push(
                OpenTab {
                    id: new_tab_id,
                    session_id: session_id,
                    workspace_id: workspace_id,
                    last_accessed_at: now,
                    order: old(self).open_tabs@.len() as i32,
                    input: None,
                    attached_file_paths: None,
                    auto_mode: None,
                    auto_chat_iteration: None,
                    is_dirty: None,
                },
            ),
    {
        match find_session_tab(&self.open_tabs, session_id.as_str()) {
            Some(k) => {
                let tab_id = self.open_tabs[k].id.clone();
                let mut tabs: Vec<OpenTab> = Vec::new();
                std::mem::swap(&mut tabs, &mut self.open_tabs);
                self.open_tabs = touch(tabs, tab_id.as_str(), now);
                self.active_tab_id = Some(tab_id.clone());
                proof {
                    lemma_touched_keeps_orders(old(self).open_tabs@, tab_id@, now);
                    assert(self.open_tabs@[k as int].id@ == tab_id@);
                    assert forall|j: int| #[trigger] is_first_for_session(old(self).open_tabs@, session_id@, j) implies j == k by {
                        if j < k {
                            assert(old(self).open_tabs@[j].session_id@ != session_id@);
                        } else if j > k {
                            assert(old(self).open_tabs@[k as int].session_id@ != session_id@);
                        }
                    }
                }
                tab_id
            },
            None => {
                let order = self.open_tabs.len() as i32;
                let tab = OpenTab {
                    id: new_tab_id.clone(),
                    session_id,
                    workspace_id,
                    last_accessed_at: now,
                    order,
                    input: None,
                    attached_file_paths: None,
                    auto_mode: None,
                    auto_chat_iteration: None,
                    is_dirty: None,
                };
                let ghost before = self.open_tabs@;
                self.open_tabs.push(tab);
                self.active_tab_id = Some(new_tab_id.clone());
                proof {
                    if orders_contiguous(before) {
                        lemma_open_tab_keeps_orders(before, tab);
                    }
                    assert(self.open_tabs@[before.len() as int].id@ == new_tab_id@);
                    assert forall|a: Seq<char>| has_tab_id(before, a) implies #[trigger] has_tab_id(self.open_tabs@, a) by {
                        let j = choose|j: int| 0 <= j < before.len() && (#[trigger] before[j]).id@ == a;
                        assert(self.open_tabs@[j] == before[j]);
                    }
                }
                new_tab_id
            },
        }
    }

    /// Closes the tab with id `tab_id` (the first one with that id) and
    /// renumbers the others. When it was the active tab, the tab that takes
    /// its place (or the new last tab) becomes active, or none when no tab is
    /// left. Fails when no tab has that id, leaving the state as it was.
    pub fn close_tab(&mut self, tab_id: &str) -> (r: Result<(), StateError>)
        ensures
            !has_tab_id(old(self).open_tabs@, tab_id@) ==> (r matches Err(StateError::TabNotFound { tab_id: t }) && t@ == tab_id@
                && *final(self) == *old(self)),
            forall|k: int|
                #[trigger] is_first_with_id(old(self).open_tabs@, tab_id@, k) ==> {
                    let rest = old(self).open_tabs@.remove(k);
                    &&& r is Ok
                    &&& final(self).open_tabs@ == renumbered(rest)
                    &&& final(self).last_selected_workspace_id == old(self).last_selected_workspace_id
                    &&& final(self).default_workspace_id == old(self).default_workspace_id
                    &&& final(self).active_session_id == old(self).active_session_id
                    &&& final(self).active_tab_id == active_after_close(old(self).active_tab_id, tab_id@, rest, k)
                },
            tabs_well_formed(*old(self)) ==> tabs_well_formed(*final(self)),
    {
        let k = match find_tab(&self.open_tabs, tab_id) {
            Some(k) => k,
            None => {
                return Err(StateError::TabNotFound { tab_id: String::from_str(tab_id) });
            },
        };
        let ghost old_tabs = self.open_tabs@;
        proof {
            assert forall|j: int| #[trigger] is_first_with_id(old_tabs, tab_id@, j) implies j == k by {
                if j < k {
                    assert(old_tabs[j].id@ != tab_id@);
                } else if j > k {
                    assert(old_tabs[k as int].id@ != tab_id@);
                }
            }
        }
        let mut tabs: Vec<OpenTab> = Vec::new();
        std::mem::swap(&mut tabs, &mut self.open_tabs);
        tabs.remove(k);
        let was_active = match &self.active_tab_id {
            Some(a) => str_eq(a.as_str(), tab_id),
            None => false,
        };
        if was_active {
            if tabs.len() == 0 {
                self.active_tab_id = None;
            } else {
                let next = if k < tabs.len() {
                    k
                } else {
                    tabs.len() - 1
                };
                self.active_tab_id = Some(tabs[next].id.clone());
            }
        }
        self.open_tabs = renumber(tabs);
        proof {
            let rest = old_tabs.remove(k as int);
            lemma_renumbered_contiguous(rest);
            if tabs_well_formed(*old(self)) {
                lemma_close_keeps_active_valid(old_tabs, old(self).active_tab_id, tab_id@, k as int);
            }
        }
        Ok(())
    }

    /// Makes the tab with id `tab_id` active and marks it as accessed at
    /// `now`. Fails when no tab has that id, leaving the state as it was.
    pub fn set_active_tab(&mut self, tab_id: String, now: i32) -> (r: Result<(), StateError>)
        ensures
            !has_tab_id(old(self).open_tabs@, tab_id@) ==> (r matches Err(StateError::TabNotFound { tab_id: t }) && t@ == tab_id@
                && *final(self) == *old(self)),
            has_tab_id(old(self).open_tabs@, tab_id@) ==> r is Ok && *final(self) == (AppState {
                open_tabs: final(self).open_tabs,
                active_tab_id: Some(tab_id),
                ..*old(self)
            }) && final(self).open_tabs@ == touched(old(self).open_tabs@, tab_id@, now),
            tabs_well_formed(*old(self)) ==> tabs_well_formed(*final(self)),
    {
        match find_tab(&self.open_tabs, tab_id.as_str()) {
            None => Err(StateError::TabNotFound { tab_id }),
            Some(k) => {
                let mut tabs: Vec<OpenTab> = Vec::new();
                std::mem::swap(&mut tabs, &mut self.open_tabs);
                self.open_tabs = touch(tabs, tab_id.as_str(), now);
                self.active_tab_id = Some(tab_id);
                proof {
                    lemma_touched_keeps_orders(old(self).open_tabs@, tab_id@, now);
                    assert(self.open_tabs@[k as int].id == old(self).open_tabs@[k as int].id);
                }
                Ok(())
            },
        }
    }

    /// Moves the tab at `from_index` to `to_index` and renumbers the tabs.
    /// Fails when an index is out of range, leaving the state as it was.
    pub fn reorder_tabs(&mut self, from_index: usize, to_index: usize) -> (r: Result<(), StateError>)
        ensures
            (from_index >= old(self).open_tabs@.len() || to_index >= old(self).open_tabs@.len()) ==> r
                == Err::<(), StateError>(StateError::InvalidTabIndices {
                from: from_index,
                to: to_index,
                len: old(self).open_tabs@.len() as usize,
            }) && *final(self) == *old(self),
            (from_index < old(self).open_tabs@.len() && to_index < old(self).open_tabs@.len()) ==> r is Ok
                && *final(self) == (AppState { open_tabs: final(self).open_tabs, ..*old(self) })
                && final(self).open_tabs@ == renumbered(
                moved(old(self).open_tabs@, from_index as int, to_index as int),
            ),
            tabs_well_formed(*old(self)) ==> tabs_well_formed(*final(self)),
    {
        let n = self.open_tabs.len();
        if from_index >= n || to_index >= n {
            return Err(StateError::InvalidTabIndices { from: from_index, to: to_index, len: n });
        }
        let mut tabs: Vec<OpenTab> = Vec::new();
        std::mem::swap(&mut tabs, &mut self.open_tabs);
        let ghost old_tabs = tabs@;
        let tab = tabs.remove(from_index);
        tabs.insert(to_index, tab);
        proof {
            assert(tabs@ =~= moved(old_tabs, from_index as int, to_index as int));
        }
        self.open_tabs = renumber(tabs);
        proof {
            let m = moved(old_tabs, from_index as int, to_index as int);
            lemma_renumbered_contiguous(m);
            lemma_moved_keeps_ids(old_tabs, from_index as int, to_index as int);
        }
        Ok(())
    }

    /// Updates the UI state of the tab with id `tab_id` (the first one with
    /// that id): each given value replaces the tab's, the others stay. Fails
    /// when no tab has that id, leaving the state as it was.
    pub fn update_tab_ui_state(
        &mut self,
        tab_id: String,
        input: Option<String>,
        attached_file_paths: Option<Vec<String>>,
        auto_mode: Option<bool>,
        auto_chat_iteration: Option<i32>,
        is_dirty: Option<bool>,
    ) -> (r: Result<(), StateError>)
        ensures
            !has_tab_id(old(self).open_tabs@, tab_id@) ==> (r matches Err(StateError::TabNotFound { tab_id: t }) && t@ == tab_id@
                && *final(self) == *old(self)),
            forall|k: int|
                #[trigger] is_first_with_id(old(self).open_tabs@, tab_id@, k) ==> {
                    let t = old(self).open_tabs@[k];
                    &&& r is Ok
                    &&& *final(self) == (AppState { open_tabs: final(self).open_tabs, ..*old(self) })
                    &&& final(self).open_tabs@ == old(self).open_tabs@.update(
                        k,
                        OpenTab {
                            input: if input is Some { input } else { t.input },
                            attached_file_paths: if attached_file_paths is Some { attached_file_paths } else { t.attached_file_paths },
                            auto_mode: if auto_mode is Some { auto_mode } else { t.auto_mode },
                            auto_chat_iteration: if auto_chat_iteration is Some { auto_chat_iteration } else { t.auto_chat_iteration },
                            is_dirty: if is_dirty is Some { is_dirty } else { t.is_dirty },
                            ..t
                        },
                    )
                },
            tabs_well_formed(*old(self)) ==> tabs_well_formed(*final(self)),
    {
        let k = match find_tab(&self.open_tabs, tab_id.as_str()) {
            Some(k) => k,
            None => {
                return Err(StateError::TabNotFound { tab_id });
            },
        };
        let ghost old_tabs = self.open_tabs@;
        proof {
            assert forall|j: int| #[trigger] is_first_with_id(old_tabs, tab_id@, j) implies j == k by {
                if j < k {
                    assert(old_tabs[j].id@ != tab_id@);
                } else if j > k {
                    assert(old_tabs[k as int].id@ != tab_id@);
                }
            }
        }
        let mut tabs: Vec<OpenTab> = Vec::new();
        std::mem::swap(&mut tabs, &mut self.open_tabs);
        let t = tabs.remove(k);
        let updated = OpenTab {
            input: if input.is_some() { input } else { t.input },
            attached_file_paths: if attached_file_paths.is_some() { attached_file_paths } else { t.attached_file_paths },
            auto_mode: if auto_mode.is_some() { auto_mode } else { t.auto_mode },
            auto_chat_iteration: if auto_chat_iteration.is_some() { auto_chat_iteration } else { t.auto_chat_iteration },
            is_dirty: if is_dirty.is_some() { is_dirty } else { t.is_dirty },
            ..t
        };
        tabs.insert(k, updated);
        proof {
            assert(tabs@ =~= old_tabs.update(k as int, tabs@[k as int]));
            assert forall|a: Seq<char>| has_tab_id(old_tabs, a) implies #[trigger] has_tab_id(tabs@, a) by {
                let j = choose|j: int| 0 <= j < old_tabs.len() && (#[trigger] old_tabs[j]).id@ == a;
                assert(tabs@[j].id == old_tabs[j].id);
            }
        }
        self.open_tabs = tabs;
        Ok(())
    }
}

/// Closing a tab keeps the active tab among the open tabs: when the closed
/// tab was active, its successor (or the new last tab) takes over; otherwise
/// the active tab, which was open and is not the closed one, stays open.
pub proof fn lemma_close_keeps_active_valid(tabs: Seq<OpenTab>, active: Option<String>, closed: Seq<char>, k: int)
    requires
        is_first_with_id(tabs, closed, k),
        active matches Some(a) ==> has_tab_id(tabs, a@),
    ensures
        ({
            let rest = tabs.remove(k);
            active_after_close(active, closed, rest, k) matches Some(a) ==> has_tab_id(renumbered(rest), a@)
        }),
{
    let rest = tabs.remove(k);
    let new_tabs = renumbered(rest);
    match active_after_close(active, closed, rest, k) {
        Some(a) => {
            if active matches Some(old_a) && old_a@ == closed {
                let i = if k < rest.len() { k } else { rest.len() - 1 };
                assert(new_tabs[i].id == rest[i].id);
            } else {
                let j = choose|j: int| 0 <= j < tabs.len() && (#[trigger] tabs[j]).id@ == a@;
                assert(j != k);
                let i = if j < k { j } else { j - 1 };
                assert(rest[i] == tabs[j]);
                assert(new_tabs[i].id == rest[i].id);
            }
        },
        None => {},
    }
}

/// Renumbering leaves the tabs numbered by position.
pub proof fn lemma_renumbered_contiguous(tabs: Seq<OpenTab>)
    ensures
        orders_contiguous(renumbered(tabs)),
        renumbered(tabs).len() == tabs.len(),
{
}

/// Opening a tab for a session keeps the tabs numbered by position when
/// they were: the new tab gets the next number.
pub proof fn lemma_open_tab_keeps_orders(tabs: Seq<OpenTab>, t: OpenTab)
    requires
        orders_contiguous(tabs),
        t.order == tabs.len() as i32,
    ensures
        orders_contiguous(tabs.push(t)),
{
    assert forall|i: int| 0 <= i < tabs.push(t).len() implies (#[trigger] tabs.push(t)[i]).order == i as i32 by {
        if i < tabs.len() {
            assert(tabs.push(t)[i] == tabs[i]);
        }
    }
}

/// Marking tabs as accessed changes no order and no id.
pub proof fn lemma_touched_keeps_orders(tabs: Seq<OpenTab>, id: Seq<char>, now: i32)
    ensures
        touched(tabs, id, now).len() == tabs.len(),
        forall|i: int| 0 <= i < tabs.len() ==> (#[trigger] touched(tabs, id, now)[i]).order == tabs[i].order
            && touched(tabs, id, now)[i].id == tabs[i].id && touched(tabs, id, now)[i].session_id
            == tabs[i].session_id,
        orders_contiguous(tabs) ==> orders_contiguous(touched(tabs, id, now)),
{
}

/// Once a session has a tab, opening it again finds that tab: the session
/// still has a tab after a touch.
pub proof fn lemma_session_tab_survives_touch(tabs: Seq<OpenTab>, session: Seq<char>, id: Seq<char>, now: i32)
    requires
        has_session_tab(tabs, session),
    ensures
        has_session_tab(touched(tabs, id, now), session),
{
    let i = choose|i: int| 0 <= i < tabs.len() && (#[trigger] tabs[i]).session_id@ == session;
    assert(touched(tabs, id, now)[i].session_id@ == session);
}

/// Moving a tab and renumbering keeps every tab id that was open.
pub proof fn lemma_moved_keeps_ids(tabs: Seq<OpenTab>, from: int, to: int)
    requires
        0 <= from < tabs.len(),
        0 <= to < tabs.len(),
    ensures
        forall|a: Seq<char>| has_tab_id(tabs, a) ==> #[trigger] has_tab_id(renumbered(moved(tabs, from, to)), a),
{
    let m = moved(tabs, from, to);
    let rest = tabs.remove(from);
    assert forall|a: Seq<char>| has_tab_id(tabs, a) implies #[trigger] has_tab_id(renumbered(m), a) by {
        let j = choose|j: int| 0 <= j < tabs.len() && (#[trigger] tabs[j]).id@ == a;
        let i = if j == from {
            to
        } else {
            let jr = if j < from { j } else { j - 1 };
            assert(rest[jr] == tabs[j]);
            if jr < to { jr } else { jr + 1 }
        };
        assert(m[i].id == tabs[j].id);
        assert(renumbered(m)[i].id == m[i].id);
    }
}

/// Moving a tab keeps every tab: the result is a rearrangement of the same tabs.
pub proof fn lemma_moved_is_permutation(tabs: Seq<OpenTab>, from: int, to: int)
    requires
        0 <= from < tabs.len(),
        0 <= to < tabs.len(),
    ensures
        moved(tabs, from, to).len() == tabs.len(),
        moved(tabs, from, to).to_multiset() == tabs.to_multiset(),
        moved(tabs, from, to)[to] == tabs[from],
{
    broadcast use vstd::seq_lib::group_to_multiset_ensures;

    let rest = tabs.remove(from);
    assert(rest.insert(to, tabs[from]).to_multiset() == rest.to_multiset().insert(tabs[from]));
    assert(tabs.to_multiset() == rest.to_multiset().insert(tabs[from])) by {
        assert(tabs == tabs.subrange(0, from) + seq![tabs[from]] + tabs.subrange(from + 1, tabs.len() as int));
        vstd::seq_lib::lemma_multiset_commutative(tabs.subrange(0, from), seq![tabs[from]] + tabs.subrange(from + 1, tabs.len() as int));
        vstd::seq_lib::lemma_multiset_commutative(seq![tabs[from]], tabs.subrange(from + 1, tabs.len() as int));
        vstd::seq_lib::lemma_multiset_commutative(tabs.subrange(0, from), tabs.subrange(from + 1, tabs.len() as int));
        assert(rest == tabs.subrange(0, from) + tabs.subrange(from + 1, tabs.len() as int));
    }
}

} // verus!
