//! Versioned persistence records for the application state, the migrations
//! between consecutive versions and the conversions to and from the domain model.
//!
//! - 1.0 → 1.1: adds `default_workspace_id` (None)
//! - 1.1 → 1.2: adds `active_session_id` (None)
//! - 1.2 → 1.3: same fields
//! - 1.3 → 1.4: adds `open_tabs` (empty) and `active_tab_id` (None)
//! - 1.4 → 1.5: same fields (camelCase serialization)
//! - 1.5 → 1.6: tabs gain UI state fields (all None)

use vstd::prelude::*;
use crate::state::{AppState, OpenTab};

verus! {

/// Application state record 1.0.0.
#[derive(Debug, Clone)]
pub struct AppStateV1_0 {
    pub last_selected_workspace_id: Option<String>,
}

/// Application state record 1.1.0: adds the default workspace.
#[derive(Debug, Clone)]
pub struct AppStateV1_1 {
    pub last_selected_workspace_id: Option<String>,
    pub default_workspace_id: Option<String>,
}

/// Application state record 1.2.0: adds the active session.
#[derive(Debug, Clone)]
pub struct AppStateV1_2 {
    pub last_selected_workspace_id: Option<String>,
    pub default_workspace_id: Option<String>,
    pub active_session_id: Option<String>,
}

/// Application state record 1.3.0: default workspace optional again.
#[derive(Debug, Clone)]
pub struct AppStateV1_3 {
    pub last_selected_workspace_id: Option<String>,
    pub default_workspace_id: Option<String>,
    pub active_session_id: Option<String>,
}

/// Open tab record used by 1.4.0 and 1.5.0 (no UI state).
#[derive(Debug, Clone, PartialEq, Eq)]
pub struct OpenTabDTO {
    pub id: String,
    pub session_id: String,
    pub workspace_id: String,
    pub last_accessed_at: i32,
    pub order: i32,
}

/// Application state record 1.4.0: adds open tabs and the active tab.
#[derive(Debug, Clone)]
pub struct AppStateV1_4 {
    pub last_selected_workspace_id: Option<String>,
    pub default_workspace_id: Option<String>,
    pub active_session_id: Option<String>,
    pub open_tabs: Vec<OpenTabDTO>,
    pub active_tab_id: Option<String>,
}

/// Application state record 1.5.0 (camelCase serialization, same fields as 1.4.0).
#[derive(Debug, Clone)]
pub struct AppStateV1_5 {
    pub last_selected_workspace_id: Option<String>,
    pub default_workspace_id: Option<String>,
    pub active_session_id: Option<String>,
    pub open_tabs: Vec<OpenTabDTO>,
    pub active_tab_id: Option<String>,
}

/// Open tab record of 1.6.0, with UI state.
#[derive(Debug, Clone, PartialEq, Eq)]
pub struct OpenTabDTOV1_6 {
    pub id: String,
    pub session_id: String,
    pub workspace_id: String,
    pub last_accessed_at: i32,
    pub order: i32,
    pub input: Option<String>,
    pub attached_file_paths: Option<Vec<String>>,
    pub auto_mode: Option<bool>,
    pub auto_chat_iteration: Option<i32>,
    pub is_dirty: Option<bool>,
}

/// Application state record 1.6.0 (latest): tabs carry UI state.
#[derive(Debug, Clone)]
pub struct AppStateV1_6 {
    pub last_selected_workspace_id: Option<String>,
    pub default_workspace_id: Option<String>,
    pub active_session_id: Option<String>,
    pub open_tabs: Vec<OpenTabDTOV1_6>,
    pub active_tab_id: Option<String>,
}

// ============================================================================
// Defaults
// ============================================================================

impl Default for AppStateV1_0 {
    fn default() -> (r: Self)
        ensures
            r.last_selected_workspace_id is None,
    {
        AppStateV1_0 { last_selected_workspace_id: None }
    }
}

impl Default for AppStateV1_1 {
    fn default() -> (r: Self)
        ensures
            r.last_selected_workspace_id is None,
            r.default_workspace_id is None,
    {
        AppStateV1_1 { last_selected_workspace_id: None, default_workspace_id: None }
    }
}

impl Default for AppStateV1_2 {
    fn default() -> (r: Self)
        ensures
            r.last_selected_workspace_id is None,
            r.default_workspace_id is None,
            r.active_session_id is None,
    {
        AppStateV1_2 {
            last_selected_workspace_id: None,
            default_workspace_id: None,
            active_session_id: None,
        }
    }
}

impl Default for AppStateV1_3 {
    fn default() -> (r: Self)
        ensures
            r.last_selected_workspace_id is None,
            r.default_workspace_id is None,
            r.active_session_id is None,
    {
        AppStateV1_3 {
            last_selected_workspace_id: None,
            default_workspace_id: None,
            active_session_id: None,
        }
    }
}

impl Default for AppStateV1_4 {
    fn default() -> (r: Self)
        ensures
            r.last_selected_workspace_id is None,
            r.default_workspace_id is None,
            r.active_session_id is None,
            r.open_tabs@.len() == 0,
            r.active_tab_id is None,
    {
        AppStateV1_4 {
            last_selected_workspace_id: None,
            default_workspace_id: None,
            active_session_id: None,
            open_tabs: Vec::new(),
            active_tab_id: None,
        }
    }
}

impl Default for AppStateV1_5 {
    fn default() -> (r: Self)
        ensures
            r.last_selected_workspace_id is None,
            r.default_workspace_id is None,
            r.active_session_id is None,
            r.open_tabs@.len() == 0,
            r.active_tab_id is None,
    {
        AppStateV1_5 {
            last_selected_workspace_id: None,
            default_workspace_id: None,
            active_session_id: None,
            open_tabs: Vec::new(),
            active_tab_id: None,
        }
    }
}

impl Default for AppStateV1_6 {
    fn default() -> (r: Self)
        ensures
            r.last_selected_workspace_id is None,
            r.default_workspace_id is None,
            r.active_session_id is None,
            r.open_tabs@.len() == 0,
            r.active_tab_id is None,
    {
        AppStateV1_6 {
            last_selected_workspace_id: None,
            default_workspace_id: None,
            active_session_id: None,
            open_tabs: Vec::new(),
            active_tab_id: None,
        }
    }
}

// ============================================================================
// Tab conversions
// ============================================================================

/// An old-format tab seen as a domain tab: UI state absent.
pub open spec fn spec_tab_from_dto(d: OpenTabDTO) -> OpenTab {
    OpenTab {
        id: d.id,
        session_id: d.session_id,
        workspace_id: d.workspace_id,
        last_accessed_at: d.last_accessed_at,
        order: d.order,
        input: None,
        attached_file_paths: None,
        auto_mode: None,
        auto_chat_iteration: None,
        is_dirty: None,
    }
}

/// A domain tab stored in the old format: UI state dropped.
pub open spec fn spec_dto_from_tab(t: OpenTab) -> OpenTabDTO {
    OpenTabDTO {
        id: t.id,
        session_id: t.session_id,
        workspace_id: t.workspace_id,
        last_accessed_at: t.last_accessed_at,
        order: t.order,
    }
}

/// A 1.6 tab seen as a domain tab: every field kept.
pub open spec fn spec_tab_from_dto_v1_6(d: OpenTabDTOV1_6) -> OpenTab {
    OpenTab {
        id: d.id,
        session_id: d.session_id,
        workspace_id: d.workspace_id,
        last_accessed_at: d.last_accessed_at,
        order: d.order,
        input: d.input,
        attached_file_paths: d.attached_file_paths,
        auto_mode: d.auto_mode,
        auto_chat_iteration: d.auto_chat_iteration,
        is_dirty: d.is_dirty,
    }
}

/// A domain tab stored as a 1.6 tab: every field kept.
pub open spec fn spec_dto_v1_6_from_tab(t: OpenTab) -> OpenTabDTOV1_6 {
    OpenTabDTOV1_6 {
        id: t.id,
        session_id: t.session_id,
        workspace_id: t.workspace_id,
        last_accessed_at: t.last_accessed_at,
        order: t.order,
        input: t.input,
        attached_file_paths: t.attached_file_paths,
        auto_mode: t.auto_mode,
        auto_chat_iteration: t.auto_chat_iteration,
        is_dirty: t.is_dirty,
    }
}

/// An old-format tab upgraded to 1.6: UI state absent.
pub open spec fn spec_upgrade_tab(d: OpenTabDTO) -> OpenTabDTOV1_6 {
    spec_dto_v1_6_from_tab(spec_tab_from_dto(d))
}

impl From<OpenTabDTO> for OpenTab {
    fn from(dto: OpenTabDTO) -> (r: Self) {
        OpenTab {
            id: dto.id,
            session_id: dto.session_id,
            workspace_id: dto.workspace_id,
            last_accessed_at: dto.last_accessed_at,
            order: dto.order,
            input: None,
            attached_file_paths: None,
            auto_mode: None,
            auto_chat_iteration: None,
            is_dirty: None,
        }
    }
}

impl vstd::std_specs::convert::FromSpecImpl<OpenTabDTO> for OpenTab {
    open spec fn obeys_from_spec() -> bool {
        true
    }

    open spec fn from_spec(v: OpenTabDTO) -> Self {
        spec_tab_from_dto(v)
    }
}

impl From<OpenTab> for OpenTabDTO {
    fn from(tab: OpenTab) -> (r: Self) {
        OpenTabDTO {
            id: tab.id,
            session_id: tab.session_id,
            workspace_id: tab.workspace_id,
            last_accessed_at: tab.last_accessed_at,
            order: tab.order,
        }
    }
}

impl vstd::std_specs::convert::FromSpecImpl<OpenTab> for OpenTabDTO {
    open spec fn obeys_from_spec() -> bool {
        true
    }

    open spec fn from_spec(v: OpenTab) -> Self {
        spec_dto_from_tab(v)
    }
}

impl From<OpenTabDTOV1_6> for OpenTab {
    fn from(dto: OpenTabDTOV1_6) -> (r: Self) {
        OpenTab {
            id: dto.id,
            session_id: dto.session_id,
            workspace_id: dto.workspace_id,
            last_accessed_at: dto.last_accessed_at,
            order: dto.order,
            input: dto.input,
            attached_file_paths: dto.attached_file_paths,
            auto_mode: dto.auto_mode,
            auto_chat_iteration: dto.auto_chat_iteration,
            is_dirty: dto.is_dirty,
        }
    }
}

impl vstd::std_specs::convert::FromSpecImpl<OpenTabDTOV1_6> for OpenTab {
    open spec fn obeys_from_spec() -> bool {
        true
    }

    open spec fn from_spec(v: OpenTabDTOV1_6) -> Self {
        spec_tab_from_dto_v1_6(v)
    }
}

impl From<OpenTab> for OpenTabDTOV1_6 {
    fn from(tab: OpenTab) -> (r: Self) {
        OpenTabDTOV1_6 {
            id: tab.id,
            session_id: tab.session_id,
            workspace_id: tab.workspace_id,
            last_accessed_at: tab.last_accessed_at,
            order: tab.order,
            input: tab.input,
            attached_file_paths: tab.attached_file_paths,
            auto_mode: tab.auto_mode,
            auto_chat_iteration: tab.auto_chat_iteration,
            is_dirty: tab.is_dirty,
        }
    }
}

impl vstd::std_specs::convert::FromSpecImpl<OpenTab> for OpenTabDTOV1_6 {
    open spec fn obeys_from_spec() -> bool {
        true
    }

    open spec fn from_spec(v: OpenTab) -> Self {
        spec_dto_v1_6_from_tab(v)
    }
}

/// Converts old-format tabs to domain tabs, in order.
pub fn tabs_from_dtos(v: Vec<OpenTabDTO>) -> (r: Vec<OpenTab>)
    ensures
        r@ == v@.map_values(|d: OpenTabDTO| spec_tab_from_dto(d)),
{
    let ghost orig = v@;
    let mut v = v;
    let mut r: Vec<OpenTab> = Vec::new();
    while v.len() > 0
        invariant
            r@.len() + v@.len() == orig.len(),
            v@ == orig.subrange(r@.len() as int, orig.len() as int),
            r@ == orig.subrange(0, r@.len() as int).map_values(|d: OpenTabDTO| spec_tab_from_dto(d)),
        decreases v@.len(),
    {
        let ghost k: int = r@.len() as int;
        let d = v.remove(0);
        r.push(OpenTab::from(d));
        assert(orig.subrange(0, k + 1) =~= orig.subrange(0, k).push(orig[k]));
        assert(r@ =~= orig.subrange(0, r@.len() as int).map_values(|d: OpenTabDTO| spec_tab_from_dto(d)));
        assert(v@ =~= orig.subrange(r@.len() as int, orig.len() as int));
    }
    assert(orig.subrange(0, orig.len() as int) =~= orig);
    r
}

/// Stores domain tabs in the old format, in order.
pub fn dtos_from_tabs(v: Vec<OpenTab>) -> (r: Vec<OpenTabDTO>)
    ensures
        r@ == v@.map_values(|t: OpenTab| spec_dto_from_tab(t)),
{
    let ghost orig = v@;
    let mut v = v;
    let mut r: Vec<OpenTabDTO> = Vec::new();
    while v.len() > 0
        invariant
            r@.len() + v@.len() == orig.len(),
            v@ == orig.subrange(r@.len() as int, orig.len() as int),
            r@ == orig.subrange(0, r@.len() as int).map_values(|t: OpenTab| spec_dto_from_tab(t)),
        decreases v@.len(),
    {
        let ghost k: int = r@.len() as int;
        let t = v.remove(0);
        r.push(OpenTabDTO::from(t));
        assert(orig.subrange(0, k + 1) =~= orig.subrange(0, k).push(orig[k]));
        assert(r@ =~= orig.subrange(0, r@.len() as int).map_values(|t: OpenTab| spec_dto_from_tab(t)));
        assert(v@ =~= orig.subrange(r@.len() as int, orig.len() as int));
    }
    assert(orig.subrange(0, orig.len() as int) =~= orig);
    r
}

/// Converts 1.6 tabs to domain tabs, in order.
pub fn tabs_from_dtos_v1_6(v: Vec<OpenTabDTOV1_6>) -> (r: Vec<OpenTab>)
    ensures
        r@ == v@.map_values(|d: OpenTabDTOV1_6| spec_tab_from_dto_v1_6(d)),
{
    let ghost orig = v@;
    let mut v = v;
    let mut r: Vec<OpenTab> = Vec::new();
    while v.len() > 0
        invariant
            r@.len() + v@.len() == orig.len(),
            v@ == orig.subrange(r@.len() as int, orig.len() as int),
            r@ == orig.subrange(0, r@.len() as int).map_values(|d: OpenTabDTOV1_6| spec_tab_from_dto_v1_6(d)),
        decreases v@.len(),
    {
        let ghost k: int = r@.len() as int;
        let d = v.remove(0);
        r.push(OpenTab::from(d));
        assert(orig.subrange(0, k + 1) =~= orig.subrange(0, k).push(orig[k]));
        assert(r@ =~= orig.subrange(0, r@.len() as int).map_values(|d: OpenTabDTOV1_6| spec_tab_from_dto_v1_6(d)));
        assert(v@ =~= orig.subrange(r@.len() as int, orig.len() as int));
    }
    assert(orig.subrange(0, orig.len() as int) =~= orig);
    r
}

/// Stores domain tabs as 1.6 tabs, in order.
pub fn dtos_v1_6_from_tabs(v: Vec<OpenTab>) -> (r: Vec<OpenTabDTOV1_6>)
    ensures
        r@ == v@.map_values(|t: OpenTab| spec_dto_v1_6_from_tab(t)),
{
    let ghost orig = v@;
    let mut v = v;
    let mut r: Vec<OpenTabDTOV1_6> = Vec::new();
    while v.len() > 0
        invariant
            r@.len() + v@.len() == orig.len(),
            v@ == orig.subrange(r@.len() as int, orig.len() as int),
            r@ == orig.subrange(0, r@.len() as int).map_values(|t: OpenTab| spec_dto_v1_6_from_tab(t)),
        decreases v@.len(),
    {
        let ghost k: int = r@.len() as int;
        let t = v.remove(0);
        r.push(OpenTabDTOV1_6::from(t));
        assert(orig.subrange(0, k + 1) =~= orig.subrange(0, k).push(orig[k]));
        assert(r@ =~= orig.subrange(0, r@.len() as int).map_values(|t: OpenTab| spec_dto_v1_6_from_tab(t)));
        assert(v@ =~= orig.subrange(r@.len() as int, orig.len() as int));
    }
    assert(orig.subrange(0, orig.len() as int) =~= orig);
    r
}

/// Upgrades old-format tabs to 1.6 tabs with no UI state, in order.
pub fn upgrade_tabs(v: Vec<OpenTabDTO>) -> (r: Vec<OpenTabDTOV1_6>)
    ensures
        r@ == v@.map_values(|d: OpenTabDTO| spec_upgrade_tab(d)),
{
    let ghost orig = v@;
    let mut v = v;
    let mut r: Vec<OpenTabDTOV1_6> = Vec::new();
    while v.len() > 0
        invariant
            r@.len() + v@.len() == orig.len(),
            v@ == orig.subrange(r@.len() as int, orig.len() as int),
            r@ == orig.subrange(0, r@.len() as int).map_values(|d: OpenTabDTO| spec_upgrade_tab(d)),
        decreases v@.len(),
    {
        let ghost k: int = r@.len() as int;
        let tab = v.remove(0);
        r.push(
            OpenTabDTOV1_6 {
                id: tab.id,
                session_id: tab.session_id,
                workspace_id: tab.workspace_id,
                last_accessed_at: tab.last_accessed_at,
                order: tab.order,
                input: None,
                attached_file_paths: None,
                auto_mode: None,
                auto_chat_iteration: None,
                is_dirty: None,
            },
        );
        assert(orig.subrange(0, k + 1) =~= orig.subrange(0, k).push(orig[k]));
        assert(r@ =~= orig.subrange(0, r@.len() as int).map_values(|d: OpenTabDTO| spec_upgrade_tab(d)));
        assert(v@ =~= orig.subrange(r@.len() as int, orig.len() as int));
    }
    assert(orig.subrange(0, orig.len() as int) =~= orig);
    r
}


// ============================================================================
// Migrations
// ============================================================================

impl AppStateV1_0 {
    /// 1.0 → 1.1: no default workspace yet.
    pub fn migrate(self) -> (r: AppStateV1_1)
        ensures
            r.last_selected_workspace_id == self.last_selected_workspace_id,
            r.default_workspace_id is None,
    {
        AppStateV1_1 {
            last_selected_workspace_id: self.last_selected_workspace_id,
            default_workspace_id: None,
        }
    }
}

impl AppStateV1_1 {
    /// 1.1 → 1.2: no active session yet.
    pub fn migrate(self) -> (r: AppStateV1_2)
        ensures
            r.last_selected_workspace_id == self.last_selected_workspace_id,
            r.default_workspace_id == self.default_workspace_id,
            r.active_session_id is None,
    {
        AppStateV1_2 {
            last_selected_workspace_id: self.last_selected_workspace_id,
            default_workspace_id: self.default_workspace_id,
            active_session_id: None,
        }
    }

    /// Reads the record as domain state: no session, no tabs.
    pub fn into_domain(self) -> (r: AppState)
        ensures
            r.last_selected_workspace_id == self.last_selected_workspace_id,
            r.default_workspace_id == self.default_workspace_id,
            r.active_session_id is None,
            r.open_tabs@.len() == 0,
            r.active_tab_id is None,
    {
        AppState {
            last_selected_workspace_id: self.last_selected_workspace_id,
            default_workspace_id: self.default_workspace_id,
            active_session_id: None,
            open_tabs: Vec::new(),
            active_tab_id: None,
        }
    }

    /// Stores domain state in this record, keeping the two workspace ids.
    pub fn from_domain(state: AppState) -> (r: Self)
        ensures
            r.last_selected_workspace_id == state.last_selected_workspace_id,
            r.default_workspace_id == state.default_workspace_id,
    {
        AppStateV1_1 {
            last_selected_workspace_id: state.last_selected_workspace_id,
            default_workspace_id: state.default_workspace_id,
        }
    }
}

impl AppStateV1_2 {
    /// 1.2 → 1.3: same fields.
    pub fn migrate(self) -> (r: AppStateV1_3)
        ensures
            r.last_selected_workspace_id == self.last_selected_workspace_id,
            r.default_workspace_id == self.default_workspace_id,
            r.active_session_id == self.active_session_id,
    {
        AppStateV1_3 {
            last_selected_workspace_id: self.last_selected_workspace_id,
            default_workspace_id: self.default_workspace_id,
            active_session_id: self.active_session_id,
        }
    }

    /// Reads the record as domain state: no tabs.
    pub fn into_domain(self) -> (r: AppState)
        ensures
            r.last_selected_workspace_id == self.last_selected_workspace_id,
            r.default_workspace_id == self.default_workspace_id,
            r.active_session_id == self.active_session_id,
            r.open_tabs@.len() == 0,
            r.active_tab_id is None,
    {
        AppState {
            last_selected_workspace_id: self.last_selected_workspace_id,
            default_workspace_id: self.default_workspace_id,
            active_session_id: self.active_session_id,
            open_tabs: Vec::new(),
            active_tab_id: None,
        }
    }

    /// Stores domain state in this record, dropping the tabs.
    pub fn from_domain(state: AppState) -> (r: Self)
        ensures
            r.last_selected_workspace_id == state.last_selected_workspace_id,
            r.default_workspace_id == state.default_workspace_id,
            r.active_session_id == state.active_session_id,
    {
        AppStateV1_2 {
            last_selected_workspace_id: state.last_selected_workspace_id,
            default_workspace_id: state.default_workspace_id,
            active_session_id: state.active_session_id,
        }
    }
}

impl AppStateV1_3 {
    /// 1.3 → 1.4: no tabs open, no active tab.
    pub fn migrate(self) -> (r: AppStateV1_4)
        ensures
            r.last_selected_workspace_id == self.last_selected_workspace_id,
            r.default_workspace_id == self.default_workspace_id,
            r.active_session_id == self.active_session_id,
            r.open_tabs@.len() == 0,
            r.active_tab_id is None,
    {
        AppStateV1_4 {
            last_selected_workspace_id: self.last_selected_workspace_id,
            default_workspace_id: self.default_workspace_id,
            active_session_id: self.active_session_id,
            open_tabs: Vec::new(),
            active_tab_id: None,
        }
    }

    /// Reads the record as domain state: no tabs.
    pub fn into_domain(self) -> (r: AppState)
        ensures
            r.last_selected_workspace_id == self.last_selected_workspace_id,
            r.default_workspace_id == self.default_workspace_id,
            r.active_session_id == self.active_session_id,
            r.open_tabs@.len() == 0,
            r.active_tab_id is None,
    {
        AppState {
            last_selected_workspace_id: self.last_selected_workspace_id,
            default_workspace_id: self.default_workspace_id,
            active_session_id: self.active_session_id,
            open_tabs: Vec::new(),
            active_tab_id: None,
        }
    }

    /// Stores domain state in this record, dropping the tabs.
    pub fn from_domain(state: AppState) -> (r: Self)
        ensures
            r.last_selected_workspace_id == state.last_selected_workspace_id,
            r.default_workspace_id == state.default_workspace_id,
            r.active_session_id == state.active_session_id,
    {
        AppStateV1_3 {
            last_selected_workspace_id: state.last_selected_workspace_id,
            default_workspace_id: state.default_workspace_id,
            active_session_id: state.active_session_id,
        }
    }
}

impl AppStateV1_4 {
    /// 1.4 → 1.5: same fields.
    pub fn migrate(self) -> (r: AppStateV1_5)
        ensures
            r.last_selected_workspace_id == self.last_selected_workspace_id,
            r.default_workspace_id == self.default_workspace_id,
            r.active_session_id == self.active_session_id,
            r.open_tabs == self.open_tabs,
            r.active_tab_id == self.active_tab_id,
    {
        AppStateV1_5 {
            last_selected_workspace_id: self.last_selected_workspace_id,
            default_workspace_id: self.default_workspace_id,
            active_session_id: self.active_session_id,
            open_tabs: self.open_tabs,
            active_tab_id: self.active_tab_id,
        }
    }

    /// Reads the record as domain state; tabs get no UI state.
    pub fn into_domain(self) -> (r: AppState)
        ensures
            r.last_selected_workspace_id == self.last_selected_workspace_id,
            r.default_workspace_id == self.default_workspace_id,
            r.active_session_id == self.active_session_id,
            r.open_tabs@ == self.open_tabs@.map_values(|d: OpenTabDTO| spec_tab_from_dto(d)),
            r.active_tab_id == self.active_tab_id,
    {
        AppState {
            last_selected_workspace_id: self.last_selected_workspace_id,
            default_workspace_id: self.default_workspace_id,
            active_session_id: self.active_session_id,
            open_tabs: tabs_from_dtos(self.open_tabs),
            active_tab_id: self.active_tab_id,
        }
    }

    /// Stores domain state in this record, dropping the tabs' UI state.
    pub fn from_domain(state: AppState) -> (r: Self)
        ensures
            r.last_selected_workspace_id == state.last_selected_workspace_id,
            r.default_workspace_id == state.default_workspace_id,
            r.active_session_id == state.active_session_id,
            r.open_tabs@ == state.open_tabs@.map_values(|t: OpenTab| spec_dto_from_tab(t)),
            r.active_tab_id == state.active_tab_id,
    {
        AppStateV1_4 {
            last_selected_workspace_id: state.last_selected_workspace_id,
            default_workspace_id: state.default_workspace_id,
            active_session_id: state.active_session_id,
            open_tabs: dtos_from_tabs(state.open_tabs),
            active_tab_id: state.active_tab_id,
        }
    }
}

impl AppStateV1_5 {
    /// 1.5 → 1.6: tabs gain UI state, all absent.
    pub fn migrate(self) -> (r: AppStateV1_6)
        ensures
            r.last_selected_workspace_id == self.last_selected_workspace_id,
            r.default_workspace_id == self.default_workspace_id,
            r.active_session_id == self.active_session_id,
            r.open_tabs@ == self.open_tabs@.map_values(|d: OpenTabDTO| spec_upgrade_tab(d)),
            r.active_tab_id == self.active_tab_id,
    {
        AppStateV1_6 {
            last_selected_workspace_id: self.last_selected_workspace_id,
            default_workspace_id: self.default_workspace_id,
            active_session_id: self.active_session_id,
            open_tabs: upgrade_tabs(self.open_tabs),
            active_tab_id: self.active_tab_id,
        }
    }

    /// Reads the record as domain state; tabs get no UI state.
    pub fn into_domain(self) -> (r: AppState)
        ensures
            r.last_selected_workspace_id == self.last_selected_workspace_id,
            r.default_workspace_id == self.default_workspace_id,
            r.active_session_id == self.active_session_id,
            r.open_tabs@ == self.open_tabs@.map_values(|d: OpenTabDTO| spec_tab_from_dto(d)),
            r.active_tab_id == self.active_tab_id,
    {
        AppState {
            last_selected_workspace_id: self.last_selected_workspace_id,
            default_workspace_id: self.default_workspace_id,
            active_session_id: self.active_session_id,
            open_tabs: tabs_from_dtos(self.open_tabs),
            active_tab_id: self.active_tab_id,
        }
    }

    /// Stores domain state in this record, dropping the tabs' UI state.
    pub fn from_domain(state: AppState) -> (r: Self)
        ensures
            r.last_selected_workspace_id == state.last_selected_workspace_id,
            r.default_workspace_id == state.default_workspace_id,
            r.active_session_id == state.active_session_id,
            r.open_tabs@ == state.open_tabs@.map_values(|t: OpenTab| spec_dto_from_tab(t)),
            r.active_tab_id == state.active_tab_id,
    {
        AppStateV1_5 {
            last_selected_workspace_id: state.last_selected_workspace_id,
            default_workspace_id: state.default_workspace_id,
            active_session_id: state.active_session_id,
            open_tabs: dtos_from_tabs(state.open_tabs),
            active_tab_id: state.active_tab_id,
        }
    }
}

impl AppStateV1_6 {
    /// Reads the record as domain state, tabs with their UI state.
    pub fn into_domain(self) -> (r: AppState)
        ensures
            r.last_selected_workspace_id == self.last_selected_workspace_id,
            r.default_workspace_id == self.default_workspace_id,
            r.active_session_id == self.active_session_id,
            r.open_tabs@ == self.open_tabs@.map_values(|d: OpenTabDTOV1_6| spec_tab_from_dto_v1_6(d)),
            r.active_tab_id == self.active_tab_id,
    {
        AppState {
            last_selected_workspace_id: self.last_selected_workspace_id,
            default_workspace_id: self.default_workspace_id,
            active_session_id: self.active_session_id,
            open_tabs: tabs_from_dtos_v1_6(self.open_tabs),
            active_tab_id: self.active_tab_id,
        }
    }

    /// Stores domain state in this record, tabs with their UI state.
    pub fn from_domain(state: AppState) -> (r: Self)
        ensures
            r.last_selected_workspace_id == state.last_selected_workspace_id,
            r.default_workspace_id == state.default_workspace_id,
            r.active_session_id == state.active_session_id,
            r.open_tabs@ == state.open_tabs@.map_values(|t: OpenTab| spec_dto_v1_6_from_tab(t)),
            r.active_tab_id == state.active_tab_id,
    {
        AppStateV1_6 {
            last_selected_workspace_id: state.last_selected_workspace_id,
            default_workspace_id: state.default_workspace_id,
            active_session_id: state.active_session_id,
            open_tabs: dtos_v1_6_from_tabs(state.open_tabs),
            active_tab_id: state.active_tab_id,
        }
    }
}

// ============================================================================
// Laws
// ============================================================================

/// Saving domain tabs in the latest format and reading them back gives the same tabs.
pub proof fn lemma_latest_tabs_round_trip(tabs: Seq<OpenTab>)
    ensures
        tabs.map_values(|t: OpenTab| spec_dto_v1_6_from_tab(t)).map_values(
            |d: OpenTabDTOV1_6| spec_tab_from_dto_v1_6(d),
        ) == tabs,
{
    assert(tabs.map_values(|t: OpenTab| spec_dto_v1_6_from_tab(t)).map_values(
        |d: OpenTabDTOV1_6| spec_tab_from_dto_v1_6(d),
    ) =~= tabs);
}

/// Reading an old-format tab and saving it in the old format gives the same record.
pub proof fn lemma_old_tabs_round_trip(tabs: Seq<OpenTabDTO>)
    ensures
        tabs.map_values(|d: OpenTabDTO| spec_tab_from_dto(d)).map_values(
            |t: OpenTab| spec_dto_from_tab(t),
        ) == tabs,
{
    assert(tabs.map_values(|d: OpenTabDTO| spec_tab_from_dto(d)).map_values(
        |t: OpenTab| spec_dto_from_tab(t),
    ) =~= tabs);
}

/// Upgrading an old tab to 1.6 and reading it gives what reading it directly gives.
pub proof fn lemma_upgrade_then_read(tabs: Seq<OpenTabDTO>)
    ensures
        tabs.map_values(|d: OpenTabDTO| spec_upgrade_tab(d)).map_values(
            |d: OpenTabDTOV1_6| spec_tab_from_dto_v1_6(d),
        ) == tabs.map_values(|d: OpenTabDTO| spec_tab_from_dto(d)),
{
    assert(tabs.map_values(|d: OpenTabDTO| spec_upgrade_tab(d)).map_values(
        |d: OpenTabDTOV1_6| spec_tab_from_dto_v1_6(d),
    ) =~= tabs.map_values(|d: OpenTabDTO| spec_tab_from_dto(d)));
}

/// Reading a tab record keeps every stored field in the field of the same
/// name (a 1.6 record also its interface state; an older one leaves that
/// state unset), and storing a tab keeps every stored field.
pub proof fn lemma_tab_fields_kept(d: OpenTabDTO, e: OpenTabDTOV1_6, t: OpenTab)
    ensures
        spec_tab_from_dto(d).id == d.id,
        spec_tab_from_dto(d).session_id == d.session_id,
        spec_tab_from_dto(d).workspace_id == d.workspace_id,
        spec_tab_from_dto(d).last_accessed_at == d.last_accessed_at,
        spec_tab_from_dto(d).order == d.order,
        spec_tab_from_dto(d).input is None,
        spec_tab_from_dto(d).attached_file_paths is None,
        spec_tab_from_dto(d).auto_mode is None,
        spec_tab_from_dto(d).auto_chat_iteration is None,
        spec_tab_from_dto(d).is_dirty is None,
        spec_tab_from_dto_v1_6(e).id == e.id,
        spec_tab_from_dto_v1_6(e).session_id == e.session_id,
        spec_tab_from_dto_v1_6(e).workspace_id == e.workspace_id,
        spec_tab_from_dto_v1_6(e).last_accessed_at == e.last_accessed_at,
        spec_tab_from_dto_v1_6(e).order == e.order,
        spec_tab_from_dto_v1_6(e).input == e.input,
        spec_tab_from_dto_v1_6(e).attached_file_paths == e.attached_file_paths,
        spec_tab_from_dto_v1_6(e).auto_mode == e.auto_mode,
        spec_tab_from_dto_v1_6(e).auto_chat_iteration == e.auto_chat_iteration,
        spec_tab_from_dto_v1_6(e).is_dirty == e.is_dirty,
        spec_dto_from_tab(t).id == t.id,
        spec_dto_from_tab(t).session_id == t.session_id,
        spec_dto_from_tab(t).workspace_id == t.workspace_id,
        spec_dto_from_tab(t).last_accessed_at == t.last_accessed_at,
        spec_dto_from_tab(t).order == t.order,
{
}

} // verus!
