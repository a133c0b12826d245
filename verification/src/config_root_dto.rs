//! Versioned records of the root configuration file (config.toml) and of the
//! settings it holds.
//!
//! - 1.0 → 1.1: adds `app_state` (none)
//! - 1.1 → 2.0: keeps only the user profile (the default profile when there
//!   was none); personas, workspaces and application state are stored
//!   elsewhere from then on
//! - 2.0 → 2.1: adds `model_settings` (defaults)
//! - 2.1 → 2.2: adds `env_settings` (defaults: auto-detect on)
//! - 2.2 → 2.3: adds `debug_settings` (defaults: debug off)
//! - 2.3 → 2.4: adds `memory_sync_settings` (defaults: sync off)
//! - 2.4 → 2.5: adds `terminal_settings` (defaults: none)

use vstd::prelude::*;
use crate::config::{
    ClaudeModelConfig, DebugSettings, EnvSettings, GeminiModelConfig, MemorySyncSettings,
    ModelSettings, OpenAIModelConfig, RootConfig, TerminalSettings,
};
use crate::app_state_dto::AppStateV1_6;
use crate::user_profile_dto::UserProfileV1_1;
use crate::workspace_dto::WorkspaceV1;

verus! {

// ============================================================================
// Settings records
// ============================================================================

/// Model record of the primary chat backend.
#[derive(Debug, Clone)]
pub struct ClaudeModelConfigDTO {
    pub model_name: String,
}

/// Gemini model record.
#[derive(Debug, Clone)]
pub struct GeminiModelConfigDTO {
    pub model_name: String,
}

/// OpenAI model record.
#[derive(Debug, Clone)]
pub struct OpenAIModelConfigDTO {
    pub model_name: String,
}

/// Model settings record.
#[derive(Debug, Clone)]
pub struct ModelSettingsDTO {
    pub claude: Option<ClaudeModelConfigDTO>,
    pub gemini: Option<GeminiModelConfigDTO>,
    pub openai: Option<OpenAIModelConfigDTO>,
}

/// Environment settings record.
#[derive(Debug, Clone)]
pub struct EnvSettingsDTO {
    pub additional_paths: Vec<String>,
    pub auto_detect_tool_managers: bool,
}

/// Debug settings record.
#[derive(Debug, Clone)]
pub struct DebugSettingsDTO {
    pub enable_llm_debug: bool,
    pub log_level: String,
    pub memory_sync_log_level: String,
}

/// Memory synchronization settings record.
#[derive(Debug, Clone)]
pub struct MemorySyncSettingsDTO {
    pub enabled: bool,
    pub interval_secs: u64,
}

/// Terminal settings record.
#[derive(Debug, Clone)]
pub struct TerminalSettingsDTO {
    pub custom_app: Option<String>,
}

impl Default for GeminiModelConfigDTO {
    fn default() -> (r: Self)
        ensures
            r.model_name@ == "gemini-2.5-flash"@,
    {
        GeminiModelConfigDTO { model_name: String::from_str("gemini-2.5-flash") }
    }
}

impl Default for OpenAIModelConfigDTO {
    fn default() -> (r: Self)
        ensures
            r.model_name@ == "gpt-5"@,
    {
        OpenAIModelConfigDTO { model_name: String::from_str("gpt-5") }
    }
}

/// Whether model settings are the defaults: the secondary backends present with
/// their default models; the primary backend has no default model here (its
/// vendor's model name is not written in this crate), so it is left unset.
pub open spec fn spec_default_model_settings(m: ModelSettingsDTO) -> bool {
    &&& m.claude is None
    &&& m.gemini matches Some(g) && g.model_name@ == "gemini-2.5-flash"@
    &&& m.openai matches Some(o) && o.model_name@ == "gpt-5"@
}

impl Default for ModelSettingsDTO {
    fn default() -> (r: Self)
        ensures
            spec_default_model_settings(r),
    {
        ModelSettingsDTO {
            claude: None,
            gemini: Some(GeminiModelConfigDTO::default()),
            openai: Some(OpenAIModelConfigDTO::default()),
        }
    }
}

/// Default of `auto_detect_tool_managers` when a stored record omits it.
pub fn default_auto_detect_tool_managers() -> (r: bool)
    ensures
        r,
{
    true
}

impl Default for EnvSettingsDTO {
    fn default() -> (r: Self)
        ensures
            r.additional_paths@.len() == 0,
            r.auto_detect_tool_managers,
    {
        EnvSettingsDTO { additional_paths: Vec::new(), auto_detect_tool_managers: true }
    }
}

/// Default log level when a stored record omits it.
pub fn default_log_level() -> (r: String)
    ensures
        r@ == "info"@,
{
    String::from_str("info")
}

impl Default for DebugSettingsDTO {
    fn default() -> (r: Self)
        ensures
            !r.enable_llm_debug,
            r.log_level@ == "info"@,
            r.memory_sync_log_level@ == "info"@,
    {
        DebugSettingsDTO {
            enable_llm_debug: false,
            log_level: String::from_str("info"),
            memory_sync_log_level: String::from_str("info"),
        }
    }
}

/// Default memory sync interval (seconds) when a stored record omits it.
pub fn default_memory_sync_interval() -> (r: u64)
    ensures
        r == 60,
{
    60
}

impl Default for MemorySyncSettingsDTO {
    fn default() -> (r: Self)
        ensures
            !r.enabled,
            r.interval_secs == 60,
    {
        MemorySyncSettingsDTO { enabled: false, interval_secs: 60 }
    }
}

impl Default for TerminalSettingsDTO {
    fn default() -> (r: Self)
        ensures
            r.custom_app is None,
    {
        TerminalSettingsDTO { custom_app: None }
    }
}

impl ClaudeModelConfigDTO {
    pub fn into_domain(self) -> (r: ClaudeModelConfig)
        ensures
            r.model_name == self.model_name,
    {
        ClaudeModelConfig { model_name: self.model_name }
    }

    pub fn from_domain(config: ClaudeModelConfig) -> (r: Self)
        ensures
            r.model_name == config.model_name,
    {
        ClaudeModelConfigDTO { model_name: config.model_name }
    }
}

impl GeminiModelConfigDTO {
    pub fn into_domain(self) -> (r: GeminiModelConfig)
        ensures
            r.model_name == self.model_name,
    {
        GeminiModelConfig { model_name: self.model_name }
    }

    pub fn from_domain(config: GeminiModelConfig) -> (r: Self)
        ensures
            r.model_name == config.model_name,
    {
        GeminiModelConfigDTO { model_name: config.model_name }
    }
}

impl OpenAIModelConfigDTO {
    pub fn into_domain(self) -> (r: OpenAIModelConfig)
        ensures
            r.model_name == self.model_name,
    {
        OpenAIModelConfig { model_name: self.model_name }
    }

    pub fn from_domain(config: OpenAIModelConfig) -> (r: Self)
        ensures
            r.model_name == config.model_name,
    {
        OpenAIModelConfigDTO { model_name: config.model_name }
    }
}

/// The model name an optional record carries, if any.
pub open spec fn spec_claude_name(c: Option<ClaudeModelConfigDTO>) -> Option<String> {
    match c {
        Some(x) => Some(x.model_name),
        None => None,
    }
}

/// The model name an optional record carries, if any.
pub open spec fn spec_gemini_name(c: Option<GeminiModelConfigDTO>) -> Option<String> {
    match c {
        Some(x) => Some(x.model_name),
        None => None,
    }
}

/// The model name an optional record carries, if any.
pub open spec fn spec_openai_name(c: Option<OpenAIModelConfigDTO>) -> Option<String> {
    match c {
        Some(x) => Some(x.model_name),
        None => None,
    }
}

impl ModelSettingsDTO {
    /// Reads the record as settings; each backend keeps its presence and model.
    pub fn into_domain(self) -> (r: ModelSettings)
        ensures
            r.claude == (match self.claude {
                Some(c) => Some(ClaudeModelConfig { model_name: c.model_name }),
                None => None,
            }),
            r.gemini == (match self.gemini {
                Some(c) => Some(GeminiModelConfig { model_name: c.model_name }),
                None => None,
            }),
            r.openai == (match self.openai {
                Some(c) => Some(OpenAIModelConfig { model_name: c.model_name }),
                None => None,
            }),
    {
        ModelSettings {
            claude: match self.claude {
                Some(c) => Some(c.into_domain()),
                None => None,
            },
            gemini: match self.gemini {
                Some(c) => Some(c.into_domain()),
                None => None,
            },
            openai: match self.openai {
                Some(c) => Some(c.into_domain()),
                None => None,
            },
        }
    }

    /// Stores settings in this record; each backend keeps its presence and model.
    pub fn from_domain(settings: ModelSettings) -> (r: Self)
        ensures
            spec_claude_name(r.claude) == (match settings.claude {
                Some(c) => Some(c.model_name),
                None => None,
            }),
            spec_gemini_name(r.gemini) == (match settings.gemini {
                Some(c) => Some(c.model_name),
                None => None,
            }),
            spec_openai_name(r.openai) == (match settings.openai {
                Some(c) => Some(c.model_name),
                None => None,
            }),
    {
        ModelSettingsDTO {
            claude: match settings.claude {
                Some(c) => Some(ClaudeModelConfigDTO::from_domain(c)),
                None => None,
            },
            gemini: match settings.gemini {
                Some(c) => Some(GeminiModelConfigDTO::from_domain(c)),
                None => None,
            },
            openai: match settings.openai {
                Some(c) => Some(OpenAIModelConfigDTO::from_domain(c)),
                None => None,
            },
        }
    }
}

impl EnvSettingsDTO {
    pub fn into_domain(self) -> (r: EnvSettings)
        ensures
            r.additional_paths == self.additional_paths,
            r.auto_detect_tool_managers == self.auto_detect_tool_managers,
    {
        EnvSettings {
            additional_paths: self.additional_paths,
            auto_detect_tool_managers: self.auto_detect_tool_managers,
        }
    }

    pub fn from_domain(settings: EnvSettings) -> (r: Self)
        ensures
            r.additional_paths == settings.additional_paths,
            r.auto_detect_tool_managers == settings.auto_detect_tool_managers,
    {
        EnvSettingsDTO {
            additional_paths: settings.additional_paths,
            auto_detect_tool_managers: settings.auto_detect_tool_managers,
        }
    }
}

impl DebugSettingsDTO {
    pub fn into_domain(self) -> (r: DebugSettings)
        ensures
            r.enable_llm_debug == self.enable_llm_debug,
            r.log_level == self.log_level,
            r.memory_sync_log_level == self.memory_sync_log_level,
    {
        DebugSettings {
            enable_llm_debug: self.enable_llm_debug,
            log_level: self.log_level,
            memory_sync_log_level: self.memory_sync_log_level,
        }
    }

    pub fn from_domain(settings: DebugSettings) -> (r: Self)
        ensures
            r.enable_llm_debug == settings.enable_llm_debug,
            r.log_level == settings.log_level,
            r.memory_sync_log_level == settings.memory_sync_log_level,
    {
        DebugSettingsDTO {
            enable_llm_debug: settings.enable_llm_debug,
            log_level: settings.log_level,
            memory_sync_log_level: settings.memory_sync_log_level,
        }
    }
}

impl MemorySyncSettingsDTO {
    pub fn into_domain(self) -> (r: MemorySyncSettings)
        ensures
            r.enabled == self.enabled,
            r.interval_secs == self.interval_secs,
    {
        MemorySyncSettings { enabled: self.enabled, interval_secs: self.interval_secs }
    }

    pub fn from_domain(settings: MemorySyncSettings) -> (r: Self)
        ensures
            r.enabled == settings.enabled,
            r.interval_secs == settings.interval_secs,
    {
        MemorySyncSettingsDTO { enabled: settings.enabled, interval_secs: settings.interval_secs }
    }
}

impl TerminalSettingsDTO {
    pub fn into_domain(self) -> (r: TerminalSettings)
        ensures
            r.custom_app == self.custom_app,
    {
        TerminalSettings { custom_app: self.custom_app }
    }

    pub fn from_domain(settings: TerminalSettings) -> (r: Self)
        ensures
            r.custom_app == settings.custom_app,
    {
        TerminalSettingsDTO { custom_app: settings.custom_app }
    }
}

// ============================================================================
// Root configuration records
// ============================================================================

/// Root configuration record 1.0.0: personas, user profile and workspaces in
/// one file.
#[derive(Debug, Clone)]
pub struct ConfigRootV1_0_0 {
    /// Persona records, each as the JSON text it was stored as.
    pub personas: Vec<String>,
    pub user_profile: Option<UserProfileV1_1>,
    pub workspaces: Vec<WorkspaceV1>,
}

/// Root configuration record 1.1.0: adds the application state.
#[derive(Debug, Clone)]
pub struct ConfigRootV1_1_0 {
    /// Persona records, each as the JSON text it was stored as.
    pub personas: Vec<String>,
    pub user_profile: Option<UserProfileV1_1>,
    pub app_state: Option<AppStateV1_6>,
    pub workspaces: Vec<WorkspaceV1>,
}

impl ConfigRootV1_0_0 {
    /// 1.0 → 1.1: no application state.
    pub fn migrate(self) -> (r: ConfigRootV1_1_0)
        ensures
            r.personas == self.personas,
            r.user_profile == self.user_profile,
            r.app_state is None,
            r.workspaces == self.workspaces,
    {
        ConfigRootV1_1_0 {
            personas: self.personas,
            user_profile: self.user_profile,
            app_state: None,
            workspaces: self.workspaces,
        }
    }
}

impl ConfigRootV1_1_0 {
    /// 1.1 → 2.0: only the user profile is kept, the default one when the
    /// record had none.
    pub fn migrate(self) -> (r: ConfigRootV2_0_0)
        ensures
            self.user_profile matches Some(p) ==> r.user_profile == p,
            self.user_profile is None ==> r.user_profile.nickname@ == "You"@
                && r.user_profile.background@ == Seq::<char>::empty(),
    {
        let user_profile = match self.user_profile {
            Some(p) => p,
            None => UserProfileV1_1::default(),
        };
        ConfigRootV2_0_0 { user_profile }
    }
}

/// Root configuration record 2.0.0: only the user profile.
#[derive(Debug, Clone)]
pub struct ConfigRootV2_0_0 {
    pub user_profile: UserProfileV1_1,
}

/// Root configuration record 2.1.0: adds model settings.
#[derive(Debug, Clone)]
pub struct ConfigRootV2_1_0 {
    pub user_profile: UserProfileV1_1,
    pub model_settings: ModelSettingsDTO,
}

/// Root configuration record 2.2.0: adds environment settings.
#[derive(Debug, Clone)]
pub struct ConfigRootV2_2_0 {
    pub user_profile: UserProfileV1_1,
    pub model_settings: ModelSettingsDTO,
    pub env_settings: EnvSettingsDTO,
}

/// Root configuration record 2.3.0: adds debug settings.
#[derive(Debug, Clone)]
pub struct ConfigRootV2_3_0 {
    pub user_profile: UserProfileV1_1,
    pub model_settings: ModelSettingsDTO,
    pub env_settings: EnvSettingsDTO,
    pub debug_settings: DebugSettingsDTO,
}

/// Root configuration record 2.4.0: adds memory sync settings.
#[derive(Debug, Clone)]
pub struct ConfigRootV2_4_0 {
    pub user_profile: UserProfileV1_1,
    pub model_settings: ModelSettingsDTO,
    pub env_settings: EnvSettingsDTO,
    pub debug_settings: DebugSettingsDTO,
    pub memory_sync_settings: MemorySyncSettingsDTO,
}

/// Root configuration record 2.5.0 (latest): adds terminal settings.
#[derive(Debug, Clone)]
pub struct ConfigRootV2_5_0 {
    pub user_profile: UserProfileV1_1,
    pub model_settings: ModelSettingsDTO,
    pub env_settings: EnvSettingsDTO,
    pub debug_settings: DebugSettingsDTO,
    pub memory_sync_settings: MemorySyncSettingsDTO,
    pub terminal_settings: TerminalSettingsDTO,
}

/// Whether a latest root record holds the default of every section.
pub open spec fn spec_default_config_root(c: ConfigRootV2_5_0) -> bool {
    &&& c.user_profile.nickname@ == "You"@
    &&& c.user_profile.background@ == Seq::<char>::empty()
    &&& spec_default_model_settings(c.model_settings)
    &&& c.env_settings.additional_paths@.len() == 0
    &&& c.env_settings.auto_detect_tool_managers
    &&& !c.debug_settings.enable_llm_debug
    &&& c.debug_settings.log_level@ == "info"@
    &&& c.debug_settings.memory_sync_log_level@ == "info"@
    &&& !c.memory_sync_settings.enabled
    &&& c.memory_sync_settings.interval_secs == 60
    &&& c.terminal_settings.custom_app is None
}

impl Default for ConfigRootV2_5_0 {
    fn default() -> (r: Self)
        ensures
            spec_default_config_root(r),
    {
        ConfigRootV2_5_0 {
            user_profile: UserProfileV1_1::default(),
            model_settings: ModelSettingsDTO::default(),
            env_settings: EnvSettingsDTO::default(),
            debug_settings: DebugSettingsDTO::default(),
            memory_sync_settings: MemorySyncSettingsDTO::default(),
            terminal_settings: TerminalSettingsDTO::default(),
        }
    }
}

impl ConfigRootV2_0_0 {
    /// 2.0 → 2.1: default model settings.
    pub fn migrate(self) -> (r: ConfigRootV2_1_0)
        ensures
            r.user_profile == self.user_profile,
            spec_default_model_settings(r.model_settings),
    {
        ConfigRootV2_1_0 {
            user_profile: self.user_profile,
            model_settings: ModelSettingsDTO::default(),
        }
    }
}

impl ConfigRootV2_1_0 {
    /// 2.1 → 2.2: default environment settings (auto-detect on).
    pub fn migrate(self) -> (r: ConfigRootV2_2_0)
        ensures
            r.user_profile == self.user_profile,
            r.model_settings == self.model_settings,
            r.env_settings.additional_paths@.len() == 0,
            r.env_settings.auto_detect_tool_managers,
    {
        ConfigRootV2_2_0 {
            user_profile: self.user_profile,
            model_settings: self.model_settings,
            env_settings: EnvSettingsDTO::default(),
        }
    }
}

impl ConfigRootV2_2_0 {
    /// 2.2 → 2.3: default debug settings (debug off, log level info).
    pub fn migrate(self) -> (r: ConfigRootV2_3_0)
        ensures
            r.user_profile == self.user_profile,
            r.model_settings == self.model_settings,
            r.env_settings == self.env_settings,
            !r.debug_settings.enable_llm_debug,
            r.debug_settings.log_level@ == "info"@,
            r.debug_settings.memory_sync_log_level@ == "info"@,
    {
        ConfigRootV2_3_0 {
            user_profile: self.user_profile,
            model_settings: self.model_settings,
            env_settings: self.env_settings,
            debug_settings: DebugSettingsDTO::default(),
        }
    }
}

impl ConfigRootV2_3_0 {
    /// 2.3 → 2.4: default memory sync settings (off, every 60 s).
    pub fn migrate(self) -> (r: ConfigRootV2_4_0)
        ensures
            r.user_profile == self.user_profile,
            r.model_settings == self.model_settings,
            r.env_settings == self.env_settings,
            r.debug_settings == self.debug_settings,
            !r.memory_sync_settings.enabled,
            r.memory_sync_settings.interval_secs == 60,
    {
        ConfigRootV2_4_0 {
            user_profile: self.user_profile,
            model_settings: self.model_settings,
            env_settings: self.env_settings,
            debug_settings: self.debug_settings,
            memory_sync_settings: MemorySyncSettingsDTO::default(),
        }
    }
}

impl ConfigRootV2_4_0 {
    /// 2.4 → 2.5: default terminal settings (none).
    pub fn migrate(self) -> (r: ConfigRootV2_5_0)
        ensures
            r.user_profile == self.user_profile,
            r.model_settings == self.model_settings,
            r.env_settings == self.env_settings,
            r.debug_settings == self.debug_settings,
            r.memory_sync_settings == self.memory_sync_settings,
            r.terminal_settings.custom_app is None,
    {
        ConfigRootV2_5_0 {
            user_profile: self.user_profile,
            model_settings: self.model_settings,
            env_settings: self.env_settings,
            debug_settings: self.debug_settings,
            memory_sync_settings: self.memory_sync_settings,
            terminal_settings: TerminalSettingsDTO::default(),
        }
    }
}

impl ConfigRootV2_5_0 {
    /// Reads the latest record as the root configuration, section by section.
    pub fn into_domain(self) -> (r: RootConfig)
        ensures
            r.user_profile.nickname == self.user_profile.nickname,
            r.user_profile.background == self.user_profile.background,
            spec_claude_name(self.model_settings.claude) == (match r.model_settings.claude {
                Some(c) => Some(c.model_name),
                None => None,
            }),
            spec_gemini_name(self.model_settings.gemini) == (match r.model_settings.gemini {
                Some(c) => Some(c.model_name),
                None => None,
            }),
            spec_openai_name(self.model_settings.openai) == (match r.model_settings.openai {
                Some(c) => Some(c.model_name),
                None => None,
            }),
            r.env_settings.additional_paths == self.env_settings.additional_paths,
            r.env_settings.auto_detect_tool_managers == self.env_settings.auto_detect_tool_managers,
            r.debug_settings.enable_llm_debug == self.debug_settings.enable_llm_debug,
            r.debug_settings.log_level == self.debug_settings.log_level,
            r.debug_settings.memory_sync_log_level == self.debug_settings.memory_sync_log_level,
            r.memory_sync_settings.enabled == self.memory_sync_settings.enabled,
            r.memory_sync_settings.interval_secs == self.memory_sync_settings.interval_secs,
            r.terminal_settings.custom_app == self.terminal_settings.custom_app,
    {
        RootConfig {
            user_profile: self.user_profile.into_domain(),
            model_settings: self.model_settings.into_domain(),
            env_settings: self.env_settings.into_domain(),
            debug_settings: self.debug_settings.into_domain(),
            memory_sync_settings: self.memory_sync_settings.into_domain(),
            terminal_settings: self.terminal_settings.into_domain(),
        }
    }

    /// Stores the root configuration in the latest record, section by section.
    pub fn from_domain(config: RootConfig) -> (r: Self)
        ensures
            r.user_profile.nickname == config.user_profile.nickname,
            r.user_profile.background == config.user_profile.background,
            spec_claude_name(r.model_settings.claude) == (match config.model_settings.claude {
                Some(c) => Some(c.model_name),
                None => None,
            }),
            spec_gemini_name(r.model_settings.gemini) == (match config.model_settings.gemini {
                Some(c) => Some(c.model_name),
                None => None,
            }),
            spec_openai_name(r.model_settings.openai) == (match config.model_settings.openai {
                Some(c) => Some(c.model_name),
                None => None,
            }),
            r.env_settings.additional_paths == config.env_settings.additional_paths,
            r.env_settings.auto_detect_tool_managers == config.env_settings.auto_detect_tool_managers,
            r.debug_settings.enable_llm_debug == config.debug_settings.enable_llm_debug,
            r.debug_settings.log_level == config.debug_settings.log_level,
            r.debug_settings.memory_sync_log_level == config.debug_settings.memory_sync_log_level,
            r.memory_sync_settings.enabled == config.memory_sync_settings.enabled,
            r.memory_sync_settings.interval_secs == config.memory_sync_settings.interval_secs,
            r.terminal_settings.custom_app == config.terminal_settings.custom_app,
    {
        ConfigRootV2_5_0 {
            user_profile: UserProfileV1_1::from_domain(config.user_profile),
            model_settings: ModelSettingsDTO::from_domain(config.model_settings),
            env_settings: EnvSettingsDTO::from_domain(config.env_settings),
            debug_settings: DebugSettingsDTO::from_domain(config.debug_settings),
            memory_sync_settings: MemorySyncSettingsDTO::from_domain(config.memory_sync_settings),
            terminal_settings: TerminalSettingsDTO::from_domain(config.terminal_settings),
        }
    }
}

/// What the default configuration is known to hold.
pub open spec fn spec_is_default_root_config(r: RootConfig) -> bool {
    &&& r.user_profile.nickname@ == "You"@
    &&& r.env_settings.auto_detect_tool_managers
    &&& !r.debug_settings.enable_llm_debug
    &&& r.debug_settings.log_level@ == "info"@
    &&& !r.memory_sync_settings.enabled
    &&& r.memory_sync_settings.interval_secs == 60
    &&& r.terminal_settings.custom_app is None
    &&& r.model_settings.claude is None
}

/// The configuration every installation starts from: the latest record's defaults, read.
pub fn default_root_config() -> (r: RootConfig)
    ensures
        spec_is_default_root_config(r),
        r.user_profile.nickname@ == "You"@,
        r.env_settings.auto_detect_tool_managers,
        !r.debug_settings.enable_llm_debug,
        r.debug_settings.log_level@ == "info"@,
        !r.memory_sync_settings.enabled,
        r.memory_sync_settings.interval_secs == 60,
        r.terminal_settings.custom_app is None,
        r.model_settings.claude is None,
{
    ConfigRootV2_5_0::default().into_domain()
}

/// Migrating a 2.0 record all the way to 2.5 keeps the user profile and fills
/// every later section with its default.
pub fn migrate_v2_0_to_latest(c: ConfigRootV2_0_0) -> (r: ConfigRootV2_5_0)
    ensures
        r.user_profile == c.user_profile,
        spec_default_model_settings(r.model_settings),
        r.env_settings.auto_detect_tool_managers,
        r.env_settings.additional_paths@.len() == 0,
        !r.debug_settings.enable_llm_debug,
        r.debug_settings.log_level@ == "info"@,
        r.debug_settings.memory_sync_log_level@ == "info"@,
        !r.memory_sync_settings.enabled,
        r.memory_sync_settings.interval_secs == 60,
        r.terminal_settings.custom_app is None,
{
    c.migrate().migrate().migrate().migrate().migrate()
}

} // verus!
