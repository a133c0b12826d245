//! Application configuration: model, environment, debug, memory-sync and
//! terminal settings, gathered in the root configuration.

use vstd::prelude::*;
use crate::user::UserProfile;

verus! {

/// Model configuration of the primary backend.
#[derive(Debug, Clone, PartialEq, Eq)]
pub struct ClaudeModelConfig {
    pub model_name: String,
}

/// Model configuration of the Gemini backend.
#[derive(Debug, Clone, PartialEq, Eq)]
pub struct GeminiModelConfig {
    pub model_name: String,
}

/// Model configuration of the OpenAI backend.
#[derive(Debug, Clone, PartialEq, Eq)]
pub struct OpenAIModelConfig {
    pub model_name: String,
}

/// LLM model settings (non-sensitive configuration).
#[derive(Debug, Clone, PartialEq, Eq)]
pub struct ModelSettings {
    pub claude: Option<ClaudeModelConfig>,
    pub gemini: Option<GeminiModelConfig>,
    pub openai: Option<OpenAIModelConfig>,
}

/// Environment PATH configuration for CLI tools.
#[derive(Debug, Clone, PartialEq, Eq)]
pub struct EnvSettings {
    pub additional_paths: Vec<String>,
    pub auto_detect_tool_managers: bool,
}

/// Debug settings for LLM interactions.
#[derive(Debug, Clone, PartialEq, Eq)]
pub struct DebugSettings {
    pub enable_llm_debug: bool,
    pub log_level: String,
    pub memory_sync_log_level: String,
}

/// Memory synchronization settings.
#[derive(Debug, Clone, PartialEq, Eq)]
pub struct MemorySyncSettings {
    pub enabled: bool,
    pub interval_secs: u64,
}

/// Terminal settings for workspace terminal launch.
#[derive(Debug, Clone, PartialEq, Eq)]
pub struct TerminalSettings {
    /// Custom terminal application name (macOS) or command (Linux/Windows).
    pub custom_app: Option<String>,
}

/// Root configuration of the application (config.toml).
#[derive(Debug, Clone)]
pub struct RootConfig {
    pub user_profile: UserProfile,
    pub model_settings: ModelSettings,
    pub env_settings: EnvSettings,
    pub debug_settings: DebugSettings,
    pub memory_sync_settings: MemorySyncSettings,
    pub terminal_settings: TerminalSettings,
}

} // verus!
