//! The configuration service: the root configuration, loaded once and kept
//! until the cache is invalidated.
//!
//! Loading reads `config.toml` (where `OrcsPaths` puts the configuration);
//! that is done by the caller, which hands the outcome to the service. A
//! failed load gives the default configuration; a file without any
//! configuration gets the default written to it.

use vstd::prelude::*;
use crate::config::{
    ClaudeModelConfig, DebugSettings, EnvSettings, GeminiModelConfig, MemorySyncSettings,
    ModelSettings, OpenAIModelConfig, RootConfig, TerminalSettings,
};
use crate::config_root_dto::{default_root_config, spec_is_default_root_config};
use crate::user::UserProfile;

verus! {

/// A copy of a list of strings.
fn copy_strings(v: &Vec<String>) -> (r: Vec<String>)
    ensures
        r@ == v@,
{
    let mut r: Vec<String> = Vec::new();
    let n = v.len();
    let mut i: usize = 0;
    while i < n
        invariant
            n == v@.len(),
            i <= n,
            r@ == v@.take(i as int),
        decreases n - i,
    {
        r.push(v[i].clone());
        proof {
            assert(r@ =~= v@.take(i + 1));
        }
        i = i + 1;
    }
    proof {
        assert(v@.take(n as int) =~= v@);
    }
    r
}

/// A copy of an optional string.
fn copy_opt(o: &Option<String>) -> (r: Option<String>)
    ensures
        r == *o,
{
    match o {
        Some(s) => Some(s.clone()),
        None => None,
    }
}

/// Two configurations hold the same values.
pub open spec fn same_config(a: RootConfig, b: RootConfig) -> bool {
    &&& a.user_profile == b.user_profile
    &&& a.model_settings == b.model_settings
    &&& a.env_settings.additional_paths@ == b.env_settings.additional_paths@
    &&& a.env_settings.auto_detect_tool_managers == b.env_settings.auto_detect_tool_managers
    &&& a.debug_settings == b.debug_settings
    &&& a.memory_sync_settings == b.memory_sync_settings
    &&& a.terminal_settings == b.terminal_settings
}

/// A copy of a configuration.
pub fn copy_root_config(c: &RootConfig) -> (r: RootConfig)
    ensures
        same_config(r, *c),
{
    let claude = match &c.model_settings.claude {
        Some(m) => Some(ClaudeModelConfig { model_name: m.model_name.clone() }),
        None => None,
    };
    let gemini = match &c.model_settings.gemini {
        Some(m) => Some(GeminiModelConfig { model_name: m.model_name.clone() }),
        None => None,
    };
    let openai = match &c.model_settings.openai {
        Some(m) => Some(OpenAIModelConfig { model_name: m.model_name.clone() }),
        None => None,
    };
    RootConfig {
        user_profile: UserProfile {
            nickname: c.user_profile.nickname.clone(),
            background: c.user_profile.background.clone(),
        },
        model_settings: ModelSettings { claude, gemini, openai },
        env_settings: EnvSettings {
            additional_paths: copy_strings(&c.env_settings.additional_paths),
            auto_detect_tool_managers: c.env_settings.auto_detect_tool_managers,
        },
        debug_settings: DebugSettings {
            enable_llm_debug: c.debug_settings.enable_llm_debug,
            log_level: c.debug_settings.log_level.clone(),
            memory_sync_log_level: c.debug_settings.memory_sync_log_level.clone(),
        },
        memory_sync_settings: MemorySyncSettings {
            enabled: c.memory_sync_settings.enabled,
            interval_secs: c.memory_sync_settings.interval_secs,
        },
        terminal_settings: TerminalSettings { custom_app: copy_opt(&c.terminal_settings.custom_app) },
    }
}

/// Loads and caches the root configuration.
pub struct ConfigService {
    config: Option<RootConfig>,
}

impl ConfigService {
    /// The configuration cached, if any.
    pub closed spec fn cache(&self) -> Option<RootConfig> {
        self.config
    }

    /// A service with nothing cached: the configuration is loaded on first use.
    pub fn new() -> (r: Self)
        ensures
            r.cache() is None,
    {
        ConfigService { config: None }
    }

    /// The configuration, when it is cached. None means it has to be loaded
    /// and handed to `store_loaded`.
    pub fn get_config(&self) -> (r: Option<RootConfig>)
        ensures
            self.cache() is None ==> r is None,
            self.cache() matches Some(c) ==> (r matches Some(rc) && same_config(rc, c)),
    {
        match &self.config {
            Some(c) => Some(copy_root_config(c)),
            None => None,
        }
    }

    /// Caches what loading gave, the default configuration when it failed,
    /// and returns the configuration now cached.
    pub fn store_loaded(&mut self, loaded: Result<RootConfig, String>) -> (r: RootConfig)
        ensures
            final(self).cache() matches Some(c) && same_config(c, r),
            loaded matches Ok(c) ==> same_config(r, c),
            loaded is Err ==> spec_is_default_root_config(r),
    {
        let config = match loaded {
            Ok(c) => c,
            Err(_) => default_root_config(),
        };
        let r = copy_root_config(&config);
        self.config = Some(config);
        r
    }

    /// Drops the cached configuration, so the next use loads it again.
    pub fn invalidate_cache(&mut self)
        ensures
            final(self).cache() is None,
    {
        self.config = None;
    }

    /// What the stored configurations give: the first one; or, when there is
    /// none, the default configuration, which then has to be saved (the
    /// second value).
    pub fn config_from_stored(configs: Vec<RootConfig>) -> (r: (RootConfig, bool))
        ensures
            configs@.len() == 0 ==> r.1 && spec_is_default_root_config(r.0),
            configs@.len() > 0 ==> !r.1 && r.0 == configs@[0],
    {
        if configs.len() == 0 {
            (default_root_config(), true)
        } else {
            let mut configs = configs;
            (configs.swap_remove(0), false)
        }
    }
}

impl Default for ConfigService {
    fn default() -> (r: Self)
        ensures
            r.cache() is None,
    {
        ConfigService::new()
    }
}

/// Holding the same values is an equivalence.
pub proof fn lemma_same_config_equivalence(a: RootConfig, b: RootConfig, c: RootConfig)
    ensures
        same_config(a, a),
        same_config(a, b) ==> same_config(b, a),
        same_config(a, b) && same_config(b, c) ==> same_config(a, c),
{
}

} // verus!
