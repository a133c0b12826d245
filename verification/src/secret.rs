//! Provider API keys and their stored record (schema 1.0.0).

use vstd::prelude::*;

verus! {

/// API key of the primary backend.
#[derive(Debug, Clone, PartialEq, Eq)]
pub struct ClaudeConfig {
    pub api_key: String,
}

/// API key of the Gemini backend.
#[derive(Debug, Clone, PartialEq, Eq)]
pub struct GeminiConfig {
    pub api_key: String,
}

/// API key of the OpenAI backend.
#[derive(Debug, Clone, PartialEq, Eq)]
pub struct OpenAIConfig {
    pub api_key: String,
}

/// The API keys of all providers; a provider without a key is `None`.
#[derive(Debug, Clone, PartialEq, Eq)]
pub struct SecretConfig {
    pub claude: Option<ClaudeConfig>,
    pub gemini: Option<GeminiConfig>,
    pub openai: Option<OpenAIConfig>,
}

impl Default for SecretConfig {
    /// No key for any provider.
    fn default() -> (r: Self)
        ensures
            r.claude is None,
            r.gemini is None,
            r.openai is None,
    {
        SecretConfig { claude: None, gemini: None, openai: None }
    }
}

/// Secret configuration record, schema 1.0.0; an absent provider reads as `None`.
#[derive(Debug, Clone)]
pub struct SecretConfigV1_0_0 {
    pub claude: Option<ClaudeConfig>,
    pub gemini: Option<GeminiConfig>,
    pub openai: Option<OpenAIConfig>,
}

impl Default for SecretConfigV1_0_0 {
    /// The record of the default configuration: no key for any provider.
    fn default() -> (r: Self)
        ensures
            r.claude is None,
            r.gemini is None,
            r.openai is None,
    {
        let d = SecretConfig::default();
        SecretConfigV1_0_0 { claude: d.claude, gemini: d.gemini, openai: d.openai }
    }
}

/// The domain configuration of a record: every key carried over.
pub open spec fn spec_secret_into_domain(d: SecretConfigV1_0_0) -> SecretConfig {
    SecretConfig { claude: d.claude, gemini: d.gemini, openai: d.openai }
}

/// The record of a domain configuration.
pub open spec fn spec_secret_from_domain(c: SecretConfig) -> SecretConfigV1_0_0 {
    SecretConfigV1_0_0 { claude: c.claude, gemini: c.gemini, openai: c.openai }
}

impl SecretConfigV1_0_0 {
    /// The domain configuration.
    pub fn into_domain(self) -> (r: SecretConfig)
        ensures
            r == spec_secret_into_domain(self),
    {
        SecretConfig { claude: self.claude, gemini: self.gemini, openai: self.openai }
    }

    /// The record of a domain configuration.
    pub fn from_domain(config: SecretConfig) -> (r: Self)
        ensures
            r == spec_secret_from_domain(config),
    {
        SecretConfigV1_0_0 { claude: config.claude, gemini: config.gemini, openai: config.openai }
    }
}

/// Storing the keys and reading them back gives the same keys.
pub proof fn lemma_secret_round_trip(c: SecretConfig)
    ensures
        spec_secret_into_domain(spec_secret_from_domain(c)) == c,
{
}

/// Reading a secret record keeps each vendor's settings under the same vendor,
/// and so does storing one.
pub proof fn lemma_secret_fields_kept(a: SecretConfigV1_0_0, b: SecretConfig)
    ensures
        spec_secret_into_domain(a).claude == a.claude,
        spec_secret_into_domain(a).gemini == a.gemini,
        spec_secret_into_domain(a).openai == a.openai,
        spec_secret_from_domain(b).claude == b.claude,
        spec_secret_from_domain(b).gemini == b.gemini,
        spec_secret_from_domain(b).openai == b.openai,
{
}

} // verus!
