//! The environment as a value: a snapshot of variables, the names the library
//! reads, and the default-model overrides (tier 1).

use vstd::prelude::*;
use vstd::hash_map::StringHashMap;

use crate::text::{nonblank, nonblank_trimmed};

verus! {

// Tier 1: compiled-in fallbacks for model roles.
pub const ENV_DEFAULT_MODEL: &'static str = "GROK_DEFAULT_MODEL";
pub const ENV_DEFAULT_WEB_SEARCH_MODEL: &'static str = "GROK_DEFAULT_WEB_SEARCH_MODEL";
pub const ENV_DEFAULT_IMAGE_DESCRIPTION_MODEL: &'static str = "GROK_DEFAULT_IMAGE_DESCRIPTION_MODEL";
pub const ENV_DEFAULT_SESSION_SUMMARY_MODEL: &'static str = "GROK_DEFAULT_SESSION_SUMMARY_MODEL";

// Tier 2: a complete custom model.
/// Catalog key of the custom model.
pub const ENV_MODEL_ID: &'static str = "GROK_MODEL_ID";
/// API routing slug, sent as the `model` field in inference requests.
/// Falls back to `GROK_MODEL_ID` when unset.
pub const ENV_MODEL_NAME: &'static str = "GROK_MODEL_NAME";
/// Human-readable display name shown in the UI model picker.
/// Falls back to `GROK_MODEL_NAME`, then `GROK_MODEL_ID`.
pub const ENV_MODEL_DISPLAY_NAME: &'static str = "GROK_MODEL_DISPLAY_NAME";
pub const ENV_MODEL_BASE_URL: &'static str = "GROK_MODEL_BASE_URL";
pub const ENV_MODEL_API_KEY: &'static str = "GROK_MODEL_API_KEY";
pub const ENV_MODEL_ENV_KEY: &'static str = "GROK_MODEL_ENV_KEY";
pub const ENV_MODEL_API_BACKEND: &'static str = "GROK_MODEL_API_BACKEND";
pub const ENV_MODEL_CONTEXT_WINDOW: &'static str = "GROK_MODEL_CONTEXT_WINDOW";
pub const ENV_MODEL_EXTRA_HEADERS: &'static str = "GROK_MODEL_EXTRA_HEADERS";
/// Reserved for future use: not wired into the model override.
pub const ENV_MODEL_AUTH_SCHEME: &'static str = "GROK_MODEL_AUTH_SCHEME";
pub const ENV_MODEL_TEMPERATURE: &'static str = "GROK_MODEL_TEMPERATURE";
pub const ENV_MODEL_TOP_P: &'static str = "GROK_MODEL_TOP_P";
pub const ENV_MODEL_MAX_TOKENS: &'static str = "GROK_MODEL_MAX_TOKENS";
pub const ENV_MODEL_AGENT_TYPE: &'static str = "GROK_MODEL_AGENT_TYPE";
pub const ENV_MODEL_STREAM_TOOL_CALLS: &'static str = "GROK_MODEL_STREAM_TOOL_CALLS";
pub const ENV_MODEL_MAX_RETRIES: &'static str = "GROK_MODEL_MAX_RETRIES";

/// A snapshot of environment variables: each name set maps to its value.
pub struct EnvVars {
    vars: StringHashMap<String>,
}

impl View for EnvVars {
    type V = Map<Seq<char>, Seq<char>>;

    closed spec fn view(&self) -> Map<Seq<char>, Seq<char>> {
        self.vars@.map_values(|v: String| v@)
    }
}

impl EnvVars {
    /// An environment in which no variable is set.
    pub fn new() -> (e: EnvVars)
        ensures
            e@ == Map::<Seq<char>, Seq<char>>::empty(),
    {
        let e = EnvVars { vars: StringHashMap::new() };
        assert(e@ =~= Map::<Seq<char>, Seq<char>>::empty());
        e
    }

    /// Sets variable `name` to `value`, replacing any earlier value.
    pub fn set(&mut self, name: String, value: String)
        ensures
            final(self)@ == old(self)@.insert(name@, value@),
    {
        self.vars.insert(name, value);
        assert(self@ =~= old(self)@.insert(name@, value@));
    }

    /// The value of variable `name`, if it is set.
    pub fn get(&self, name: &str) -> (r: Option<&str>)
        ensures
            match r {
                Some(v) => self@.contains_key(name@) && v@ == self@[name@],
                None => !self@.contains_key(name@),
            },
    {
        match self.vars.get(name) {
            Some(v) => Some(v.as_str()),
            None => None,
        }
    }
}

/// What variable `name` contributes: its trimmed value, or `None` when it is
/// unset or holds nothing but whitespace.
pub open spec fn env_value(env: Map<Seq<char>, Seq<char>>, name: Seq<char>) -> Option<Seq<char>> {
    if env.contains_key(name) {
        nonblank(env[name])
    } else {
        None
    }
}

/// Reads and trims variable `name`: `None` when it is unset or whitespace-only.
pub fn trimmed_env(env: &EnvVars, name: &str) -> (r: Option<String>)
    ensures
        r.deep_view() == env_value(env@, name@),
{
    match env.get(name) {
        Some(v) => nonblank_trimmed(v),
        None => None,
    }
}

/// The fallback primary model (`GROK_DEFAULT_MODEL`).
pub fn env_default_model(env: &EnvVars) -> (r: Option<String>)
    ensures
        r.deep_view() == env_value(env@, ENV_DEFAULT_MODEL@),
{
    trimmed_env(env, ENV_DEFAULT_MODEL)
}

/// The fallback web-search model (`GROK_DEFAULT_WEB_SEARCH_MODEL`).
pub fn env_default_web_search(env: &EnvVars) -> (r: Option<String>)
    ensures
        r.deep_view() == env_value(env@, ENV_DEFAULT_WEB_SEARCH_MODEL@),
{
    trimmed_env(env, ENV_DEFAULT_WEB_SEARCH_MODEL)
}

/// The fallback image-description model (`GROK_DEFAULT_IMAGE_DESCRIPTION_MODEL`).
pub fn env_default_image_description(env: &EnvVars) -> (r: Option<String>)
    ensures
        r.deep_view() == env_value(env@, ENV_DEFAULT_IMAGE_DESCRIPTION_MODEL@),
{
    trimmed_env(env, ENV_DEFAULT_IMAGE_DESCRIPTION_MODEL)
}

/// The fallback session-summary model (`GROK_DEFAULT_SESSION_SUMMARY_MODEL`).
pub fn env_default_session_summary(env: &EnvVars) -> (r: Option<String>)
    ensures
        r.deep_view() == env_value(env@, ENV_DEFAULT_SESSION_SUMMARY_MODEL@),
{
    trimmed_env(env, ENV_DEFAULT_SESSION_SUMMARY_MODEL)
}

} // verus!
