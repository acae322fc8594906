//! The custom model definition (tier 2): what the `GROK_MODEL_*` variables
//! describe, each string trimmed and whitespace-only values treated as unset.

use vstd::prelude::*;

use crate::env::{
    env_value, trimmed_env, EnvVars, ENV_MODEL_AGENT_TYPE, ENV_MODEL_API_BACKEND, ENV_MODEL_API_KEY,
    ENV_MODEL_AUTH_SCHEME, ENV_MODEL_BASE_URL, ENV_MODEL_CONTEXT_WINDOW, ENV_MODEL_DISPLAY_NAME,
    ENV_MODEL_ENV_KEY, ENV_MODEL_EXTRA_HEADERS, ENV_MODEL_ID, ENV_MODEL_MAX_RETRIES,
    ENV_MODEL_MAX_TOKENS, ENV_MODEL_NAME, ENV_MODEL_STREAM_TOOL_CALLS, ENV_MODEL_TEMPERATURE,
    ENV_MODEL_TOP_P,
};
use crate::headers::{json_string_map, keys_distinct, pairs_map, parse_extra_headers};
use crate::parse::{flag_value, parse_flag, parse_u32, parse_u64, parse_unsigned};

verus! {

/// Structured data read from the `GROK_MODEL_*` variables.
///
/// `temperature` and `top_p` hold the trimmed text of their variables: they
/// are floating-point numbers, which the caller parses.
#[derive(Debug, Clone)]
pub struct EnvModelDefinition {
    pub model_id: Option<String>,
    /// API routing slug.
    pub model_name: Option<String>,
    /// Human-readable UI display name.
    pub display_name: Option<String>,
    pub base_url: Option<String>,
    pub api_key: Option<String>,
    pub env_key: Option<String>,
    pub api_backend: Option<String>,
    pub context_window: Option<u64>,
    /// Header names and values, no name twice; `None` when absent, not a JSON
    /// object of strings, or empty.
    pub extra_headers: Option<Vec<(String, String)>>,
    /// Reserved for future use: not wired into the model override.
    pub auth_scheme: Option<String>,
    pub temperature: Option<String>,
    pub top_p: Option<String>,
    pub max_tokens: Option<u32>,
    pub agent_type: Option<String>,
    pub stream_tool_calls: Option<bool>,
    pub max_retries: Option<u32>,
}

impl Default for EnvModelDefinition {
    fn default() -> (d: Self)
        ensures
            d.model_id is None && d.model_name is None && d.display_name is None,
            d.base_url is None && d.api_key is None && d.env_key is None,
            d.api_backend is None && d.context_window is None && d.extra_headers is None,
            d.auth_scheme is None && d.temperature is None && d.top_p is None,
            d.max_tokens is None && d.agent_type is None && d.stream_tool_calls is None,
            d.max_retries is None,
    {
        EnvModelDefinition {
            model_id: None,
            model_name: None,
            display_name: None,
            base_url: None,
            api_key: None,
            env_key: None,
            api_backend: None,
            context_window: None,
            extra_headers: None,
            auth_scheme: None,
            temperature: None,
            top_p: None,
            max_tokens: None,
            agent_type: None,
            stream_tool_calls: None,
            max_retries: None,
        }
    }
}

/// Variable `name` read as a `u64`: `None` when unset, blank or not a number.
pub open spec fn env_u64(env: Map<Seq<char>, Seq<char>>, name: Seq<char>) -> Option<u64> {
    match env_value(env, name) {
        Some(t) => match parse_unsigned(t, u64::MAX as nat) {
            Some(n) => Some(n as u64),
            None => None,
        },
        None => None,
    }
}

/// Variable `name` read as a `u32`: `None` when unset, blank or not a number.
pub open spec fn env_u32(env: Map<Seq<char>, Seq<char>>, name: Seq<char>) -> Option<u32> {
    match env_value(env, name) {
        Some(t) => match parse_unsigned(t, u32::MAX as nat) {
            Some(n) => Some(n as u32),
            None => None,
        },
        None => None,
    }
}

/// Variable `name` read as a flag.
pub open spec fn env_flag(env: Map<Seq<char>, Seq<char>>, name: Seq<char>) -> Option<bool> {
    match env_value(env, name) {
        Some(t) => flag_value(t),
        None => None,
    }
}

/// `headers` are what the JSON `text` gives: nothing when there is no text,
/// when it is no object of strings, or when the object is empty; otherwise
/// the object's entries, each name once, in some order.
pub open spec fn headers_from_json(
    headers: Option<Seq<(Seq<char>, Seq<char>)>>,
    text: Option<Seq<char>>,
) -> bool {
    match text {
        None => headers is None,
        Some(t) => match json_string_map(t) {
            None => headers is None,
            Some(m) => if m == Map::<Seq<char>, Seq<char>>::empty() {
                headers is None
            } else {
                headers matches Some(h) && keys_distinct(h) && pairs_map(h) == m
            },
        },
    }
}

/// `def` is the definition that environment `env` describes.
pub open spec fn is_definition_of(def: EnvModelDefinition, env: Map<Seq<char>, Seq<char>>) -> bool {
    &&& def.model_id.deep_view() == env_value(env, ENV_MODEL_ID@)
    &&& def.model_name.deep_view() == env_value(env, ENV_MODEL_NAME@)
    &&& def.display_name.deep_view() == env_value(env, ENV_MODEL_DISPLAY_NAME@)
    &&& def.base_url.deep_view() == env_value(env, ENV_MODEL_BASE_URL@)
    &&& def.api_key.deep_view() == env_value(env, ENV_MODEL_API_KEY@)
    &&& def.env_key.deep_view() == env_value(env, ENV_MODEL_ENV_KEY@)
    &&& def.api_backend.deep_view() == env_value(env, ENV_MODEL_API_BACKEND@)
    &&& def.context_window == env_u64(env, ENV_MODEL_CONTEXT_WINDOW@)
    &&& headers_from_json(def.extra_headers.deep_view(), env_value(env, ENV_MODEL_EXTRA_HEADERS@))
    &&& def.auth_scheme.deep_view() == env_value(env, ENV_MODEL_AUTH_SCHEME@)
    &&& def.temperature.deep_view() == env_value(env, ENV_MODEL_TEMPERATURE@)
    &&& def.top_p.deep_view() == env_value(env, ENV_MODEL_TOP_P@)
    &&& def.max_tokens == env_u32(env, ENV_MODEL_MAX_TOKENS@)
    &&& def.agent_type.deep_view() == env_value(env, ENV_MODEL_AGENT_TYPE@)
    &&& def.stream_tool_calls == env_flag(env, ENV_MODEL_STREAM_TOOL_CALLS@)
    &&& def.max_retries == env_u32(env, ENV_MODEL_MAX_RETRIES@)
}

/// Reads variable `name` as a `u64`.
fn env_u64_value(env: &EnvVars, name: &str) -> (r: Option<u64>)
    ensures
        r == env_u64(env@, name@),
{
    match trimmed_env(env, name) {
        Some(v) => parse_u64(v.as_str()),
        None => None,
    }
}

/// Reads variable `name` as a `u32`.
fn env_u32_value(env: &EnvVars, name: &str) -> (r: Option<u32>)
    ensures
        r == env_u32(env@, name@),
{
    match trimmed_env(env, name) {
        Some(v) => parse_u32(v.as_str()),
        None => None,
    }
}

/// Reads variable `name` as a flag.
fn env_flag_value(env: &EnvVars, name: &str) -> (r: Option<bool>)
    ensures
        r == env_flag(env@, name@),
{
    match trimmed_env(env, name) {
        Some(v) => parse_flag(v.as_str()),
        None => None,
    }
}

/// Reads the extra headers from variable `name`.
fn env_headers_value(env: &EnvVars, name: &str) -> (r: Option<Vec<(String, String)>>)
    ensures
        headers_from_json(r.deep_view(), env_value(env@, name@)),
{
    match trimmed_env(env, name) {
        Some(v) => parse_extra_headers(v.as_str()),
        None => None,
    }
}

/// Parses all `GROK_MODEL_*` variables of `env` into an [`EnvModelDefinition`].
///
/// All string values are trimmed of surrounding whitespace; whitespace-only
/// values are treated as `None`.
pub fn read_env_model_definition(env: &EnvVars) -> (def: EnvModelDefinition)
    ensures
        is_definition_of(def, env@),
{
    EnvModelDefinition {
        model_id: trimmed_env(env, ENV_MODEL_ID),
        model_name: trimmed_env(env, ENV_MODEL_NAME),
        display_name: trimmed_env(env, ENV_MODEL_DISPLAY_NAME),
        base_url: trimmed_env(env, ENV_MODEL_BASE_URL),
        api_key: trimmed_env(env, ENV_MODEL_API_KEY),
        env_key: trimmed_env(env, ENV_MODEL_ENV_KEY),
        api_backend: trimmed_env(env, ENV_MODEL_API_BACKEND),
        context_window: env_u64_value(env, ENV_MODEL_CONTEXT_WINDOW),
        extra_headers: env_headers_value(env, ENV_MODEL_EXTRA_HEADERS),
        auth_scheme: trimmed_env(env, ENV_MODEL_AUTH_SCHEME),
        temperature: trimmed_env(env, ENV_MODEL_TEMPERATURE),
        top_p: trimmed_env(env, ENV_MODEL_TOP_P),
        max_tokens: env_u32_value(env, ENV_MODEL_MAX_TOKENS),
        agent_type: trimmed_env(env, ENV_MODEL_AGENT_TYPE),
        stream_tool_calls: env_flag_value(env, ENV_MODEL_STREAM_TOOL_CALLS),
        max_retries: env_u32_value(env, ENV_MODEL_MAX_RETRIES),
    }
}

} // verus!
