//! The model override that a custom model definition yields: its catalog key,
//! routing slug, display name, and the settings carried over.

use vstd::prelude::*;
use indexmap::IndexMap;

use crate::definition::{
    env_flag, env_u32, env_u64, is_definition_of, read_env_model_definition,
    EnvModelDefinition,
};
use crate::env::{
    env_value, trimmed_env, EnvVars, ENV_DEFAULT_MODEL, ENV_MODEL_AGENT_TYPE, ENV_MODEL_API_BACKEND,
    ENV_MODEL_API_KEY, ENV_MODEL_BASE_URL, ENV_MODEL_CONTEXT_WINDOW, ENV_MODEL_DISPLAY_NAME,
    ENV_MODEL_ENV_KEY, ENV_MODEL_EXTRA_HEADERS, ENV_MODEL_ID, ENV_MODEL_MAX_RETRIES,
    ENV_MODEL_MAX_TOKENS, ENV_MODEL_NAME, ENV_MODEL_STREAM_TOOL_CALLS, ENV_MODEL_TEMPERATURE,
    ENV_MODEL_TOP_P,
};
use crate::headers::{
    empty_header_map, entries_insert_all, header_entries, header_map_from_pairs, json_string_map,
    keys_distinct, lemma_insert_all_distinct, pairs_map,
};

verus! {

/// The protocol an inference endpoint speaks.
#[derive(Debug, Clone, Copy, PartialEq, Eq, Structural)]
pub enum ApiBackend {
    ChatCompletions,
    Responses,
    Messages,
}

/// The backend a `GROK_MODEL_API_BACKEND` value names, if any.
pub open spec fn api_backend_of(s: Seq<char>) -> Option<ApiBackend> {
    if s == "chat_completions"@ {
        Some(ApiBackend::ChatCompletions)
    } else if s == "responses"@ {
        Some(ApiBackend::Responses)
    } else if s == "messages"@ {
        Some(ApiBackend::Messages)
    } else {
        None
    }
}

/// Reads a backend name: `chat_completions`, `responses` or `messages`.
pub fn parse_api_backend(s: &str) -> (r: Option<ApiBackend>)
    ensures
        r == api_backend_of(s@),
{
    let owned = s.to_owned();
    if owned == "chat_completions".to_owned() {
        Some(ApiBackend::ChatCompletions)
    } else if owned == "responses".to_owned() {
        Some(ApiBackend::Responses)
    } else if owned == "messages".to_owned() {
        Some(ApiBackend::Messages)
    } else {
        None
    }
}

/// The variables that name an API key: here always one.
#[derive(Debug, Clone)]
pub struct EnvKeys {
    pub names: Vec<String>,
}

impl EnvKeys {
    /// Keys made of the one variable `name`.
    pub fn single(name: String) -> (k: EnvKeys)
        ensures
            k.names.deep_view() == seq![name@],
    {
        let mut names = Vec::new();
        names.push(name);
        assert(names.deep_view() =~= seq![name@]);
        EnvKeys { names }
    }
}

/// The settings of a model entry that an environment-defined model overrides.
///
/// `temperature` and `top_p` carry the text of their variables; they are
/// floating-point numbers, which the caller parses.
#[derive(Debug)]
pub struct ConfigModelOverride {
    /// Routing slug, sent as the `model` field of requests.
    pub model: Option<String>,
    pub base_url: Option<String>,
    /// Display name in the model picker.
    pub name: Option<String>,
    pub api_key: Option<String>,
    pub env_key: Option<EnvKeys>,
    pub max_completion_tokens: Option<u32>,
    pub temperature: Option<String>,
    pub top_p: Option<String>,
    pub api_backend: Option<ApiBackend>,
    pub extra_headers: IndexMap<String, String>,
    pub context_window: Option<u64>,
    pub agent_type: Option<String>,
    pub max_retries: Option<u32>,
    pub hidden: Option<bool>,
    pub supported_in_api: Option<bool>,
    pub stream_tool_calls: Option<bool>,
}

/// The catalog key: `GROK_MODEL_ID`, else the default model, but only when a
/// base URL, an API key or a key variable gives enough context for a model.
pub open spec fn resolve_model_id(
    model_id: Option<Seq<char>>,
    default_model: Option<Seq<char>>,
    has_context: bool,
) -> Option<Seq<char>> {
    match model_id {
        Some(id) => Some(id),
        None => if has_context {
            default_model
        } else {
            None
        },
    }
}

/// `preferred` when present, else `fallback`.
pub open spec fn or_else(preferred: Option<Seq<char>>, fallback: Seq<char>) -> Seq<char> {
    match preferred {
        Some(v) => v,
        None => fallback,
    }
}

/// Whether the definition gives enough context to promote the default model.
pub open spec fn has_model_context(def: EnvModelDefinition) -> bool {
    def.base_url is Some || def.api_key is Some || def.env_key is Some
}

/// The catalog key that `def` and the default model resolve to.
pub open spec fn definition_model_id(def: EnvModelDefinition, default_model: Option<Seq<char>>) -> Option<Seq<char>> {
    resolve_model_id(def.model_id.deep_view(), default_model, has_model_context(def))
}

/// `o` is the override that `def` yields under catalog key `key`.
pub open spec fn is_override_of(key: Seq<char>, o: ConfigModelOverride, def: EnvModelDefinition) -> bool {
    &&& o.model.deep_view() == Some(or_else(def.model_name.deep_view(), key))
    &&& o.name.deep_view() == Some(
        or_else(def.display_name.deep_view(), or_else(def.model_name.deep_view(), key)),
    )
    &&& o.base_url == def.base_url
    &&& o.api_key == def.api_key
    &&& match def.env_key {
        Some(k) => o.env_key matches Some(ek) && ek.names.deep_view() == seq![k@],
        None => o.env_key is None,
    }
    &&& o.max_completion_tokens == def.max_tokens
    &&& o.temperature == def.temperature
    &&& o.top_p == def.top_p
    &&& o.api_backend == match def.api_backend {
        Some(v) => api_backend_of(v@),
        None => None,
    }
    &&& header_entries(o.extra_headers) == match def.extra_headers {
        Some(h) => entries_insert_all(h.deep_view()),
        None => Seq::empty(),
    }
    &&& o.context_window == def.context_window
    &&& o.agent_type == def.agent_type
    &&& o.max_retries == def.max_retries
    &&& o.hidden == Some(false)
    &&& o.supported_in_api == Some(true)
    &&& o.stream_tool_calls == def.stream_tool_calls
}

/// Builds the `(key, override)` pair from a parsed definition and the trimmed
/// `GROK_DEFAULT_MODEL`; `None` when no catalog key can be determined.
pub fn override_from_definition(def: EnvModelDefinition, default_model: Option<String>) -> (r: Option<(String, ConfigModelOverride)>)
    ensures
        r is Some <==> definition_model_id(def, default_model.deep_view()) is Some,
        r matches Some((key, o)) ==> key@ == definition_model_id(def, default_model.deep_view()).unwrap()
            && is_override_of(key@, o, def),
{
    let has_context = def.base_url.is_some() || def.api_key.is_some() || def.env_key.is_some();
    let model_id = match def.model_id {
        Some(id) => id,
        None => {
            if !has_context {
                return None;
            }
            match default_model {
                Some(d) => d,
                None => {
                    return None;
                },
            }
        },
    };
    let api_backend = match &def.api_backend {
        Some(v) => parse_api_backend(v.as_str()),
        None => None,
    };
    let extra_headers = match &def.extra_headers {
        Some(h) => header_map_from_pairs(h),
        None => empty_header_map(),
    };
    let routing_slug = match &def.model_name {
        Some(n) => n.clone(),
        None => model_id.clone(),
    };
    let display_name = match def.display_name {
        Some(d) => d,
        None => match def.model_name {
            Some(n) => n,
            None => model_id.clone(),
        },
    };
    let env_key = match def.env_key {
        Some(k) => Some(EnvKeys::single(k)),
        None => None,
    };
    let o = ConfigModelOverride {
        model: Some(routing_slug),
        base_url: def.base_url,
        name: Some(display_name),
        api_key: def.api_key,
        env_key,
        max_completion_tokens: def.max_tokens,
        temperature: def.temperature,
        top_p: def.top_p,
        api_backend,
        extra_headers,
        context_window: def.context_window,
        agent_type: def.agent_type,
        max_retries: def.max_retries,
        hidden: Some(false),
        supported_in_api: Some(true),
        stream_tool_calls: def.stream_tool_calls,
    };
    Some((model_id, o))
}

/// The catalog key that environment `env` resolves to: `GROK_MODEL_ID`, else
/// `GROK_DEFAULT_MODEL` when a base URL, an API key or a key variable is set.
pub open spec fn env_model_id(env: Map<Seq<char>, Seq<char>>) -> Option<Seq<char>> {
    resolve_model_id(
        env_value(env, ENV_MODEL_ID@),
        env_value(env, ENV_DEFAULT_MODEL@),
        env_value(env, ENV_MODEL_BASE_URL@) is Some || env_value(env, ENV_MODEL_API_KEY@) is Some
            || env_value(env, ENV_MODEL_ENV_KEY@) is Some,
    )
}

/// Header entries `e` carry the JSON object of `text`: none without text or
/// object, else each name of the object once, with its value.
pub open spec fn entries_from_json(e: Seq<(Seq<char>, Seq<char>)>, text: Option<Seq<char>>) -> bool {
    match text {
        None => e.len() == 0,
        Some(t) => match json_string_map(t) {
            None => e.len() == 0,
            Some(m) => keys_distinct(e) && pairs_map(e) == m,
        },
    }
}

/// `o` is the override that environment `env` yields under catalog key `key`.
pub open spec fn is_env_override(key: Seq<char>, o: ConfigModelOverride, env: Map<Seq<char>, Seq<char>>) -> bool {
    let model_name = env_value(env, ENV_MODEL_NAME@);
    &&& o.model.deep_view() == Some(or_else(model_name, key))
    &&& o.name.deep_view() == Some(
        or_else(env_value(env, ENV_MODEL_DISPLAY_NAME@), or_else(model_name, key)),
    )
    &&& o.base_url.deep_view() == env_value(env, ENV_MODEL_BASE_URL@)
    &&& o.api_key.deep_view() == env_value(env, ENV_MODEL_API_KEY@)
    &&& match env_value(env, ENV_MODEL_ENV_KEY@) {
        Some(k) => o.env_key matches Some(ek) && ek.names.deep_view() == seq![k],
        None => o.env_key is None,
    }
    &&& o.max_completion_tokens == env_u32(env, ENV_MODEL_MAX_TOKENS@)
    &&& o.temperature.deep_view() == env_value(env, ENV_MODEL_TEMPERATURE@)
    &&& o.top_p.deep_view() == env_value(env, ENV_MODEL_TOP_P@)
    &&& o.api_backend == match env_value(env, ENV_MODEL_API_BACKEND@) {
        Some(v) => api_backend_of(v),
        None => None,
    }
    &&& entries_from_json(header_entries(o.extra_headers), env_value(env, ENV_MODEL_EXTRA_HEADERS@))
    &&& o.context_window == env_u64(env, ENV_MODEL_CONTEXT_WINDOW@)
    &&& o.agent_type.deep_view() == env_value(env, ENV_MODEL_AGENT_TYPE@)
    &&& o.max_retries == env_u32(env, ENV_MODEL_MAX_RETRIES@)
    &&& o.hidden == Some(false)
    &&& o.supported_in_api == Some(true)
    &&& o.stream_tool_calls == env_flag(env, ENV_MODEL_STREAM_TOOL_CALLS@)
}

/// The override of a definition read from `env` is the override of `env`.
proof fn lemma_definition_override_is_env_override(
    key: Seq<char>,
    o: ConfigModelOverride,
    def: EnvModelDefinition,
    env: Map<Seq<char>, Seq<char>>,
)
    requires
        is_definition_of(def, env),
        is_override_of(key, o, def),
    ensures
        is_env_override(key, o, env),
{
    assert(o.base_url.deep_view() == def.base_url.deep_view());
    assert(o.api_key.deep_view() == def.api_key.deep_view());
    assert(o.temperature.deep_view() == def.temperature.deep_view());
    assert(o.top_p.deep_view() == def.top_p.deep_view());
    assert(o.agent_type.deep_view() == def.agent_type.deep_view());
    match def.extra_headers {
        Some(h) => {
            lemma_insert_all_distinct(h.deep_view());
        },
        None => {},
    }
}

/// Reads the `GROK_MODEL_*` variables of `env` and, when a catalog key can be
/// determined, returns it with the model override to insert under it.
///
/// Returns `None` when neither `GROK_MODEL_ID` nor a usable
/// `GROK_DEFAULT_MODEL`-with-definition combination is available.
pub fn build_env_model_override(env: &EnvVars) -> (r: Option<(String, ConfigModelOverride)>)
    ensures
        r is Some <==> env_model_id(env@) is Some,
        r matches Some((key, o)) ==> key@ == env_model_id(env@).unwrap() && is_env_override(key@, o, env@),
{
    let def = read_env_model_definition(env);
    let default_model = trimmed_env(env, ENV_DEFAULT_MODEL);
    let ghost def0 = def;
    let r = override_from_definition(def, default_model);
    proof {
        if r is Some {
            lemma_definition_override_is_env_override(r.unwrap().0@, r.unwrap().1, def0, env@);
        }
    }
    r
}

} // verus!
