//! Environment-variable driven model configuration: trimming and parsing of
//! `GROK_*` variables, the custom model definition they describe, and the
//! model override built from it.

pub mod text;
pub mod parse;
pub mod env;
pub mod headers;
pub mod definition;
pub mod model_override;
pub mod laws;

pub use definition::{read_env_model_definition, EnvModelDefinition};
pub use env::{
    env_default_image_description, env_default_model, env_default_session_summary,
    env_default_web_search, trimmed_env, EnvVars, ENV_DEFAULT_IMAGE_DESCRIPTION_MODEL,
    ENV_DEFAULT_MODEL, ENV_DEFAULT_SESSION_SUMMARY_MODEL, ENV_DEFAULT_WEB_SEARCH_MODEL,
    ENV_MODEL_AGENT_TYPE, ENV_MODEL_API_BACKEND, ENV_MODEL_API_KEY, ENV_MODEL_AUTH_SCHEME,
    ENV_MODEL_BASE_URL, ENV_MODEL_CONTEXT_WINDOW, ENV_MODEL_DISPLAY_NAME, ENV_MODEL_ENV_KEY,
    ENV_MODEL_EXTRA_HEADERS, ENV_MODEL_ID, ENV_MODEL_MAX_RETRIES, ENV_MODEL_MAX_TOKENS,
    ENV_MODEL_NAME, ENV_MODEL_STREAM_TOOL_CALLS, ENV_MODEL_TEMPERATURE, ENV_MODEL_TOP_P,
};
pub use headers::{empty_header_map, header_map_from_pairs, nonempty_headers, parse_extra_headers};
pub use model_override::{
    build_env_model_override, override_from_definition, parse_api_backend, ApiBackend,
    ConfigModelOverride, EnvKeys,
};
pub use parse::{parse_flag, parse_u32, parse_u64};
pub use text::{nonblank_trimmed, trim_whitespace};
