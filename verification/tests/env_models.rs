use xai_grok_models::{
    build_env_model_override, env_default_image_description, env_default_model,
    env_default_session_summary, env_default_web_search, header_map_from_pairs, nonblank_trimmed,
    override_from_definition, parse_api_backend, parse_extra_headers, parse_flag, parse_u32,
    parse_u64, read_env_model_definition, trim_whitespace, trimmed_env, ApiBackend,
    EnvModelDefinition, EnvVars, ENV_DEFAULT_IMAGE_DESCRIPTION_MODEL, ENV_DEFAULT_MODEL,
    ENV_DEFAULT_SESSION_SUMMARY_MODEL, ENV_DEFAULT_WEB_SEARCH_MODEL, ENV_MODEL_AGENT_TYPE,
    ENV_MODEL_API_BACKEND, ENV_MODEL_API_KEY, ENV_MODEL_AUTH_SCHEME, ENV_MODEL_BASE_URL,
    ENV_MODEL_CONTEXT_WINDOW, ENV_MODEL_DISPLAY_NAME, ENV_MODEL_ENV_KEY, ENV_MODEL_EXTRA_HEADERS,
    ENV_MODEL_ID, ENV_MODEL_MAX_RETRIES, ENV_MODEL_MAX_TOKENS, ENV_MODEL_NAME,
    ENV_MODEL_STREAM_TOOL_CALLS, ENV_MODEL_TEMPERATURE, ENV_MODEL_TOP_P,
};

fn env_of(pairs: &[(&str, &str)]) -> EnvVars {
    let mut env = EnvVars::new();
    for (k, v) in pairs {
        env.set(k.to_string(), v.to_string());
    }
    env
}

fn sorted(mut v: Vec<(String, String)>) -> Vec<(String, String)> {
    v.sort();
    v
}

fn pairs(items: &[(&str, &str)]) -> Vec<(String, String)> {
    items.iter().map(|(k, v)| (k.to_string(), v.to_string())).collect()
}

#[test]
fn variable_names() {
    assert_eq!(ENV_DEFAULT_MODEL, "GROK_DEFAULT_MODEL");
    assert_eq!(ENV_DEFAULT_WEB_SEARCH_MODEL, "GROK_DEFAULT_WEB_SEARCH_MODEL");
    assert_eq!(ENV_DEFAULT_IMAGE_DESCRIPTION_MODEL, "GROK_DEFAULT_IMAGE_DESCRIPTION_MODEL");
    assert_eq!(ENV_DEFAULT_SESSION_SUMMARY_MODEL, "GROK_DEFAULT_SESSION_SUMMARY_MODEL");
    assert_eq!(ENV_MODEL_ID, "GROK_MODEL_ID");
    assert_eq!(ENV_MODEL_NAME, "GROK_MODEL_NAME");
    assert_eq!(ENV_MODEL_DISPLAY_NAME, "GROK_MODEL_DISPLAY_NAME");
    assert_eq!(ENV_MODEL_BASE_URL, "GROK_MODEL_BASE_URL");
    assert_eq!(ENV_MODEL_API_KEY, "GROK_MODEL_API_KEY");
    assert_eq!(ENV_MODEL_ENV_KEY, "GROK_MODEL_ENV_KEY");
    assert_eq!(ENV_MODEL_API_BACKEND, "GROK_MODEL_API_BACKEND");
    assert_eq!(ENV_MODEL_CONTEXT_WINDOW, "GROK_MODEL_CONTEXT_WINDOW");
    assert_eq!(ENV_MODEL_EXTRA_HEADERS, "GROK_MODEL_EXTRA_HEADERS");
    assert_eq!(ENV_MODEL_AUTH_SCHEME, "GROK_MODEL_AUTH_SCHEME");
    assert_eq!(ENV_MODEL_TEMPERATURE, "GROK_MODEL_TEMPERATURE");
    assert_eq!(ENV_MODEL_TOP_P, "GROK_MODEL_TOP_P");
    assert_eq!(ENV_MODEL_MAX_TOKENS, "GROK_MODEL_MAX_TOKENS");
    assert_eq!(ENV_MODEL_AGENT_TYPE, "GROK_MODEL_AGENT_TYPE");
    assert_eq!(ENV_MODEL_STREAM_TOOL_CALLS, "GROK_MODEL_STREAM_TOOL_CALLS");
    assert_eq!(ENV_MODEL_MAX_RETRIES, "GROK_MODEL_MAX_RETRIES");
}

#[test]
fn trim_matches_std() {
    let cases = [
        "", " ", "abc", "  abc  ", "\t\n a b \r\n", "\u{3000}x\u{a0}", "\u{85}y\u{2028}",
        "\u{200b}z\u{200b}", "\u{1680}\u{2000}\u{200a}q\u{202f}\u{205f}", "a\u{2029}",
        "\u{b}\u{c}m", "é ", " ü ",
    ];
    for s in cases {
        assert_eq!(trim_whitespace(s), s.trim(), "trimming {:?}", s);
    }
}

#[test]
fn nonblank_values() {
    assert_eq!(nonblank_trimmed("  grok-4  "), Some("grok-4".to_string()));
    assert_eq!(nonblank_trimmed("   "), None);
    assert_eq!(nonblank_trimmed(""), None);
    assert_eq!(nonblank_trimmed("\u{3000}\t"), None);
    assert_eq!(nonblank_trimmed("a"), Some("a".to_string()));
}

#[test]
fn snapshot_set_and_get() {
    let mut env = EnvVars::new();
    assert_eq!(env.get("A"), None);
    env.set("A".to_string(), "1".to_string());
    env.set("A".to_string(), "2".to_string());
    assert_eq!(env.get("A"), Some("2"));
    assert_eq!(env.get("B"), None);
}

#[test]
fn trimmed_env_reads_and_trims() {
    let env = env_of(&[("X", "  v  "), ("Y", "   ")]);
    assert_eq!(trimmed_env(&env, "X"), Some("v".to_string()));
    assert_eq!(trimmed_env(&env, "Y"), None);
    assert_eq!(trimmed_env(&env, "Z"), None);
}

#[test]
fn default_model_roles() {
    let env = env_of(&[
        (ENV_DEFAULT_MODEL, " grok-code "),
        (ENV_DEFAULT_WEB_SEARCH_MODEL, "grok-search"),
        (ENV_DEFAULT_IMAGE_DESCRIPTION_MODEL, "\tgrok-vision\n"),
        (ENV_DEFAULT_SESSION_SUMMARY_MODEL, "  "),
    ]);
    assert_eq!(env_default_model(&env), Some("grok-code".to_string()));
    assert_eq!(env_default_web_search(&env), Some("grok-search".to_string()));
    assert_eq!(env_default_image_description(&env), Some("grok-vision".to_string()));
    assert_eq!(env_default_session_summary(&env), None);
    let empty = EnvVars::new();
    assert_eq!(env_default_model(&empty), None);
    assert_eq!(env_default_web_search(&empty), None);
    assert_eq!(env_default_image_description(&empty), None);
    assert_eq!(env_default_session_summary(&empty), None);
}

#[test]
fn u64_parsing_matches_std() {
    let cases = [
        "0", "42", "+7", "007", "", "+", "-1", "-0", "++1", "1_000", " 1", "1 ", "12a",
        "18446744073709551615", "18446744073709551616", "99999999999999999999999", "+18446744073709551615",
        "٣",
    ];
    for s in cases {
        assert_eq!(parse_u64(s), s.parse::<u64>().ok(), "parsing {:?}", s);
    }
}

#[test]
fn u32_parsing_matches_std() {
    let cases = [
        "0", "4096", "+1", "4294967295", "4294967296", "18446744073709551616", "", "x", "-5",
    ];
    for s in cases {
        assert_eq!(parse_u32(s), s.parse::<u32>().ok(), "parsing {:?}", s);
    }
}

#[test]
fn flag_values() {
    for s in ["true", "TRUE", "True", "1", "yes", "YeS"] {
        assert_eq!(parse_flag(s), Some(true), "{:?}", s);
    }
    for s in ["false", "FALSE", "0", "no", "No"] {
        assert_eq!(parse_flag(s), Some(false), "{:?}", s);
    }
    for s in ["", "maybe", "on", "off", "2", "tru", "yess", "ｔrue"] {
        assert_eq!(parse_flag(s), None, "{:?}", s);
    }
}

#[test]
fn api_backend_names() {
    assert_eq!(parse_api_backend("chat_completions"), Some(ApiBackend::ChatCompletions));
    assert_eq!(parse_api_backend("responses"), Some(ApiBackend::Responses));
    assert_eq!(parse_api_backend("messages"), Some(ApiBackend::Messages));
    assert_eq!(parse_api_backend("grpc"), None);
    assert_eq!(parse_api_backend(""), None);
}

#[test]
fn extra_headers_json() {
    let h = parse_extra_headers(r#"{"X-A": "1", "X-B": "two"}"#).unwrap();
    assert_eq!(sorted(h), pairs(&[("X-A", "1"), ("X-B", "two")]));
    assert_eq!(parse_extra_headers("{}"), None);
    assert_eq!(parse_extra_headers("[1, 2]"), None);
    assert_eq!(parse_extra_headers(r#"{"a": 1}"#), None);
    assert_eq!(parse_extra_headers("not json"), None);
    assert_eq!(parse_extra_headers(r#"{"a": "1"} x"#), None);
    let dup = parse_extra_headers(r#"{"a": "1", "a": "2"}"#).unwrap();
    assert_eq!(dup, pairs(&[("a", "2")]));
}

#[test]
fn header_map_keeps_order() {
    let m = header_map_from_pairs(&pairs(&[("b", "1"), ("a", "2"), ("c", "3")]));
    let got: Vec<(String, String)> = m.into_iter().collect();
    assert_eq!(got, pairs(&[("b", "1"), ("a", "2"), ("c", "3")]));
    let m = header_map_from_pairs(&pairs(&[("a", "1"), ("b", "2"), ("a", "3")]));
    let got: Vec<(String, String)> = m.into_iter().collect();
    assert_eq!(got, pairs(&[("a", "3"), ("b", "2")]));
}

#[test]
fn full_definition() {
    let env = env_of(&[
        (ENV_MODEL_ID, " my-model "),
        (ENV_MODEL_NAME, "slug"),
        (ENV_MODEL_DISPLAY_NAME, "My Model"),
        (ENV_MODEL_BASE_URL, "https://api.example.com/v1"),
        (ENV_MODEL_API_KEY, "SECRET-REDACTED"),
        (ENV_MODEL_ENV_KEY, "MY_KEY"),
        (ENV_MODEL_API_BACKEND, "responses"),
        (ENV_MODEL_CONTEXT_WINDOW, "131072"),
        (ENV_MODEL_EXTRA_HEADERS, r#" {"X-Org": "acme"} "#),
        (ENV_MODEL_AUTH_SCHEME, "bearer"),
        (ENV_MODEL_TEMPERATURE, "0.7"),
        (ENV_MODEL_TOP_P, " 0.9 "),
        (ENV_MODEL_MAX_TOKENS, "4096"),
        (ENV_MODEL_AGENT_TYPE, "coder"),
        (ENV_MODEL_STREAM_TOOL_CALLS, "Yes"),
        (ENV_MODEL_MAX_RETRIES, "3"),
    ]);
    let def = read_env_model_definition(&env);
    assert_eq!(def.model_id.as_deref(), Some("my-model"));
    assert_eq!(def.model_name.as_deref(), Some("slug"));
    assert_eq!(def.display_name.as_deref(), Some("My Model"));
    assert_eq!(def.base_url.as_deref(), Some("https://api.example.com/v1"));
    assert_eq!(def.api_key.as_deref(), Some("SECRET-REDACTED"));
    assert_eq!(def.env_key.as_deref(), Some("MY_KEY"));
    assert_eq!(def.api_backend.as_deref(), Some("responses"));
    assert_eq!(def.context_window, Some(131072));
    assert_eq!(def.extra_headers, Some(pairs(&[("X-Org", "acme")])));
    assert_eq!(def.auth_scheme.as_deref(), Some("bearer"));
    assert_eq!(def.temperature.as_deref(), Some("0.7"));
    assert_eq!(def.top_p.as_deref(), Some("0.9"));
    assert_eq!(def.max_tokens, Some(4096));
    assert_eq!(def.agent_type.as_deref(), Some("coder"));
    assert_eq!(def.stream_tool_calls, Some(true));
    assert_eq!(def.max_retries, Some(3));
}

#[test]
fn definition_of_empty_environment() {
    let def = read_env_model_definition(&EnvVars::new());
    assert!(def.model_id.is_none() && def.model_name.is_none() && def.display_name.is_none());
    assert!(def.base_url.is_none() && def.api_key.is_none() && def.env_key.is_none());
    assert!(def.api_backend.is_none() && def.context_window.is_none());
    assert!(def.extra_headers.is_none() && def.auth_scheme.is_none());
    assert!(def.temperature.is_none() && def.top_p.is_none() && def.max_tokens.is_none());
    assert!(def.agent_type.is_none() && def.stream_tool_calls.is_none());
    assert!(def.max_retries.is_none());
}

#[test]
fn definition_rejects_bad_values() {
    let env = env_of(&[
        (ENV_MODEL_ID, "   "),
        (ENV_MODEL_CONTEXT_WINDOW, "lots"),
        (ENV_MODEL_EXTRA_HEADERS, "{}"),
        (ENV_MODEL_MAX_TOKENS, "4294967296"),
        (ENV_MODEL_STREAM_TOOL_CALLS, "sometimes"),
        (ENV_MODEL_MAX_RETRIES, "-1"),
    ]);
    let def = read_env_model_definition(&env);
    assert_eq!(def.model_id, None);
    assert_eq!(def.context_window, None);
    assert_eq!(def.extra_headers, None);
    assert_eq!(def.max_tokens, None);
    assert_eq!(def.stream_tool_calls, None);
    assert_eq!(def.max_retries, None);
}

#[test]
fn two_variable_setup_promotes_default_model() {
    let env = env_of(&[
        (ENV_DEFAULT_MODEL, "deepseek-chat"),
        (ENV_MODEL_BASE_URL, "https://api.deepseek.com/v1"),
        (ENV_MODEL_API_KEY, "SECRET-REDACTED"),
    ]);
    let (key, o) = build_env_model_override(&env).unwrap();
    assert_eq!(key, "deepseek-chat");
    assert_eq!(o.model.as_deref(), Some("deepseek-chat"));
    assert_eq!(o.name.as_deref(), Some("deepseek-chat"));
    assert_eq!(o.base_url.as_deref(), Some("https://api.deepseek.com/v1"));
    assert_eq!(o.api_key.as_deref(), Some("SECRET-REDACTED"));
    assert!(o.env_key.is_none());
    assert_eq!(o.hidden, Some(false));
    assert_eq!(o.supported_in_api, Some(true));
    assert!(o.extra_headers.is_empty());
}

#[test]
fn default_model_alone_is_not_promoted() {
    let env = env_of(&[(ENV_DEFAULT_MODEL, "deepseek-chat"), (ENV_MODEL_NAME, "x")]);
    assert!(build_env_model_override(&env).is_none());
    assert!(build_env_model_override(&EnvVars::new()).is_none());
}

#[test]
fn env_key_alone_gives_context() {
    let env = env_of(&[(ENV_DEFAULT_MODEL, " grok-2 "), (ENV_MODEL_ENV_KEY, "MY_API_KEY")]);
    let (key, o) = build_env_model_override(&env).unwrap();
    assert_eq!(key, "grok-2");
    assert_eq!(o.env_key.unwrap().names, vec!["MY_API_KEY".to_string()]);
}

#[test]
fn model_id_takes_precedence_over_default() {
    let env = env_of(&[
        (ENV_MODEL_ID, "custom"),
        (ENV_DEFAULT_MODEL, "deepseek-chat"),
        (ENV_MODEL_BASE_URL, "https://x"),
    ]);
    let (key, o) = build_env_model_override(&env).unwrap();
    assert_eq!(key, "custom");
    assert_eq!(o.model.as_deref(), Some("custom"));
    let env = env_of(&[(ENV_MODEL_ID, "custom")]);
    let (key, o) = build_env_model_override(&env).unwrap();
    assert_eq!(key, "custom");
    assert!(o.base_url.is_none());
}

#[test]
fn blank_model_id_falls_back_to_default() {
    let env = env_of(&[
        (ENV_MODEL_ID, "  "),
        (ENV_DEFAULT_MODEL, "d"),
        (ENV_MODEL_API_KEY, "k"),
    ]);
    let (key, _) = build_env_model_override(&env).unwrap();
    assert_eq!(key, "d");
}

#[test]
fn name_fallbacks() {
    let env = env_of(&[(ENV_MODEL_ID, "id"), (ENV_MODEL_NAME, "slug")]);
    let (_, o) = build_env_model_override(&env).unwrap();
    assert_eq!(o.model.as_deref(), Some("slug"));
    assert_eq!(o.name.as_deref(), Some("slug"));

    let env = env_of(&[(ENV_MODEL_ID, "id"), (ENV_MODEL_DISPLAY_NAME, "Pretty")]);
    let (_, o) = build_env_model_override(&env).unwrap();
    assert_eq!(o.model.as_deref(), Some("id"));
    assert_eq!(o.name.as_deref(), Some("Pretty"));

    let env = env_of(&[(ENV_MODEL_ID, "id"), (ENV_MODEL_NAME, "slug"), (ENV_MODEL_DISPLAY_NAME, "Pretty")]);
    let (_, o) = build_env_model_override(&env).unwrap();
    assert_eq!(o.model.as_deref(), Some("slug"));
    assert_eq!(o.name.as_deref(), Some("Pretty"));
}

#[test]
fn override_carries_settings() {
    let env = env_of(&[
        (ENV_MODEL_ID, "m"),
        (ENV_MODEL_API_BACKEND, "messages"),
        (ENV_MODEL_CONTEXT_WINDOW, "+200000"),
        (ENV_MODEL_EXTRA_HEADERS, r#"{"A": "1", "B": "2"}"#),
        (ENV_MODEL_TEMPERATURE, "0.2"),
        (ENV_MODEL_TOP_P, "0.95"),
        (ENV_MODEL_MAX_TOKENS, "8192"),
        (ENV_MODEL_AGENT_TYPE, "agent"),
        (ENV_MODEL_STREAM_TOOL_CALLS, "0"),
        (ENV_MODEL_MAX_RETRIES, "5"),
    ]);
    let (_, o) = build_env_model_override(&env).unwrap();
    assert_eq!(o.api_backend, Some(ApiBackend::Messages));
    assert_eq!(o.context_window, Some(200000));
    let headers: Vec<(String, String)> = o.extra_headers.into_iter().collect();
    assert_eq!(sorted(headers), pairs(&[("A", "1"), ("B", "2")]));
    assert_eq!(o.temperature.as_deref(), Some("0.2"));
    assert_eq!(o.top_p.as_deref(), Some("0.95"));
    assert_eq!(o.max_completion_tokens, Some(8192));
    assert_eq!(o.agent_type.as_deref(), Some("agent"));
    assert_eq!(o.stream_tool_calls, Some(false));
    assert_eq!(o.max_retries, Some(5));
}

#[test]
fn unrecognized_backend_is_dropped() {
    let env = env_of(&[(ENV_MODEL_ID, "m"), (ENV_MODEL_API_BACKEND, "grpc")]);
    let (_, o) = build_env_model_override(&env).unwrap();
    assert_eq!(o.api_backend, None);
}

#[test]
fn override_from_parsed_definition() {
    let mut def = EnvModelDefinition::default();
    assert!(override_from_definition(def.clone(), Some("d".to_string())).is_none());
    def.base_url = Some("u".to_string());
    assert!(override_from_definition(def.clone(), None).is_none());
    let (key, o) = override_from_definition(def.clone(), Some("d".to_string())).unwrap();
    assert_eq!(key, "d");
    assert_eq!(o.base_url.as_deref(), Some("u"));
    def.model_id = Some("id".to_string());
    def.extra_headers = Some(pairs(&[("z", "1"), ("y", "2")]));
    let (key, o) = override_from_definition(def, Some("d".to_string())).unwrap();
    assert_eq!(key, "id");
    let headers: Vec<(String, String)> = o.extra_headers.into_iter().collect();
    assert_eq!(headers, pairs(&[("z", "1"), ("y", "2")]));
}
