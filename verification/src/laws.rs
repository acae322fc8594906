//! Laws of the library: what holds of every environment, stated over the
//! specifications that the functions' contracts use.

use vstd::prelude::*;

use crate::definition::{is_definition_of, EnvModelDefinition};
use crate::env::{
    env_value, ENV_DEFAULT_MODEL, ENV_MODEL_AGENT_TYPE, ENV_MODEL_API_BACKEND, ENV_MODEL_API_KEY,
    ENV_MODEL_AUTH_SCHEME, ENV_MODEL_BASE_URL, ENV_MODEL_CONTEXT_WINDOW, ENV_MODEL_DISPLAY_NAME,
    ENV_MODEL_ENV_KEY, ENV_MODEL_EXTRA_HEADERS, ENV_MODEL_ID, ENV_MODEL_MAX_RETRIES,
    ENV_MODEL_MAX_TOKENS, ENV_MODEL_NAME, ENV_MODEL_STREAM_TOOL_CALLS, ENV_MODEL_TEMPERATURE,
    ENV_MODEL_TOP_P,
};
use crate::headers::{header_entries, json_string_map, keys_distinct, pairs_map};
use crate::model_override::{
    api_backend_of, definition_model_id, env_model_id, is_env_override, is_override_of, ApiBackend, ConfigModelOverride,
};
use crate::parse::{
    all_ascii_digits, ascii_lowercase_chars, decimal_value, digit_value, is_ascii_digit,
    parse_unsigned,
};
use crate::text::{
    is_unicode_whitespace, lemma_trim_all_whitespace, lemma_trim_end_shape, lemma_trim_idempotent,
    lemma_trim_start_shape, nonblank, trim_chars, trim_end_chars, trim_start_chars,
};

verus! {

/// The value is absent, or a non-empty text that trimming leaves unchanged.
pub open spec fn is_trimmed_value(o: Option<Seq<char>>) -> bool {
    o matches Some(v) ==> v.len() > 0 && trim_chars(v) == v && !is_unicode_whitespace(v[0])
        && !is_unicode_whitespace(v.last())
}

/// Every value a variable contributes is trimmed: it is not empty, and it
/// neither begins nor ends with whitespace.
pub proof fn env_values_are_trimmed(env: Map<Seq<char>, Seq<char>>, name: Seq<char>)
    ensures
        is_trimmed_value(env_value(env, name)),
{
    if env.contains_key(name) {
        lemma_trim_idempotent(env[name]);
    }
}

/// A variable that holds nothing but whitespace counts as unset.
pub proof fn blank_variables_are_unset(env: Map<Seq<char>, Seq<char>>, name: Seq<char>)
    requires
        env.contains_key(name),
        forall|i: int| 0 <= i < env[name].len() ==> is_unicode_whitespace(#[trigger] env[name][i]),
    ensures
        env_value(env, name) is None,
{
    lemma_trim_all_whitespace(env[name]);
}

/// Every string of a definition read from an environment is trimmed and
/// non-empty.
pub proof fn definition_strings_are_trimmed(def: EnvModelDefinition, env: Map<Seq<char>, Seq<char>>)
    requires
        is_definition_of(def, env),
    ensures
        is_trimmed_value(def.model_id.deep_view()),
        is_trimmed_value(def.model_name.deep_view()),
        is_trimmed_value(def.display_name.deep_view()),
        is_trimmed_value(def.base_url.deep_view()),
        is_trimmed_value(def.api_key.deep_view()),
        is_trimmed_value(def.env_key.deep_view()),
        is_trimmed_value(def.api_backend.deep_view()),
        is_trimmed_value(def.auth_scheme.deep_view()),
        is_trimmed_value(def.temperature.deep_view()),
        is_trimmed_value(def.top_p.deep_view()),
        is_trimmed_value(def.agent_type.deep_view()),
{
    env_values_are_trimmed(env, ENV_MODEL_ID@);
    env_values_are_trimmed(env, crate::env::ENV_MODEL_NAME@);
    env_values_are_trimmed(env, crate::env::ENV_MODEL_DISPLAY_NAME@);
    env_values_are_trimmed(env, ENV_MODEL_BASE_URL@);
    env_values_are_trimmed(env, ENV_MODEL_API_KEY@);
    env_values_are_trimmed(env, ENV_MODEL_ENV_KEY@);
    env_values_are_trimmed(env, crate::env::ENV_MODEL_API_BACKEND@);
    env_values_are_trimmed(env, crate::env::ENV_MODEL_AUTH_SCHEME@);
    env_values_are_trimmed(env, crate::env::ENV_MODEL_TEMPERATURE@);
    env_values_are_trimmed(env, crate::env::ENV_MODEL_TOP_P@);
    env_values_are_trimmed(env, crate::env::ENV_MODEL_AGENT_TYPE@);
}

/// `GROK_MODEL_ID`, when set, is the catalog key, whatever `GROK_DEFAULT_MODEL`
/// holds.
pub proof fn model_id_takes_precedence(env: Map<Seq<char>, Seq<char>>, default_value: Seq<char>)
    requires
        env_value(env, ENV_MODEL_ID@) is Some,
    ensures
        env_model_id(env) == env_value(env, ENV_MODEL_ID@),
        env_model_id(env.insert(ENV_DEFAULT_MODEL@, default_value)) == env_model_id(env),
{
    reveal_strlit("GROK_DEFAULT_MODEL");
    reveal_strlit("GROK_MODEL_ID");
    assert(ENV_DEFAULT_MODEL@.len() != ENV_MODEL_ID@.len());
    let env2 = env.insert(ENV_DEFAULT_MODEL@, default_value);
    assert(env2.contains_key(ENV_MODEL_ID@) == env.contains_key(ENV_MODEL_ID@));
    assert(env_value(env2, ENV_MODEL_ID@) == env_value(env, ENV_MODEL_ID@));
}

/// Without `GROK_MODEL_ID`, the default model becomes the catalog key when a
/// base URL, an API key or a key variable is set, and nothing does otherwise.
pub proof fn default_model_promotion(env: Map<Seq<char>, Seq<char>>)
    requires
        env_value(env, ENV_MODEL_ID@) is None,
    ensures
        env_model_id(env) == (if env_value(env, ENV_MODEL_BASE_URL@) is Some || env_value(
            env,
            ENV_MODEL_API_KEY@,
        ) is Some || env_value(env, ENV_MODEL_ENV_KEY@) is Some {
            env_value(env, ENV_DEFAULT_MODEL@)
        } else {
            None
        }),
{
}

/// The catalog key, when there is one, is a trimmed, non-empty value.
pub proof fn model_id_is_trimmed(env: Map<Seq<char>, Seq<char>>)
    ensures
        is_trimmed_value(env_model_id(env)),
{
    env_values_are_trimmed(env, ENV_MODEL_ID@);
    env_values_are_trimmed(env, ENV_DEFAULT_MODEL@);
}

/// Every character of `raw` is whitespace.
pub open spec fn all_whitespace(raw: Seq<char>) -> bool {
    forall|k: int| 0 <= k < raw.len() ==> is_unicode_whitespace(#[trigger] raw[k])
}

/// `t` is `raw` with its surrounding whitespace cut off: a stretch of `raw`
/// that begins and ends with a non-whitespace character and has only
/// whitespace before and after it.
pub open spec fn is_trimmed_core(t: Seq<char>, raw: Seq<char>) -> bool {
    exists|i: int, j: int|
        #![trigger raw.subrange(i, j)]
        0 <= i < j <= raw.len() && t == raw.subrange(i, j) && (forall|k: int|
            0 <= k < i ==> is_unicode_whitespace(#[trigger] raw[k])) && (forall|k: int|
            j <= k < raw.len() ==> is_unicode_whitespace(#[trigger] raw[k]))
            && !is_unicode_whitespace(raw[i]) && !is_unicode_whitespace(raw[j - 1])
}

/// `o` is what variable `name` holds in `env`: absent exactly when the
/// variable is unset or blank, else its text with surrounding whitespace cut off.
pub open spec fn reads_variable(o: Option<Seq<char>>, env: Map<Seq<char>, Seq<char>>, name: Seq<char>) -> bool {
    match o {
        None => !env.contains_key(name) || all_whitespace(env[name]),
        Some(t) => env.contains_key(name) && is_trimmed_core(t, env[name]),
    }
}

/// `t` is a decimal numeral (an optional `+`, then ASCII digits) worth `n`.
pub open spec fn is_numeral_of(t: Seq<char>, n: nat) -> bool {
    let d = if t.len() > 0 && t[0] == '+' {
        t.drop_first()
    } else {
        t
    };
    d.len() > 0 && all_ascii_digits(d) && decimal_value(d) == n
}

/// `o` is the number that text `value` states, when it is a numeral no larger
/// than `max`; absent otherwise.
pub open spec fn reads_number(o: Option<nat>, value: Option<Seq<char>>, max: nat) -> bool {
    &&& (o matches Some(v) ==> (v <= max && (value matches Some(t) && is_numeral_of(t, v))))
    &&& forall|n: nat|
        (value is Some && #[trigger] is_numeral_of(value.unwrap(), n) && n <= max) ==> o == Some(n)
}

/// A `u32` setting as a number.
pub open spec fn u32_number(o: Option<u32>) -> Option<nat> {
    match o {
        Some(v) => Some(v as nat),
        None => None,
    }
}

/// A `u64` setting as a number.
pub open spec fn u64_number(o: Option<u64>) -> Option<nat> {
    match o {
        Some(v) => Some(v as nat),
        None => None,
    }
}

/// `o` is the flag that text `value` states: `true`, `1` or `yes` for true,
/// `false`, `0` or `no` for false, in any ASCII case; absent otherwise.
pub open spec fn reads_flag(o: Option<bool>, value: Option<Seq<char>>) -> bool {
    let l = match value {
        Some(t) => Some(ascii_lowercase_chars(t)),
        None => None,
    };
    &&& (o == Some(true)) <==> (l == Some(seq!['t', 'r', 'u', 'e']) || l == Some(seq!['1']) || l
        == Some(seq!['y', 'e', 's']))
    &&& (o == Some(false)) <==> (l == Some(seq!['f', 'a', 'l', 's', 'e']) || l == Some(seq!['0'])
        || l == Some(seq!['n', 'o']))
}

/// `b` is the backend that text `value` names: `chat_completions`,
/// `responses` or `messages`; absent for any other text.
pub open spec fn names_backend(value: Option<Seq<char>>, b: Option<ApiBackend>) -> bool {
    &&& (b == Some(ApiBackend::ChatCompletions)) <==> (value == Some("chat_completions"@))
    &&& (b == Some(ApiBackend::Responses)) <==> (value == Some("responses"@))
    &&& (b == Some(ApiBackend::Messages)) <==> (value == Some("messages"@))
}

/// No text is both a true-flag name and a false-flag name.
proof fn lemma_flag_names_distinct()
    ensures
        seq!['t', 'r', 'u', 'e'] != seq!['f', 'a', 'l', 's', 'e'],
        seq!['t', 'r', 'u', 'e'] != seq!['0'],
        seq!['t', 'r', 'u', 'e'] != seq!['n', 'o'],
        seq!['1'] != seq!['f', 'a', 'l', 's', 'e'],
        seq!['1'] != seq!['0'],
        seq!['1'] != seq!['n', 'o'],
        seq!['y', 'e', 's'] != seq!['f', 'a', 'l', 's', 'e'],
        seq!['y', 'e', 's'] != seq!['0'],
        seq!['y', 'e', 's'] != seq!['n', 'o'],
{
    assert(seq!['t', 'r', 'u', 'e'].len() == 4);
    assert(seq!['f', 'a', 'l', 's', 'e'].len() == 5);
    assert(seq!['y', 'e', 's'].len() == 3);
    assert(seq!['n', 'o'].len() == 2);
    assert(seq!['0'].len() == 1);
    assert(seq!['1'][0] != seq!['0'][0]);
}

/// The trimmed value of a text is its whitespace-free core, and there is no
/// value exactly when the text is all whitespace.
pub proof fn nonblank_is_trimmed_core(s: Seq<char>)
    ensures
        nonblank(s) is None <==> all_whitespace(s),
        nonblank(s) matches Some(t) ==> is_trimmed_core(t, s),
{
    let u = trim_start_chars(s);
    let t = trim_end_chars(u);
    lemma_trim_start_shape(s);
    lemma_trim_end_shape(u);
    let a = s.len() - u.len();
    if t.len() > 0 {
        let j = a + t.len();
        assert(t =~= s.subrange(a, j));
        assert(t[0] == u[0]);
        assert(s[a] == u[0]);
        assert(s[j - 1] == t.last());
        assert forall|k: int| j <= k < s.len() implies is_unicode_whitespace(#[trigger] s[k]) by {
            assert(s[k] == u[k - a]);
        }
        assert(is_trimmed_core(t, s));
        assert(!is_unicode_whitespace(s[a]));
    } else {
        assert forall|k: int| 0 <= k < s.len() implies is_unicode_whitespace(#[trigger] s[k]) by {
            if k >= a {
                assert(s[k] == u[k - a]);
            }
        }
    }
    if all_whitespace(s) {
        lemma_trim_all_whitespace(s);
    }
}

/// What a variable contributes is read from that variable alone: nothing when
/// it is unset or blank, else its text with surrounding whitespace cut off.
pub proof fn env_value_reads_its_variable(env: Map<Seq<char>, Seq<char>>, name: Seq<char>)
    ensures
        reads_variable(env_value(env, name), env, name),
{
    if env.contains_key(name) {
        nonblank_is_trimmed_core(env[name]);
    }
}

/// Two environments that agree on variable `name` give it the same value,
/// whatever the other variables hold.
pub proof fn env_value_is_local(
    env1: Map<Seq<char>, Seq<char>>,
    env2: Map<Seq<char>, Seq<char>>,
    name: Seq<char>,
)
    requires
        env1.contains_key(name) == env2.contains_key(name),
        env1.contains_key(name) ==> env1[name] == env2[name],
    ensures
        env_value(env1, name) == env_value(env2, name),
{
}

/// A numeral no larger than `max` parses to its value, and whatever parses is
/// such a numeral.
pub proof fn numerals_parse_to_their_value(t: Seq<char>, max: nat)
    ensures
        parse_unsigned(t, max) matches Some(v) ==> v <= max && is_numeral_of(t, v),
        forall|n: nat| #[trigger] is_numeral_of(t, n) && n <= max ==> parse_unsigned(t, max) == Some(n),
{
}

/// Appending a digit to a numeral multiplies its value by ten and adds the
/// digit; leading zeros do not change it.
pub proof fn decimal_digits_positional(s: Seq<char>, c: char)
    requires
        is_ascii_digit(c),
    ensures
        decimal_value(s.push(c)) == decimal_value(s) * 10 + digit_value(c),
        0 <= digit_value(c) <= 9,
        all_ascii_digits(s) ==> decimal_value(seq!['0'] + s) == decimal_value(s),
{
    assert(s.push(c).drop_last() =~= s);
    if all_ascii_digits(s) {
        lemma_leading_zero(s);
    }
}

proof fn lemma_leading_zero(s: Seq<char>)
    requires
        all_ascii_digits(s),
    ensures
        decimal_value(seq!['0'] + s) == decimal_value(s),
    decreases s.len(),
{
    if s.len() == 0 {
        assert(seq!['0'] + s =~= seq!['0']);
        assert(seq!['0'].drop_last() =~= Seq::<char>::empty());
        assert(seq!['0'].last() == '0');
        assert(decimal_value(Seq::<char>::empty()) == 0);
        assert(decimal_value(seq!['0']) == 0);
    } else {
        let p = s.drop_last();
        assert(all_ascii_digits(p)) by {
            assert forall|i: int| 0 <= i < p.len() implies is_ascii_digit(#[trigger] p[i]) by {
                assert(p[i] == s[i]);
            }
        }
        lemma_leading_zero(p);
        assert((seq!['0'] + s).drop_last() =~= seq!['0'] + p);
        assert((seq!['0'] + s).last() == s.last());
        assert(decimal_value(seq!['0'] + s) == decimal_value(seq!['0'] + p) * 10 + digit_value(s.last()));
    }
}

/// The catalog key of a definition: its model ID when set; otherwise the
/// default model, but only when a base URL, API key or key variable is set.
pub proof fn definition_key_resolution(def: EnvModelDefinition, default_model: Option<Seq<char>>)
    ensures
        def.model_id is Some ==> definition_model_id(def, default_model) == Some(def.model_id.unwrap()@),
        (def.model_id is None && def.base_url is None && def.api_key is None && def.env_key is None)
            ==> definition_model_id(def, default_model) is None,
        (def.model_id is None && (def.base_url is Some || def.api_key is Some || def.env_key is Some))
            ==> definition_model_id(def, default_model) == default_model,
{
}

/// The backend names: each of the three names its backend, and no other
/// text names one.
pub proof fn backend_names(s: Seq<char>)
    ensures
        names_backend(Some(s), api_backend_of(s)),
{
    reveal_strlit("chat_completions");
    reveal_strlit("responses");
    reveal_strlit("messages");
    assert("chat_completions"@ != "responses"@ && "chat_completions"@ != "messages"@ && "responses"@
        != "messages"@) by {
        assert("chat_completions"@.len() != "responses"@.len());
        assert("chat_completions"@.len() != "messages"@.len());
        assert("responses"@.len() != "messages"@.len());
    }
}

/// Each field of a definition read from an environment comes from its own
/// variable: strings trimmed (absent when unset or blank), numbers and flags
/// as their text states them, headers as the JSON object states them.
pub proof fn definition_reads_its_variables(def: EnvModelDefinition, env: Map<Seq<char>, Seq<char>>)
    requires
        is_definition_of(def, env),
    ensures
        reads_variable(def.model_id.deep_view(), env, ENV_MODEL_ID@),
        reads_variable(def.model_name.deep_view(), env, ENV_MODEL_NAME@),
        reads_variable(def.display_name.deep_view(), env, ENV_MODEL_DISPLAY_NAME@),
        reads_variable(def.base_url.deep_view(), env, ENV_MODEL_BASE_URL@),
        reads_variable(def.api_key.deep_view(), env, ENV_MODEL_API_KEY@),
        reads_variable(def.env_key.deep_view(), env, ENV_MODEL_ENV_KEY@),
        reads_variable(def.api_backend.deep_view(), env, ENV_MODEL_API_BACKEND@),
        reads_variable(def.auth_scheme.deep_view(), env, ENV_MODEL_AUTH_SCHEME@),
        reads_variable(def.temperature.deep_view(), env, ENV_MODEL_TEMPERATURE@),
        reads_variable(def.top_p.deep_view(), env, ENV_MODEL_TOP_P@),
        reads_variable(def.agent_type.deep_view(), env, ENV_MODEL_AGENT_TYPE@),
        reads_number(u64_number(def.context_window), env_value(env, ENV_MODEL_CONTEXT_WINDOW@), u64::MAX as nat),
        reads_number(u32_number(def.max_tokens), env_value(env, ENV_MODEL_MAX_TOKENS@), u32::MAX as nat),
        reads_number(u32_number(def.max_retries), env_value(env, ENV_MODEL_MAX_RETRIES@), u32::MAX as nat),
        reads_flag(def.stream_tool_calls, env_value(env, ENV_MODEL_STREAM_TOOL_CALLS@)),
        def.extra_headers.deep_view() matches Some(h) ==> (h.len() > 0 && keys_distinct(h) && (env_value(
            env,
            ENV_MODEL_EXTRA_HEADERS@,
        ) matches Some(t) && json_string_map(t) == Some(pairs_map(h)))),
{
    env_value_reads_its_variable(env, ENV_MODEL_ID@);
    env_value_reads_its_variable(env, ENV_MODEL_NAME@);
    env_value_reads_its_variable(env, ENV_MODEL_DISPLAY_NAME@);
    env_value_reads_its_variable(env, ENV_MODEL_BASE_URL@);
    env_value_reads_its_variable(env, ENV_MODEL_API_KEY@);
    env_value_reads_its_variable(env, ENV_MODEL_ENV_KEY@);
    env_value_reads_its_variable(env, ENV_MODEL_API_BACKEND@);
    env_value_reads_its_variable(env, ENV_MODEL_AUTH_SCHEME@);
    env_value_reads_its_variable(env, ENV_MODEL_TEMPERATURE@);
    env_value_reads_its_variable(env, ENV_MODEL_TOP_P@);
    env_value_reads_its_variable(env, ENV_MODEL_AGENT_TYPE@);
    lemma_flag_names_distinct();
    if def.extra_headers.deep_view() is Some {
        let h = def.extra_headers.deep_view().unwrap();
        if h.len() == 0 {
            assert(pairs_map(h) == Map::<Seq<char>, Seq<char>>::empty());
        }
    }
}

/// The override a definition yields carries the definition's settings
/// unchanged, names the backend its text names, routes by the model name (else
/// the catalog key), shows the display name (else the model name, else the
/// key), and is visible and supported in the API.
pub proof fn override_carries_definition(key: Seq<char>, o: ConfigModelOverride, def: EnvModelDefinition)
    requires
        is_override_of(key, o, def),
    ensures
        o.base_url == def.base_url,
        o.api_key == def.api_key,
        o.temperature == def.temperature,
        o.top_p == def.top_p,
        o.agent_type == def.agent_type,
        o.context_window == def.context_window,
        o.max_completion_tokens == def.max_tokens,
        o.max_retries == def.max_retries,
        o.stream_tool_calls == def.stream_tool_calls,
        names_backend(def.api_backend.deep_view(), o.api_backend),
        o.model.deep_view() matches Some(m) && m == match def.model_name.deep_view() {
            Some(n) => n,
            None => key,
        },
        o.name.deep_view() matches Some(d) && d == match def.display_name.deep_view() {
            Some(n) => n,
            None => match def.model_name.deep_view() {
                Some(n) => n,
                None => key,
            },
        },
        def.env_key is Some <==> o.env_key is Some,
        o.env_key matches Some(ek) ==> ek.names.deep_view() == seq![def.env_key.unwrap()@],
        o.hidden == Some(false),
        o.supported_in_api == Some(true),
        def.extra_headers is None ==> header_entries(o.extra_headers).len() == 0,
        def.extra_headers matches Some(h) ==> (keys_distinct(h.deep_view()) ==> header_entries(
            o.extra_headers,
        ) == h.deep_view()),
{
    if def.extra_headers is Some {
        crate::headers::lemma_insert_all_distinct_if(def.extra_headers.unwrap().deep_view());
    }
    match def.api_backend {
        Some(v) => backend_names(v@),
        None => {},
    }
}

/// The override built from an environment reads every setting from its own
/// variable: the base URL, keys and sampling settings trimmed (absent exactly
/// when unset or blank), numbers, flags and the backend as their text states
/// them, whether or not `GROK_MODEL_ID` is set.
pub proof fn override_reads_its_variables(key: Seq<char>, o: ConfigModelOverride, env: Map<Seq<char>, Seq<char>>)
    requires
        is_env_override(key, o, env),
    ensures
        reads_variable(o.base_url.deep_view(), env, ENV_MODEL_BASE_URL@),
        reads_variable(o.api_key.deep_view(), env, ENV_MODEL_API_KEY@),
        reads_variable(o.temperature.deep_view(), env, ENV_MODEL_TEMPERATURE@),
        reads_variable(o.top_p.deep_view(), env, ENV_MODEL_TOP_P@),
        reads_variable(o.agent_type.deep_view(), env, ENV_MODEL_AGENT_TYPE@),
        reads_number(u64_number(o.context_window), env_value(env, ENV_MODEL_CONTEXT_WINDOW@), u64::MAX as nat),
        reads_number(u32_number(o.max_completion_tokens), env_value(env, ENV_MODEL_MAX_TOKENS@), u32::MAX as nat),
        reads_number(u32_number(o.max_retries), env_value(env, ENV_MODEL_MAX_RETRIES@), u32::MAX as nat),
        reads_flag(o.stream_tool_calls, env_value(env, ENV_MODEL_STREAM_TOOL_CALLS@)),
        names_backend(env_value(env, ENV_MODEL_API_BACKEND@), o.api_backend),
        o.env_key is None <==> env_value(env, ENV_MODEL_ENV_KEY@) is None,
        o.env_key matches Some(ek) ==> ek.names.deep_view().len() == 1 && reads_variable(
            Some(ek.names.deep_view()[0]),
            env,
            ENV_MODEL_ENV_KEY@,
        ),
        o.model.deep_view() matches Some(m) && m == match env_value(env, ENV_MODEL_NAME@) {
            Some(n) => n,
            None => key,
        },
        o.name.deep_view() matches Some(d) && d == match env_value(env, ENV_MODEL_DISPLAY_NAME@) {
            Some(n) => n,
            None => match env_value(env, ENV_MODEL_NAME@) {
                Some(n) => n,
                None => key,
            },
        },
        o.hidden == Some(false),
        o.supported_in_api == Some(true),
        keys_distinct(header_entries(o.extra_headers)),
        forall|m: Map<Seq<char>, Seq<char>>|
            env_value(env, ENV_MODEL_EXTRA_HEADERS@) is Some && #[trigger] json_string_map(
                env_value(env, ENV_MODEL_EXTRA_HEADERS@).unwrap(),
            ) == Some(m) ==> pairs_map(header_entries(o.extra_headers)) == m,
        (env_value(env, ENV_MODEL_EXTRA_HEADERS@) is None || json_string_map(
            env_value(env, ENV_MODEL_EXTRA_HEADERS@).unwrap(),
        ) is None) ==> header_entries(o.extra_headers).len() == 0,
{
    env_value_reads_its_variable(env, ENV_MODEL_BASE_URL@);
    env_value_reads_its_variable(env, ENV_MODEL_API_KEY@);
    env_value_reads_its_variable(env, ENV_MODEL_TEMPERATURE@);
    env_value_reads_its_variable(env, ENV_MODEL_TOP_P@);
    env_value_reads_its_variable(env, ENV_MODEL_AGENT_TYPE@);
    env_value_reads_its_variable(env, ENV_MODEL_ENV_KEY@);
    lemma_flag_names_distinct();
    match env_value(env, ENV_MODEL_API_BACKEND@) {
        Some(v) => backend_names(v),
        None => {},
    }
}

} // verus!
