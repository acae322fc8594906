# xai-grok-models

Environment-variable driven model configuration, verified with Verus.

The library works on an `EnvVars` snapshot of the environment rather than on
the process environment itself:

- `src/text.rs`: Unicode whitespace trimming; blank values count as unset.
- `src/parse.rs`: unsigned decimal parsing with the grammar of `str::parse`,
  and boolean flags (`true`/`1`/`yes`, `false`/`0`/`no`, any ASCII case).
- `src/env.rs`: the snapshot, the variable names, and the tier-1 default models.
- `src/headers.rs`: the JSON object of extra headers (through `serde_json`) and
  the insertion-ordered `IndexMap` that carries them.
- `src/definition.rs`: the tier-2 custom model definition.
- `src/model_override.rs`: catalog-key resolution and the model override.
- `src/laws.rs`: properties that hold for every environment.

`app/` reads the process environment, caches the tier-1 defaults, parses the
floating-point settings (temperature, top-p) and logs through `tracing`.
