# reloaded_code

Coding tools for LLM agents (file read/write/edit, glob and grep search,
shell commands, web fetch, todo lists, task delegation), the model catalog
they run against, custom provider configuration, the models.dev catalog sync,
and the bridge that decides how to build a model client for a provider.

## Layout

- `src/` — the library, verified with Verus. The tools' validation, error
  messages, result shaping, merge and lookup rules, sync steps and
  client-construction plans are functions with `requires`/`ensures`
  contracts; laws that span several functions are public proof functions.
  Tools and task executors supplied by users are traits: what the library
  promises about them holds as far as their implementations state it through
  the traits' spec relations. There is no permission ruleset or path
  allow-check here; callers decide which paths and commands to admit.
  - `core_tools/` — framework-agnostic tool operations.
  - `rig_tools/` — the standalone tool variants (with their own error type).
  - `serdesai/` — tool-result conversion, custom tools, provider bridge.
  - `models.rs` — the model catalog and its lookups.
  - `models_dev/` — models.dev entries, cache rows and sync steps.
  - `provider_config.rs` — provider configuration merge and validation.
  - `text.rs`, `utf8.rs` — character-level helpers.
- `app/` — the I/O layer: processes, files, HTTP, JSON/YAML/bitcode parsing,
  SerdesAI client construction and `rig_core` tool adapters. It hands the
  library plain values and carries out what the library decides.
- `tests/` — tests of the library on concrete values.
