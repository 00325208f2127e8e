# voxverse

The core of VoxVerse (SpeakMate), a voice-first speaking-practice assistant,
written in Verus: the library's functions are stated with `requires` /
`ensures` contracts and proved against them.

## Layout

- `src/` — the verified library.
  - `fresh.rs` — fresh random ids and readings of the clock, of which
    nothing is stated; the functions that use them say what holds whatever
    they gave.
  - `text.rs` — string primitives with exact contracts (trim, split, case,
    decimal text) and their laws.
  - `error.rs`, `state.rs` — the error type, AI providers and their
    capabilities, the API configuration and the keychain-backed key lookup.
  - `providers/`, `services/` — provider descriptions, prompt construction,
    request addresses, the server-sent-event decoder, memory and
    relationship prompts, the tool router and the `save_memory` tool.
  - `commands/` — the validation rules and record shaping behind the
    desktop commands (profiles, sessions, characters, scenarios,
    corrections, statistics, diagnostics).
  - `repositories/` — the stored record types.
  - `protocol/` — the session event vocabulary.
  - `cli/` — the `speakmate` command line: argument parsing, audit-log
    filtering, the agent tool catalogue and request routing, and the
    report builders' decisions.
- `app/` — the `speakmate` program around the library: argument handling,
  SQLite access, the HTTP call to the model, the agent server's stdin/stdout
  loop and JSON output.
- `tests/` — tests of the library on concrete values.

Calls into `keyring`, `chrono`, `uuid` and a few std functions that Verus has no
specification for (`String::push`, `Path::parent`, `Path::join`) stand behind small trusted
wrappers in `src/`, each with a doc comment saying what its contract
claims of the outside function.
