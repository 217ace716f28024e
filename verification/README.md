# grok_build

The decision-making core of the Grok Build terminal agent, written in Verus
and proved against its contracts.

## Layout

- `src/` — the verified library.
  - `responses/` — the Responses API stream: event classification, the
    streamed-fragment store, reconciliation of the final snapshot with what
    the stream showed, and the step machine that decides the stop reason.
  - `chatgpt/` — ChatGPT sign-in decisions, the credential store's rules,
    token claims, request headers, the Codex compatibility policy, the
    subscription quota, and the Codex model seeds.
  - `plugin/` — plugin and marketplace rules: source names and URLs,
    install planning, updates, uninstall, and removal of a source from the
    TOML and JSON settings files.
  - `quota_state.rs` — the quota cache: admission, expiry, stale-result
    rejection and account tracking, with its laws.
  - `handoff.rs`, `handoff_flow.rs`, `slash.rs` — `/handoff` and `/purge`.
  - `wire.rs` — the framed protocol of the privileged `config.toml` writer.
  - `trace_context.rs` — W3C `traceparent` propagation with `fastrace`.
  - `credit.rs`, `voice.rs`, `mcp_promote.rs`, `memory.rs`, `paths.rs`,
    `text.rs` — usage chips, speech-to-text language selection, MCP tool
    promotion, product memory paths, Unix path and text operations.
  - `stubs/` — the facades of features compiled out of this build.
- `tests/` — tests run against the compiled library.
- `app/` — the `grok` command-line front end: files, processes and the
  terminal around the library.
