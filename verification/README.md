# arcflow_core

Core of a workflow runtime for LLM agents, written in Verus.

`src/` is the verified library:

- `retry/`: retry configuration and backoff (exact delay formula, validation),
  the decision taken after each failed attempt, timeout validation.
- `state/`: the append-only store of committed step outputs.
- `tracing/`: trace event kinds, the bounded per-run trace store, the emitter
  that numbers events, assembly of a structured trace from stored events, and
  the export and SEC-1 attribute checks.
- `tools/`: tool registration, input validation and the bookkeeping around a
  tool call.
- `providers/`: provider message types, the deterministic mock provider, the
  request layouts of the HTTP providers and the interpretation of their
  replies.
- `recovery/`: the state saved when a run fails and the plan for resuming it.
- `streaming/`: stream events and bounded collection of a provider stream.

`app/` holds what runs around the library: HTTP clients, async loops, threads,
Postgres storage, the process-wide trace store and OpenTelemetry export.
