# okc_hooks

The decision logic of a local daemon that watches an Obsidian vault and
uploads its changes: configuration validation, the retry and escalation
state machine, the sync-state and run-state transitions, the upload history
and IPC framing, status and health judgments, the update health wait and
rollback, uninstall planning, and the command-line parser and router.

Layout:

- `src/` — the library, written in Verus. The functions state their results
  in `ensures` over spec functions and views; the exceptions are the
  services whose state sits behind a lock (status, escalation) and the
  constructors that only store injected trait objects. Public `lemma_*` proof
  functions state the properties that span several calls (frame round
  trips, idempotent condition sets, escalation that fires at most once, the
  run-state laws, and so on).
  - `foundation/` — primitive types, paths, manifests, configuration model
    and its two-pass validation.
  - `sync_state/` — retry classification and backoff state; persisted sync
    state and its recovery.
  - `observability/` — status and health, critical-event escalation, the
    history file format, structured log lines and rotation plans.
  - `lifecycle/` — service specs and unit files, the update health wait and
    rollback, uninstall planning.
  - `ops_control/` — control protocol, IPC framing, request dispatch, run
    state, and the CLI.
- `app/` — the I/O around the library: files, sockets, OS service managers,
  CBOR and JSON encoding, the floating-point backoff schedule.
- `tests/` — scenario tests run against the compiled library.
