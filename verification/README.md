# pty_runtime_application

The application layer of a bounded PTY session runtime with a headless
terminal projection, written in Verus: every function in `src/` carries a
contract and is proved against it.

- `diagnostics` — operation counters, latency histograms with exact
  percentile bounds, reader allocation gauges and resource snapshots.
- `projection` — the projection's own rules as state and step functions:
  the admitted-work queue, the continuation journal with its eviction,
  applying a command and writing its reply, vetting a new projection,
  applying finished blocking jobs, starting reads, last-resort teardown, the
  checks on checkpoint-provider answers, the single in-flight blocking job,
  bounded source deletion, the ledger of unreclaimed storage, injected
  collaborators, result tickets and the lock-order tracker. Each step takes
  what the terminal engine, the process adapter, the domain policy and the
  quotas answered, and says exactly what follows. The coordinator that makes
  those calls and runs these steps is not part of this crate: it is built on
  the domain and runtime crates of the workspace.
- `wire`, `terminal`, `base64` — the browser protocol: incremental frame
  diffs, interned styles, history pages and input decoding.
- `server` — the demo server's socket and session-loop decisions.
- `wire_laws` and the `laws` functions next to each module — properties
  proved over the contracts (interning is stable, a repeated diff sends
  nothing, no keystroke is lost, failure loses no admitted command, and so on).

`tests/` exercises the library on concrete values. `app/` is the demo server
around it: the HTTP and WebSocket plumbing, the session thread that drives the
runtime session and terminal engine, and the serde copies of the wire types.
