# agenticos

The verified core of the AgenticOS policy plane: the domain model, the agents' rules,
the event bus and trace store, the executors' decisions, the daemon's tick, the
benchmark bookkeeping and the console's reports, each function with a Verus contract.

Layout:

- `src/` — the library, verified by Verus.
  - `domain/` — actions, action graphs, observations, proposals, decisions, events,
    incidents, recommendations (with a small verified text map for provider details),
    plans, intents, metrics.
  - `agents/` — the action-proposal, process, security, recommendation-consumer, dummy
    and observing agents.
  - `executor/` — the dry-run, no-op and routing executors, and the Linux cgroup executor
    and rollback manager as step machines (they plan file-system work and finish from
    what the caller reports).
  - `bus/` — the in-memory event bus and trace store, with their read-after-write laws.
  - `daemon.rs`, `daemon_tick.rs` — the daemon's tick as a step machine: what each stage
    publishes, which decisions are executed, how executions are tallied, and how a
    failing component abandons the tick.
  - `pipeline.rs`, `experiment.rs`, `bench.rs` — one pass of the pipeline as the
    benchmarks count it, the runs of an experiment, replay verification, comparative
    runs, run totals, synthetic process explosions.
  - `scenarios.rs` — the escalation-chain scenario's incidents per tick and the status
    a live-mutation scenario records for each proposal.
  - `execute_session.rs` — a plan's proposals through policy, safety and the executor,
    one at a time, with the console's report.
  - `inspect.rs`, `table.rs`, `payload.rs`, `console.rs` — the rows the console shows
    from stored events, and its plain-text tables.
  - `ids.rs`, `clock.rs`, `text.rs`, `config.rs` — identifiers, timestamps, text helpers,
    configuration and the daemon's components by mode.
- `app/` — what the library cannot hold: the console over the SQLite trace store, the
  daemon and benchmark loops over their services, the cgroup file-system and process
  work, reading the TOML configuration, and the floating-point parts (memory agent,
  workload generator, timing statistics, renderings).
- `tests/` — tests of the library.

Floating-point values travel through the library as IEEE-754 bit patterns (`Real64`,
`Confidence`); fresh identifiers come from an explicit `IdSource`.
