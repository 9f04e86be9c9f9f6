# runory_agent

The decision core of the Runory agent runtime, written in Verus. Every
function in `src/` carries a contract that Verus proves; the public proof
functions (`lemma_*`) state the runtime's laws.

## Layout

- `src/state.rs`, `src/run.rs`, `src/recorder.rs` — the run state machine,
  the run record with its event sequence counter, and the controller's
  steps as recorded effects: opening, pausing, cancelling and failing a run,
  user turns, approval requests and decisions, tool and command results,
  and checkpoints, each keeping the run's log contiguous.
- `src/event.rs`, `src/metrics.rs`, `src/checkpoint.rs` — the event
  contract, run metrics and checkpoints.
- `src/decision.rs`, `src/approval.rs`, `src/gate.rs`, `src/controller.rs`,
  `src/command.rs` — command classification, approvals sealed to the exact
  action, authorization, and the per-round decisions of the reasoning loop.
- `src/reasoner_planning.rs`, `src/routing.rs`, `src/recovery.rs` — the
  local reasoner, planning hints from a goal, and what a restart recovers.
- `src/dispatch.rs`, `src/facts.rs`, `src/artifact.rs` — tool results,
  working facts and large tool outputs.
- `src/fleet_*.rs` — fleet runs: target binding, the stage graph and its
  digest, approval, the coordinator that leases work, fleet facts, and the
  stored row form.
- `src/repository.rs`, `src/persistence.rs` — in-memory stores and the
  durable form of runs, approvals and events.
- `app/` — JSON wire forms and UUID conversions around the library.
- `tests/` — tests of the library on concrete values.
