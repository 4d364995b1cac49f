# Disk Relocator

Moves large application data directories to an external disk and links them
back, with health checks, reconciliation of drifted metadata and recovery of
interrupted relocations at startup.

## Layout

- `src/` — the verified library (Verus). It holds the profile catalog and its
  validation, relocation planning, the prechecks, the migration and rollback
  state machines, health evaluation, reconciliation, startup recovery and the
  shaping of command results, with contracts in `requires`/`ensures`. The
  calls into std and outside crates go through small trusted wrappers whose
  contracts are documented where they stand. Where such a call's result is
  only named (path comparison and joining, JSON reading, base64), the
  function that makes the call is stated over that name, and a companion
  function that takes the call's result as an argument states the rest
  exactly (for example `health_step`, `log_item_from`, `health_event_from`).
- `app/` — the program around the library: the SQLite store, file-system and
  process observation, the drivers that run the state machines, the commands
  (JSON in, JSON out) and the background monitors.
- `tests/` — tests of the library's public functions.

The state machines (`workflow`, `rollback`) never touch the disk: each method
takes the outcome of the work its stage names and answers with the records to
write and the next stage. Their contracts state, for every transition, that a
run ends exactly when an outcome is given, that a failed run's last state
change is a failure state recording the reported error, that a successful
run ends healthy (or rolled back, for a rollback), and that each transition
finishes the step its stage waits for and leaves open only the next one.
From the last, `run_trace_is_complete` and `rollback_trace_is_complete` prove
that a whole run's log pairs every started step with its end entry.
