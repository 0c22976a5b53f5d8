# two_phase_commit

A two-phase commit (2PC) between one coordinator and several participants that
talk over `std::sync::mpsc` channels, with the protocol's decisions verified by
Verus.

- `src/` is the verified library:
  - `protocol`: votes, messages and decisions;
  - `coordinator`: the coordinator as a state machine (wait for a vote, or
    decide), phase two (`decide`), and `coordinator_laws` with the proofs that it
    commits exactly on unanimous `Yes`, rolls back on a `No`, a timeout or a
    forced abort, and decides after at most one answer per participant;
  - `participant`: what a participant does with each message (vote by chance or
    by a forced behavior, sleep, write-ahead log, report), and
    `participant_laws` (the log is written before the action, one vote per
    `Prepare`, no `Prepared` record without a `Yes`);
  - `wal`: the log records and file names;
  - `channel`: `Outbox`, a sending end that records what its channel
    accepted, and `send_to_all`.
- `app/main.rs` runs the threads, the channels, the timeouts, the files and the
  console output: `simplified` (votes by chance), `failures` (three forced
  failure scenarios) and `logging` (with a write-ahead log per participant).
