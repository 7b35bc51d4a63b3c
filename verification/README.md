# wombo

Utilities for managing event loop threads: start a tokio-core event loop on a thread of its
own, cancel it (running a cancel hook on the loop first), and be told when it exits, with the
value its future resolved with or the value of the hook.

Layout:

- `src/` is the verified library (Verus).
  - `error.rs`: the error kinds and errors, their texts, and conversions.
  - `options.rs`: the options of a loop thread.
  - `interrupt.rs`: the decisions of an interruptible loop future, as a state machine, with
    the laws of the race between the loop's work and a cancel request.
  - `utils.rs`: the shared cells of an instance and the checks made on them.
  - `wombo.rs`: the `Wombo` handle, cancel and exit requests, and the steps of the loop thread.
  - `outside.rs`: the calls into `parking_lot`, `futures`, `uuid`, `thread-id` and std, each
    with the contract that the library relies on.
- `app/` is the plumbing that Verus does not take: the loop thread and reactor, the cancel
  hooks, and the future that feeds the interrupt state machine.
- `tests/` runs the library against the real outside crates.
