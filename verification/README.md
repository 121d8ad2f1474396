# External Workflow Stream waits and markers

A verified library that decides what happens to a Workflow Task while its Workflow is blocked on
external streams.

- `src/waits.rs`, `src/wait_model.rs`, `src/wait_set.rs`: one Run's complete wait set. Readiness
  notifications, park handshakes and wake Signals are accepted or discarded as stale, and both
  orderings of the park/readiness race are settled by the same transitions.
- `src/marker.rs`, `src/machine.rs`: the marker that records what a Workflow Task observed, and the
  machine that writes it once and reconciles it against History.
- `src/activation.rs`: which waits an activation resolves.
- `src/wait_laws.rs`, `src/machine_laws.rs`: what holds across operations, as proofs.
- `app/`: the standard `Error` and `Display` traits for what the library reports.

Each executable function's contract is stated over a mathematical model of its type
(`WaitSetModel`, `MarkerModel`, `MachineModel`). Marker details stand decoded; encoding and decoding
them is left to the caller at the wire.
