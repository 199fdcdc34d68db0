# hub

The Rust side of a Flutter application, as a verified library (`src/`) and
the runtime around it (`app/`).

- `src/api.rs`: the payload types that cross between Dart and Rust, and the
  viewmodel that Dart reads. `read_viewmodel` stores the pending updates in
  arrival order and reads one address; its contract and the `law_*` proofs
  say that a read gives back the last write to that address.
- `src/bridge.rs`: per-thread readiness of the channel handles and what
  `update_viewmodel` / `update_view` send.
- `src/data_model.rs`, `src/sample_functions.rs`: the sample number store
  and the handlers that change it and publish it as a MessagePack record.
- `app/`: tokio tasks, thread-local and shared channels, the Dart-facing
  functions and the Mandelbrot task, which uses floating point and the
  workspace's own sample crate.
