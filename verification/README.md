# aeth

An async event framework for a windowed application: publishers and
subscribers, level- and edge-triggered multiplexers, multiplexed future and
stream slots, a foreground/background task framework and a window
subsystem over winit.

- `src/` is the verified library (Verus): the subscriber registry, the
  readiness table, the keyed multiplexer, the slot state machines, the
  window registry, thread placement and task routing, and the decisions of
  the `main` and forwarding attributes. Calls into `indexed-bitmap` and
  `rand` go through a few trusted wrappers in `src/bitmap.rs`,
  `src/vecs.rs` and `src/framework.rs`.
- `app/` is the runtime around it: futures, wakers, channels, the tokio
  runtime, thread affinity and priority, the winit event loop and the code
  generation of the attributes.
- `tests/` exercises the library.
