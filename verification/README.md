# real_full

The planning and validation core of a full-model runtime with four expert
ranks, written in Verus. Everything in `src/` works on plain values and is
verified: device memory is an address and a byte count, and work for a device
or a network peer is returned as a list of steps.

- `src/coverage.rs`, `src/model.rs`: which tensor families a checkpoint holds.
- `src/execution_plan.rs`, `src/residual.rs`, `src/scheduler.rs`: the plan of a
  model and the dry runs over it.
- `src/tp4.rs`, `src/arena.rs`, `src/landing.rs`: the strict four-rank
  reduction, its buffers, the copies that fill them and what the copies leave.
- `src/sparse_block.rs`: sparse-layer geometries, weight names and tensors.
- `src/dspark/`: the drafter's device storage plan, its views, graphs, routes
  and launches.
- `src/execution/`: request shapes, chunks, waves, wavefronts, batches, live
  state, terminal sampling and reports.
- `tests/`: tests of the library.
- `app/`: what reads the environment, adds floating-point numbers, waits, and
  drives a runtime through the library's decisions.
