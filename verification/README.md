# wait_free

Verified building blocks of a wait-free simulator for normalized lock-free
algorithms.

- `src/contention.rs`: the contention counter and its thresholds.
- `src/atomic.rs`: a register that pairs its value with a version number,
  with store, compare-and-set and versioned compare-and-set.
- `src/cas.rs`: the state of one compare-and-set descriptor and the trait an
  algorithm implements for its descriptors.
- `src/simulator.rs`: the normalized lock-free trait, the phases of an
  operation, the executor of descriptor lists, the helping step and the
  bounded fast path.
- `src/laws.rs`: proof functions for properties that relate several
  operations.
- `app/lib.rs`: the shared record slot and the unbounded helping loops that
  drive the verified helping step.
