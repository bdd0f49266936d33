# hazptr

Hazard pointer based memory reclamation, with its bookkeeping verified by
Verus.

Threads announce the pointers they are using in globally visible *hazard
pointers*. Records that are no longer reachable are *retired* and reclaimed
in bulk, but only once no hazard pointer protects them.

## Layout

- `src/` is the verified library. Shared state is passed explicitly
  (`&mut Global`) to the thread-local state and to guards, so the library
  states and proves, per operation, what happens to every hazard pointer and
  every retired record:
  - `hazard/` — hazard pointer words and the growing list of them;
  - `queue.rs`, `strategy/`, `retired.rs` — where retired records wait:
    one global queue, or thread-local caches with a queue of abandoned ones;
  - `global.rs` — the global state and the scan of all protected addresses;
  - `local/` — the thread-local state: reserved hazard pointers, the
    operations count and the reclamation attempts;
  - `guard.rs` — guards and the steps of protecting a loaded pointer;
  - `v2/` — the alternative interface's configuration, hazard pointer and retire
    strategy types.
  Reclamation returns the records that may be dropped; the library never
  frees memory itself.
- `app/` is a process-wide default instance on top of the library: global
  and thread-local state, guards that load from atomics, and the dropping of
  reclaimed records.
- `tests/` exercises the library on concrete values.
