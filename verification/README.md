# faster-rs, verified core

A raw-bytes key-value store binding, split in two:

- `src/` is the library, verified with Verus: the store configuration, its
  builders and its validation (`builder`), the native configuration derived
  from it, the decisions made around each call into the native store (`store`:
  checkpoints, recovery, sessions, storage cleanup, refresh scheduling), the C
  strings that cross to the native store (`cstr`), the slot through which a
  read's result passes to its waiter (`read_slot`), errors (`error`), status
  codes (`status`), and the plain-value forms of fractions and time spans
  (`units`).
- `app/` holds what calls the native store itself: its C interface, the handle
  of an opened store, the store's operations, read waiters and the allocation
  hooks the native store calls, plus a reproducer of a compaction race.

Calls into the native store reach the library as closures; the library decides
whether to make them and what their results mean. The session refresh is the one
exception: the library answers whether a refresh is due, and `app/` refreshes
exactly when it answers yes.
