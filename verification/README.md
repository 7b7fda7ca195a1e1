# zfs_backend

A storage pool backend on top of ZFS. A pool is a container filesystem dataset, its replicas are
ZFS volumes below it, which are opened as aio bdevs, and snapshots and clones are those of ZFS.
Ownership and metadata are persisted as ZFS user properties in the `io.mayastor:` namespace.

## Layout

- `src/` is the library, verified with Verus.
  - `text/` works on strings: splitting, searching, decimal numbers and order.
  - `cli`, `property`, `dataset`, `options`, `error` and `ptpl` are what commands are made of and
    what their output is decoded into.
  - `engine` holds the values exchanged with the storage engine.
  - `ds_pool`, `zvol_replica` and `snapshot` are the pools, replicas and snapshots.
  - `operation` and `flow/` are the operations. Each is a state machine: a step asks for some work,
    such as running a command, and names the state in which the reply is awaited.
  - `laws/` states what holds across operations.
  - `outside` holds the calls of outside crates and of the standard library which are trusted.
- `app/` performs the work that the steps ask for: it runs `zfs` and `zpool`, asks the engine and
  keeps files.
- `tests/` runs the library on concrete values.
