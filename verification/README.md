# rust_tokio_example

A small TCP server built on Tokio, arranged as layered domains (controller, service,
repository, entity): a server socket that is bound to an address, an accept loop that
records accepted clients by address, a receiver that reads what a client sends, and a
registry of named workers whose functions are started on the runtime.

- `src/` is the library, verified with Verus: the name-keyed table (`name_table`), the
  worker registries and services (`thread_control`, `thread_manage`,
  `thread_manage_legacy`), the listener and client bookkeeping (`server_socket`,
  `client_socket_accept`), the receiver's buffer and read steps (`receiver`) and the
  environment lookups (`utility`). Each public function states its result in its
  contract; the `law_*` proof functions state, over the same spec functions that those
  contracts use, what a later call sees of an earlier one (a lookup after a store, a start
  after a save, a second start after a first).
- `app/` is the program: the shared instances (among them the one per-thread worker map
  that every repository handle shares), the sockets, the channel, the accept and receive
  loops and `main`. It hands the library plain values and acts on what the
  library decides.
- `tests/` exercises the library on concrete values.
