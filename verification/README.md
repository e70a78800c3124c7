# axum-convenience

Convenience building blocks for HTTP services on axum: a configurable
graceful shutdown listener (OS signals or a caller's future, with an optional
grace period), and an `App` handle to a running server that reports its local
address and can be killed or shut down gracefully.

Layout:

- `src/` is the verified library: the shutdown signal (`shutdown.rs`), the
  application builder and what it launches (`builder.rs`), the supervision of
  a server with a shutdown listener (`supervisor.rs`), the running
  application and what awaiting it answers (`app.rs`), the requests made of
  a running server (`command.rs`), the server error
  (`error.rs`), socket addresses (`addr.rs`) and the outside types it carries
  (`foreign.rs`).
- `app/` runs it on tokio and axum-server: binding, spawning, waiting for
  signals, and the futures that await a running application.
- `tests/` exercises the library, on real tasks and servers where it matters.
