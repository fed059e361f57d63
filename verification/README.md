# hyperdriver

The parts of an HTTP stack that decide things, proved with Verus: a connection pool, the
stages of a connection attempt, the order in which addresses are tried, bodies, a server
that makes a service for each connection, PID files, and a registry of services.

- `src/` is the library. Nothing in it opens a socket, reads a file or waits. What has to
  wait is a state machine: it says what to do next, and takes in what came of it. What
  comes from another crate is declared where it is used, with the contract that the
  proofs rest on.
- `app/` is ordinary Rust around the library: sockets, files, tasks, timers, and the
  traits of tower and hyper.
- `tests/` runs the library with the crates that it is linked to.

The laws of the library are the public proof functions whose names begin with `law_`.
Those of the pool stand together in `src/client/pool/laws.rs`.
