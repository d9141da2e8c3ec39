# aw-gateway

The gateway gives users containers to work in: it brings a target's container
up, runs commands and launches in it, carries SSH sessions to it, and offers the
same operations over HTTP.

- `src/` is the library. It holds everything that is decided: which container
  may be used, what it is created with, how requests are read and answered, what
  a session does next, what is cleaned up. It takes what the host, the container
  engine and the network said as plain values. Every function states what it
  returns, and Verus proves it.
- `app/` is the edge. It reads files, runs processes, opens sockets and serves
  HTTP, hands the facts to the library and carries out its answers. The
  configuration, the templates and the container engine are reached through the
  traits `Gateway`, `Target`, `SessionWork` and `ContainerEngine`.
- `tests/` runs the library.

The laws that relate several functions stand beside them as public proof
functions. Calls into other crates go through a few small functions in
`src/text.rs`, `src/json.rs`, `src/random.rs`, `src/logging.rs`,
`src/gateway/host_socket_exposures.rs` and `src/gateway/http/request.rs`, whose
contracts say what is believed of those crates.
