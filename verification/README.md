# tunnel_client

The client of a reverse tunnel. It offers local services to a server: for each
service it keeps a control channel, proves that it knows the service's token, and
opens a data channel whenever the server asks for one.

- `src/` is the library: what the client says, when, and what it does with the
  answers, verified with Verus. Control channels, data channels, UDP forwarding
  and the client itself are state machines that take events and give actions.
  `src/outside.rs` holds what the proofs believe of other crates.
- `app/` performs the actions: sockets, timers and tasks.
- `tests/` runs the library.
