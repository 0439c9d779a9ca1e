# broadcast_context

Broadcasting WebRTC tracks through actors: one peer's tracks are taken in by a broadcaster's actor
context and passed on to recipients.

- `src/` is the library, verified by Verus. It reads offers and writes responses, prepares peer
  connections, and holds the negotiations and the loops around a connection as state machines. Each
  machine says what is to be done next and goes on with what came of it. `laws.rs` states what holds
  of every run.
- `app/` is ordinary Rust around it: the actix traits, the tokio tasks and the calls that wait on a
  peer connection.
- `tests/` runs the library with the outside crates linked.
