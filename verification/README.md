# chessnut_move

A verified protocol library for Chessnut Move chessboards.

- `src/protocol` — squares, positions, LED patterns, commands, decoded
  events and the decoders of position and command-response notifications,
  with the packed wire format in `src/protocol/wire`. Every command's bytes
  and every decoder's result or error are specified exactly.
- `src/transport` — notification routing and decoding, the startup and
  cleanup sequences of board sessions and the step decisions both sessions
  share, the blocking session (specified over the calls it makes on its
  transport and whether each succeeded, and, for a transport that keeps a
  history of its calls, over that history as well), the storage of the
  asynchronous session, and
  `transport::actor`, the bookkeeping of the concurrent board actor (active
  and waiting queries, lifecycle).
- `tests/` — tests of the library's behaviour on concrete values.
- `app/` — the runtime integrations that perform I/O: the async session's
  awaiting operations, the Tokio actor task and its handles, and the
  `btleplug` Bluetooth adapter.
