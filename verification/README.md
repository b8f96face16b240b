# robocup_gc

Robot-side client of the RoboCup SPL GameController protocol.

- `src/spl.rs`: protocol constants, the packet types, decoding of a game-state
  packet from its little-endian wire bytes and encoding of the status reply.
- `src/comm/udp.rs`: which datagrams are accepted (`recv_step`,
  `packet_is_for_team`) and the reply a robot sends (`status_reply`).
- `src/state/`: the tracked game state (`GCHandler::update`) and the reports
  of changed fields (`Notice`, `new_*`, `interrupt_*`).
- `app/main.rs`: the UDP socket loop around the library.
