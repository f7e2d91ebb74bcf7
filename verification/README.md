# rconcmd

A client for the Source RCON protocol, verified with Verus.

- `src/srcds/rcon/packet_type.rs`: packet types and their wire values.
- `src/srcds/rcon/packet.rs`: packets, the frame format, writing and reading
  frames, and the laws that tie the two together.
- `src/srcds/rcon/codec.rs`: numbering and framing packets on a byte buffer.
- `src/srcds/rcon/connection.rs`: the login handshake as a state machine.
- `src/srcds/rcon/console.rs`: which input lines are sent and which replies
  are shown.
- `src/srcds/rcon/wire.rs`: the trusted boundary to `byteorder` and
  `bytes::BytesMut`.
- `app/`: the console program (argument parsing, TCP, tokio runtime, stdin).
