//! Client side of the Source RCON protocol: packet types, the packet wire
//! format, a framing codec and the decisions of the authentication handshake.

pub mod srcds;
