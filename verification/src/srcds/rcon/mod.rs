//! The Source RCON protocol.

pub mod codec;
pub mod connection;
pub mod console;
pub mod packet;
pub mod packet_type;
pub mod wire;

pub use self::codec::Codec;
pub use self::connection::ConnectError;
pub use self::connection::Handshake;
pub use self::packet::Packet;
pub use self::packet::PacketView;
pub use self::packet::ReadError;
pub use self::packet_type::PacketDirection;
pub use self::packet_type::PacketType;
