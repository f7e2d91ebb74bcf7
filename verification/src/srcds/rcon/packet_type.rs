use vstd::prelude::*;

verus! {

/// Which way a packet travels; the same wire value means different things
/// in the two directions.
#[derive(Debug, Clone, Copy, PartialEq, Eq, Structural)]
pub enum PacketDirection {
    /// From the server to this client.
    INCOMING,
    /// From this client to the server.
    OUTCOMING,
}

/// The kind of an RCON packet.
#[allow(non_camel_case_types)]
#[derive(Debug, Clone, Copy, PartialEq, Eq, Structural)]
pub enum PacketType {
    SERVERDATA_AUTH,
    SERVERDATA_AUTH_RESPONSE,
    SERVERDATA_EXECCOMMAND,
    SERVERDATA_RESPONSE_VALUE,
}

/// The packet type that a raw wire value stands for in the given direction.
pub open spec fn decoded_type(raw_type: i32, direction: PacketDirection) -> PacketType {
    if raw_type == 3 {
        PacketType::SERVERDATA_AUTH
    } else if raw_type == 2 {
        match direction {
            PacketDirection::INCOMING => PacketType::SERVERDATA_AUTH_RESPONSE,
            PacketDirection::OUTCOMING => PacketType::SERVERDATA_EXECCOMMAND,
        }
    } else {
        PacketType::SERVERDATA_RESPONSE_VALUE
    }
}

/// The wire value of a packet type.
pub open spec fn wire_value(net_type: PacketType) -> i32 {
    match net_type {
        PacketType::SERVERDATA_AUTH => 3,
        PacketType::SERVERDATA_AUTH_RESPONSE => 2,
        PacketType::SERVERDATA_EXECCOMMAND => 2,
        PacketType::SERVERDATA_RESPONSE_VALUE => 0,
    }
}

/// Whether a packet of this type may travel in this direction: the auth
/// response only comes from the server, a command only goes to it.
pub open spec fn travels(net_type: PacketType, direction: PacketDirection) -> bool {
    match net_type {
        PacketType::SERVERDATA_AUTH_RESPONSE => direction == PacketDirection::INCOMING,
        PacketType::SERVERDATA_EXECCOMMAND => direction == PacketDirection::OUTCOMING,
        _ => true,
    }
}

impl PacketType {
    /// Reads a raw wire value: 3 is an auth request, 2 an auth response
    /// (incoming) or a command (outgoing), anything else a response value.
    pub fn from_value(raw_type: i32, direction: PacketDirection) -> (t: PacketType)
        ensures
            t == decoded_type(raw_type, direction),
    {
        match raw_type {
            3 => PacketType::SERVERDATA_AUTH,
            2 => {
                match direction {
                    PacketDirection::INCOMING => PacketType::SERVERDATA_AUTH_RESPONSE,
                    PacketDirection::OUTCOMING => PacketType::SERVERDATA_EXECCOMMAND,
                }
            },
            _ => PacketType::SERVERDATA_RESPONSE_VALUE,
        }
    }

    /// The raw wire value of this type.
    pub fn value(&self) -> (v: i32)
        ensures
            v == wire_value(*self),
    {
        match *self {
            PacketType::SERVERDATA_AUTH => 3,
            PacketType::SERVERDATA_AUTH_RESPONSE => 2,
            PacketType::SERVERDATA_EXECCOMMAND => 2,
            PacketType::SERVERDATA_RESPONSE_VALUE => 0,
        }
    }
}

/// Reading back the wire value of a type gives the type again, in every
/// direction the type may travel in.
pub proof fn lemma_from_value_of_value(net_type: PacketType, direction: PacketDirection)
    requires
        travels(net_type, direction),
    ensures
        decoded_type(wire_value(net_type), direction) == net_type,
{
}

/// A raw wire value survives reading and writing back exactly when it is one
/// of the three values the protocol defines (0, 2 and 3).
pub proof fn lemma_value_of_from_value(raw_type: i32, direction: PacketDirection)
    ensures
        wire_value(decoded_type(raw_type, direction)) == raw_type <==> (raw_type == 0
            || raw_type == 2 || raw_type == 3),
{
}

} // verus!
