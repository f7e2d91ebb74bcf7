//! The decisions of the interactive console: which input lines become
//! commands and which incoming packets are shown.

use vstd::prelude::*;
use vstd::slice::slice_to_vec;

use super::packet::{no_nul, Packet, PacketView};
use super::packet_type::PacketType;

verus! {

/// The command packet for an input line, or `None` for an empty line, which
/// is not sent. The line must hold no NUL byte.
pub fn command_packet(input: &[u8]) -> (p: Option<Packet>)
    requires
        no_nul(input@),
    ensures
        p is None <==> input@.len() == 0,
        p matches Some(p) ==> p@ == (PacketView {
            id: 0,
            net_type: PacketType::SERVERDATA_EXECCOMMAND,
            body: input@,
        }),
{
    if input.len() == 0 {
        return None;
    }
    Some(
        Packet {
            id: 0,
            net_type: PacketType::SERVERDATA_EXECCOMMAND,
            body: slice_to_vec(input),
        },
    )
}

/// The text to show for an incoming packet: the body of a response value;
/// other packets show nothing.
pub fn shown_text(packet: &Packet) -> (text: Option<&[u8]>)
    ensures
        text is Some <==> packet.net_type == PacketType::SERVERDATA_RESPONSE_VALUE,
        text matches Some(t) ==> t@ == packet.body@,
{
    match packet.net_type {
        PacketType::SERVERDATA_RESPONSE_VALUE => Some(packet.body.as_slice()),
        _ => None,
    }
}

} // verus!
