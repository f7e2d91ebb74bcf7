//! Framing of packets on a byte stream.

use bytes::BytesMut;
use vstd::prelude::*;

use super::packet::{
    fatal_size_field, lemma_read_serialized, no_nul, read_result, serialized, Packet, PacketView,
    ReadError,
};
use super::packet_type::{decoded_type, wire_value, PacketDirection};
use super::wire::{
    le_i32, bytes_mut_as_slice, bytes_mut_contents, bytes_mut_extend_from_slice, bytes_mut_split_to,
};

verus! {

/// Frames outgoing packets, numbering them, and reads incoming ones.
#[derive(Debug)]
pub struct Codec {
    packet_id_increment: i32,
}

impl View for Codec {
    /// The id the next outgoing packet gets.
    type V = i32;

    closed spec fn view(&self) -> i32 {
        self.packet_id_increment
    }
}

impl Codec {
    /// A codec that numbers packets from 0.
    pub fn new() -> (c: Codec)
        ensures
            c@ == 0,
    {
        Codec { packet_id_increment: 0 }
    }

    /// The id the next outgoing packet gets.
    pub fn next_id(&self) -> (id: i32)
        ensures
            id == self@,
    {
        self.packet_id_increment
    }

    /// Appends the frame of the packet to the buffer, with the packet's id
    /// replaced by the next id, and counts that id off. The counter is not
    /// allowed to run past `i32::MAX`.
    pub fn encode(&mut self, packet: Packet, buf: &mut BytesMut)
        requires
            old(self)@ < i32::MAX,
            bytes_mut_contents(*old(buf)).len() + packet.body@.len() + 14 <= isize::MAX,
        ensures
            final(self)@ == old(self)@ + 1,
            bytes_mut_contents(*final(buf)) == bytes_mut_contents(*old(buf)) + serialized(
                PacketView { id: old(self)@, net_type: packet.net_type, body: packet.body@ },
            ),
            ({
                let before = bytes_mut_contents(*old(buf));
                let after = bytes_mut_contents(*final(buf));
                let frame = after.subrange(before.len() as int, after.len() as int);
                &&& after.subrange(0, before.len() as int) == before
                &&& frame.len() == packet.body@.len() + 14
                &&& le_i32(frame.subrange(4, 8)) == old(self)@
                &&& le_i32(frame.subrange(8, 12)) == wire_value(packet.net_type)
                &&& frame.subrange(12, 12 + packet.body@.len() as int) == packet.body@
            }),
    {
        let mut packet = packet;
        packet.id = self.packet_id_increment;
        self.packet_id_increment = self.packet_id_increment + 1;
        let packet_contents = packet.serialize();
        let ghost before = bytes_mut_contents(*buf);
        bytes_mut_extend_from_slice(buf, bytes_mut_as_slice(&packet_contents));
        proof {
            let after = bytes_mut_contents(*buf);
            assert(after.subrange(0, before.len() as int) =~= before);
            assert(after.subrange(before.len() as int, after.len() as int) =~= bytes_mut_contents(
                packet_contents,
            ));
        }
    }

    /// Takes the first incoming frame off the buffer. When no whole, valid
    /// frame opens the buffer, gives `None` and leaves the buffer as it is.
    pub fn decode(&mut self, buf: &mut BytesMut) -> (res: Option<Packet>)
        requires
            !fatal_size_field(bytes_mut_contents(*old(buf))),
        ensures
            final(self)@ == old(self)@,
            match read_result(bytes_mut_contents(*old(buf)), PacketDirection::INCOMING) {
                Ok((v, n)) => {
                    &&& res matches Some(p) && p@ == v
                    &&& bytes_mut_contents(*final(buf)) == bytes_mut_contents(*old(buf)).skip(n)
                },
                Err(_) => {
                    &&& res is None
                    &&& bytes_mut_contents(*final(buf)) == bytes_mut_contents(*old(buf))
                },
            },
            res matches Some(p) ==> {
                let before = bytes_mut_contents(*old(buf));
                let n = before.len() - bytes_mut_contents(*final(buf)).len();
                &&& 14 <= n
                &&& bytes_mut_contents(*final(buf)) == before.skip(n)
                &&& p.id == le_i32(before.subrange(4, 8))
                &&& p.net_type == decoded_type(
                    le_i32(before.subrange(8, 12)),
                    PacketDirection::INCOMING,
                )
                &&& p.body@ == before.subrange(12, n - 2)
            },
    {
        let read = Packet::read_from(bytes_mut_as_slice(buf), PacketDirection::INCOMING);
        match read {
            Ok((packet, size)) => {
                let _ = bytes_mut_split_to(buf, size);
                Some(packet)
            },
            Err(_) => None,
        }
    }
}

/// What one codec encodes, another decodes: a buffer that opens with the
/// frame of a packet numbered `id` decodes to a packet with that id and body
/// (its type as read incoming) and keeps exactly the bytes after the frame.
/// This holds for bodies without NUL bytes whose size fits in an `i32`.
pub proof fn lemma_decode_encoded(id: i32, p: PacketView, rest: Seq<u8>)
    requires
        no_nul(p.body),
        p.body.len() + 10 <= i32::MAX,
    ensures
        ({
            let frame = serialized(PacketView { id, net_type: p.net_type, body: p.body });
            &&& !fatal_size_field(frame + rest)
            &&& read_result(frame + rest, PacketDirection::INCOMING) == Ok::<
                (PacketView, int),
                ReadError,
            >(
                (
                    PacketView {
                        id,
                        net_type: decoded_type(wire_value(p.net_type), PacketDirection::INCOMING),
                        body: p.body,
                    },
                    frame.len() as int,
                ),
            )
            &&& (frame + rest).skip(frame.len() as int) == rest
        }),
{
    let q = PacketView { id, net_type: p.net_type, body: p.body };
    lemma_read_serialized(q, rest, PacketDirection::INCOMING);
    assert((serialized(q) + rest).skip(serialized(q).len() as int) =~= rest);
}

} // verus!
