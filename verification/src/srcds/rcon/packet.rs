//! RCON packets and their wire format.
//!
//! A frame is a little-endian `i32` size, then the packet's id and type as
//! little-endian `i32`s, the body, and two zero bytes (the body's terminator
//! and an empty string). The size counts everything after the size field.

use bytes::BytesMut;
use vstd::prelude::*;
use vstd::slice::slice_subrange;
use vstd::slice::slice_to_vec;

use super::packet_type::{
    decoded_type, lemma_value_of_from_value, wire_value, PacketDirection, PacketType,
};
use super::wire::{
    bytes_mut_contents, bytes_mut_extend_from_slice, bytes_mut_with_capacity, le_i32,
    le_i32_bytes, le_u32, le_u32_bytes, lemma_le_bytes_roundtrip, lemma_le_i32_roundtrip,
    lemma_le_u32_roundtrip, read_i32_le, write_i32_le, write_u32_le,
};

verus! {

/// An RCON packet. The body is a string without NUL bytes; the wire format
/// adds its terminator.
#[derive(Debug)]
pub struct Packet {
    /// Chosen by the client; the server answers a refused login with -1.
    pub id: i32,
    pub net_type: PacketType,
    pub body: Vec<u8>,
}

/// What a packet is, as plain values.
pub struct PacketView {
    pub id: i32,
    pub net_type: PacketType,
    pub body: Seq<u8>,
}

impl View for Packet {
    type V = PacketView;

    open spec fn view(&self) -> PacketView {
        PacketView { id: self.id, net_type: self.net_type, body: self.body@ }
    }
}

/// Why a frame could not be read.
#[derive(Debug, Clone, Copy, PartialEq, Eq, Structural)]
pub enum ReadError {
    /// The bytes end before the frame does, or the frame is too short to
    /// hold an id and a type.
    UnexpectedEof,
    /// The body holds a NUL byte, so it is no string.
    NulInBody,
}

/// No byte of the body is zero.
pub open spec fn no_nul(body: Seq<u8>) -> bool {
    forall|i: int| 0 <= i < body.len() ==> body[i] != 0
}

/// The size field of a packet with a body of this length: the id, the type,
/// the terminated body and the empty string, cut to 32 bits.
pub open spec fn size_field(body_len: nat) -> u32 {
    ((body_len + 10) % 0x1_0000_0000) as u32
}

/// The frame of a packet.
pub open spec fn serialized(p: PacketView) -> Seq<u8> {
    le_u32_bytes(size_field(p.body.len())) + le_i32_bytes(p.id) + le_i32_bytes(
        wire_value(p.net_type),
    ) + p.body + seq![0u8, 0u8]
}

/// The size field that opens the bytes (there must be four of them).
pub open spec fn frame_size(buf: Seq<u8>) -> int {
    le_i32(buf.subrange(0, 4)) as int
}

/// The bytes open with a size field on which the reader aborts: a negative
/// size, or a size of 8 or 9 when that many bytes follow (the body length
/// then falls below zero).
pub open spec fn fatal_size_field(buf: Seq<u8>) -> bool {
    &&& buf.len() >= 4
    &&& {
        let size = frame_size(buf);
        size < 0 || ((size == 8 || size == 9) && buf.len() >= 4 + size)
    }
}

/// What reading a frame from the start of the bytes gives: the packet and
/// the number of bytes the frame takes, or the reason it cannot be read.
/// The body is what lies between the type and the last two bytes of the
/// frame; those two bytes are not looked at.
pub open spec fn read_result(buf: Seq<u8>, direction: PacketDirection) -> Result<
    (PacketView, int),
    ReadError,
> {
    if buf.len() < 4 {
        Err(ReadError::UnexpectedEof)
    } else {
        let size = frame_size(buf);
        if size < 8 || buf.len() < 4 + size {
            Err(ReadError::UnexpectedEof)
        } else {
            let body = buf.subrange(12, size + 2);
            if !no_nul(body) {
                Err(ReadError::NulInBody)
            } else {
                Ok(
                    (
                        PacketView {
                            id: le_i32(buf.subrange(4, 8)),
                            net_type: decoded_type(le_i32(buf.subrange(8, 12)), direction),
                            body,
                        },
                        4 + size,
                    ),
                )
            }
        }
    }
}

impl Packet {
    /// A packet with the given body, or `None` when the body holds a NUL byte.
    pub fn new(id: i32, net_type: PacketType, body: &[u8]) -> (p: Option<Packet>)
        ensures
            p is None <==> !no_nul(body@),
            p matches Some(p) ==> p@ == (PacketView { id, net_type, body: body@ }),
    {
        let mut i: usize = 0;
        while i < body.len()
            invariant
                i <= body@.len(),
                forall|j: int| 0 <= j < i ==> body@[j] != 0,
            decreases body@.len() - i,
        {
            if body[i] == 0 {
                return None;
            }
            i = i + 1;
        }
        Some(Packet { id, net_type, body: slice_to_vec(body) })
    }

    /// The frame's size field: the length of everything after it.
    pub fn size(&self) -> (s: u32)
        ensures
            s == size_field(self.body@.len()),
    {
        let len: u64 = self.body.len() as u64;
        let low: u64 = len % 0x1_0000_0000;
        proof {
            vstd::arithmetic::div_mod::lemma_add_mod_noop(len as int, 10, 0x1_0000_0000);
        }
        ((low + 10) % 0x1_0000_0000) as u32
    }

    /// The frame of this packet.
    pub fn serialize(&self) -> (buff: BytesMut)
        requires
            self.body@.len() + 14 <= isize::MAX,
        ensures
            bytes_mut_contents(buff) == serialized(self@),
            bytes_mut_contents(buff).len() == self.body@.len() + 14,
            le_i32(bytes_mut_contents(buff).subrange(4, 8)) == self.id,
            le_i32(bytes_mut_contents(buff).subrange(8, 12)) == wire_value(self.net_type),
            bytes_mut_contents(buff).subrange(12, 12 + self.body@.len() as int) == self.body@,
    {
        proof {
            lemma_frame_layout(self@);
        }
        let packet_size = self.size();
        let mut buff = bytes_mut_with_capacity(packet_size as usize);
        let size_bytes = write_u32_le(packet_size);
        bytes_mut_extend_from_slice(&mut buff, &size_bytes);
        let id_bytes = write_i32_le(self.id);
        bytes_mut_extend_from_slice(&mut buff, &id_bytes);
        let type_bytes = write_i32_le(self.net_type.value());
        bytes_mut_extend_from_slice(&mut buff, &type_bytes);
        bytes_mut_extend_from_slice(&mut buff, self.body.as_slice());
        let terminators: [u8; 2] = [0u8, 0u8];
        bytes_mut_extend_from_slice(&mut buff, &terminators);
        proof {
            assert(terminators@ == seq![0u8, 0u8]);
        }
        buff
    }

    /// Whether the bytes open with a size field on which `read_from` would
    /// abort (see `fatal_size_field`); callers test this before reading.
    pub fn has_fatal_size_field(buf: &[u8]) -> (b: bool)
        ensures
            b == fatal_size_field(buf@),
    {
        if buf.len() < 4 {
            return false;
        }
        let size = read_i32_le(slice_subrange(buf, 0, 4));
        size < 0 || ((size == 8 || size == 9) && buf.len() - 4 >= size as usize)
    }

    /// Reads the frame at the start of the bytes, giving the packet and the
    /// number of bytes the frame takes.
    #[verifier::loop_isolation(false)]
    pub fn read_from(buf: &[u8], direction: PacketDirection) -> (res: Result<
        (Packet, usize),
        ReadError,
    >)
        requires
            !fatal_size_field(buf@),
        ensures
            match read_result(buf@, direction) {
                Ok((v, n)) => res matches Ok((p, m)) && p@ == v && m == n,
                Err(e) => res == Err::<(Packet, usize), ReadError>(e),
            },
            res matches Ok((p, m)) ==> {
                &&& 14 <= m <= buf@.len()
                &&& m == 4 + le_i32(buf@.subrange(0, 4))
                &&& p.id == le_i32(buf@.subrange(4, 8))
                &&& p.net_type == decoded_type(le_i32(buf@.subrange(8, 12)), direction)
                &&& p.body@ == buf@.subrange(12, m - 2)
            },
    {
        proof {
            lemma_read_fields(buf@, direction);
        }
        if buf.len() < 4 {
            return Err(ReadError::UnexpectedEof);
        }
        let size = read_i32_le(slice_subrange(buf, 0, 4));
        assert(frame_size(buf@) == size as int);
        if size < 8 {
            return Err(ReadError::UnexpectedEof);
        }
        let size = size as usize;
        if buf.len() - 4 < size {
            return Err(ReadError::UnexpectedEof);
        }
        let id = read_i32_le(slice_subrange(buf, 4, 8));
        let raw_type = read_i32_le(slice_subrange(buf, 8, 12));
        let net_type = PacketType::from_value(raw_type, direction);
        let body = slice_subrange(buf, 12, size + 2);
        assert(body@ == buf@.subrange(12, frame_size(buf@) + 2));
        let mut i: usize = 0;
        while i < body.len()
            invariant
                i <= body@.len(),
                forall|j: int| 0 <= j < i ==> body@[j] != 0,
            decreases body@.len() - i,
        {
            if body[i] == 0 {
                assert(!no_nul(body@));
                return Err(ReadError::NulInBody);
            }
            i = i + 1;
        }
        Ok((Packet { id, net_type, body: slice_to_vec(body) }, size + 4))
    }
}

/// The layout of a frame, for every packet: four bytes of size, then the
/// packet's own id, then its type's wire value, then its body byte for byte,
/// then two zero bytes.
pub proof fn lemma_frame_layout(p: PacketView)
    ensures
        serialized(p).len() == p.body.len() + 14,
        le_u32(serialized(p).subrange(0, 4)) == size_field(p.body.len()),
        le_i32(serialized(p).subrange(4, 8)) == p.id,
        le_i32(serialized(p).subrange(8, 12)) == wire_value(p.net_type),
        serialized(p).subrange(12, 12 + p.body.len() as int) == p.body,
        forall|i: int| 0 <= i < p.body.len() ==> #[trigger] serialized(p)[12 + i] == p.body[i],
        serialized(p)[12 + p.body.len() as int] == 0,
        serialized(p)[13 + p.body.len() as int] == 0,
{
    let s0 = le_u32_bytes(size_field(p.body.len()));
    let s1 = le_i32_bytes(p.id);
    let s2 = le_i32_bytes(wire_value(p.net_type));
    lemma_le_u32_roundtrip(size_field(p.body.len()));
    lemma_le_i32_roundtrip(p.id);
    lemma_le_i32_roundtrip(wire_value(p.net_type));
    let f = serialized(p);
    assert(f.subrange(0, 4) =~= s0);
    assert(f.subrange(4, 8) =~= s1);
    assert(f.subrange(8, 12) =~= s2);
    assert(f.subrange(12, 12 + p.body.len() as int) =~= p.body);
    assert forall|i: int| 0 <= i < p.body.len() implies #[trigger] f[12 + i] == p.body[i] by {
        assert(f.subrange(12, 12 + p.body.len() as int)[i] == f[12 + i]);
    }
}

/// What a successful read gives, for every input: the frame takes the
/// size field's count plus four bytes; the packet's id is the frame's id
/// field, its type the one the frame's type field stands for in the reading
/// direction, and its body the bytes between the type field and the frame's
/// last two bytes, in order and unchanged.
pub proof fn lemma_read_fields(buf: Seq<u8>, direction: PacketDirection)
    requires
        !fatal_size_field(buf),
    ensures
        read_result(buf, direction) matches Ok((v, n)) ==> {
            &&& 14 <= n <= buf.len()
            &&& n == 4 + le_i32(buf.subrange(0, 4))
            &&& v.id == le_i32(buf.subrange(4, 8))
            &&& v.net_type == decoded_type(le_i32(buf.subrange(8, 12)), direction)
            &&& v.body == buf.subrange(12, n - 2)
            &&& v.body.len() == n - 14
            &&& forall|i: int| 0 <= i < n - 14 ==> #[trigger] v.body[i] == buf[12 + i]
        },
{
    if read_result(buf, direction) is Ok {
        let (v, n) = read_result(buf, direction)->Ok_0;
        assert forall|i: int| 0 <= i < n - 14 implies #[trigger] v.body[i] == buf[12 + i] by {
            assert(v.body == buf.subrange(12, n - 2));
        }
    }
}

/// The size field counts the bytes of the frame that follow it, for every
/// body short enough that the count fits in 32 bits.
pub proof fn lemma_size_counts_frame(p: PacketView)
    requires
        p.body.len() + 10 < 0x1_0000_0000,
    ensures
        serialized(p).len() == 4 + size_field(p.body.len()),
{
    lemma_le_u32_roundtrip(size_field(p.body.len()));
    lemma_le_i32_roundtrip(p.id);
    lemma_le_i32_roundtrip(wire_value(p.net_type));
}

/// Reading the frame of a packet gives the packet back, whatever bytes
/// follow the frame: the same id and body, and the type that the type's wire
/// value stands for in the reading direction. The reader takes exactly the
/// frame. This holds for bodies without NUL bytes whose size field fits in
/// a positive `i32`.
pub proof fn lemma_read_serialized(p: PacketView, rest: Seq<u8>, direction: PacketDirection)
    requires
        no_nul(p.body),
        p.body.len() + 10 <= i32::MAX,
    ensures
        !fatal_size_field(serialized(p) + rest),
        read_result(serialized(p) + rest, direction) == Ok::<(PacketView, int), ReadError>(
            (
                PacketView {
                    id: p.id,
                    net_type: decoded_type(wire_value(p.net_type), direction),
                    body: p.body,
                },
                serialized(p).len() as int,
            ),
        ),
{
    let size = size_field(p.body.len());
    let s0 = le_u32_bytes(size);
    let s1 = le_i32_bytes(p.id);
    let s2 = le_i32_bytes(wire_value(p.net_type));
    lemma_le_u32_roundtrip(size);
    lemma_le_i32_roundtrip(p.id);
    lemma_le_i32_roundtrip(wire_value(p.net_type));
    let buf = serialized(p) + rest;
    assert(size as int == p.body.len() + 10);
    assert(buf.subrange(0, 4) == s0);
    assert(buf.subrange(4, 8) == s1);
    assert(buf.subrange(8, 12) == s2);
    assert(le_i32(s0) == size as i32) by {
        assert(le_i32(s0) == (size as i32));
    }
    assert(frame_size(buf) == size as int);
    assert(buf.subrange(12, size + 2) == p.body);
}

/// Writing back a packet that was read gives the frame it was read from,
/// except the frame's last two bytes, which the reader skips and the writer
/// sets to zero; this holds when the frame's raw type is one of the three the
/// protocol defines (0, 2 and 3), since any other reads as a response value.
pub proof fn lemma_serialize_read(buf: Seq<u8>, direction: PacketDirection)
    requires
        !fatal_size_field(buf),
        read_result(buf, direction) is Ok,
        ({
            let raw_type = le_i32(buf.subrange(8, 12));
            raw_type == 0 || raw_type == 2 || raw_type == 3
        }),
    ensures
        ({
            let (v, n) = read_result(buf, direction)->Ok_0;
            serialized(v) == buf.subrange(0, n - 2) + seq![0u8, 0u8]
        }),
{
    let (v, n) = read_result(buf, direction)->Ok_0;
    let size = frame_size(buf);
    lemma_le_bytes_roundtrip(buf.subrange(0, 4));
    lemma_le_bytes_roundtrip(buf.subrange(4, 8));
    lemma_le_bytes_roundtrip(buf.subrange(8, 12));
    lemma_value_of_from_value(le_i32(buf.subrange(8, 12)), direction);
    assert(10 <= size <= i32::MAX);
    assert(le_u32(buf.subrange(0, 4)) as int == size) by {
        let x = le_u32(buf.subrange(0, 4));
        assert((x as i32) >= 0 ==> (x as i32) as int == x as int) by (bit_vector);
    }
    assert(size_field(v.body.len()) as int == size);
    assert(serialized(v) =~= buf.subrange(0, n - 2) + seq![0u8, 0u8]);
}

} // verus!
