//! Little-endian integers and the growable byte buffer that frames travel in.
//!
//! The integer codecs come from `byteorder`, the buffer is `bytes::BytesMut`.
//! Every function marked `external_body` here is trusted: its contract is
//! taken from the outside crate's documentation and source, not proved.

use byteorder::{ByteOrder, LittleEndian};
use bytes::BytesMut;
use vstd::prelude::*;

verus! {

/// The unsigned 32-bit value of four bytes in little-endian order.
pub open spec fn le_u32(b: Seq<u8>) -> u32 {
    (b[0] as u32) | ((b[1] as u32) << 8u32) | ((b[2] as u32) << 16u32) | ((b[3] as u32) << 24u32)
}

/// The signed 32-bit value of four bytes in little-endian two's complement.
pub open spec fn le_i32(b: Seq<u8>) -> i32 {
    le_u32(b) as i32
}

/// The four little-endian bytes of an unsigned 32-bit value.
pub open spec fn le_u32_bytes(n: u32) -> Seq<u8> {
    seq![
        (n & 0xffu32) as u8,
        ((n >> 8u32) & 0xffu32) as u8,
        ((n >> 16u32) & 0xffu32) as u8,
        ((n >> 24u32) & 0xffu32) as u8,
    ]
}

/// The four little-endian two's complement bytes of a signed 32-bit value.
pub open spec fn le_i32_bytes(n: i32) -> Seq<u8> {
    le_u32_bytes(n as u32)
}

/// Reading back the bytes of an unsigned value gives the value.
pub proof fn lemma_le_u32_roundtrip(n: u32)
    ensures
        le_u32_bytes(n).len() == 4,
        le_u32(le_u32_bytes(n)) == n,
{
    let b = le_u32_bytes(n);
    assert(b[0] == (n & 0xffu32) as u8);
    assert(b[1] == ((n >> 8u32) & 0xffu32) as u8);
    assert(b[2] == ((n >> 16u32) & 0xffu32) as u8);
    assert(b[3] == ((n >> 24u32) & 0xffu32) as u8);
    assert((((n & 0xffu32) as u8) as u32) | ((((n >> 8u32) & 0xffu32) as u8 as u32) << 8u32) | ((
    ((n >> 16u32) & 0xffu32) as u8 as u32) << 16u32) | ((((n >> 24u32) & 0xffu32) as u8 as u32)
        << 24u32) == n) by (bit_vector);
}

/// Reading back the bytes of a signed value gives the value.
pub proof fn lemma_le_i32_roundtrip(n: i32)
    ensures
        le_i32_bytes(n).len() == 4,
        le_i32(le_i32_bytes(n)) == n,
{
    lemma_le_u32_roundtrip(n as u32);
    assert(((n as u32) as i32) == n) by (bit_vector);
}

/// Writing back the value of four bytes gives the same bytes.
pub proof fn lemma_le_bytes_roundtrip(b: Seq<u8>)
    requires
        b.len() == 4,
    ensures
        le_u32_bytes(le_u32(b)) == b,
        le_i32_bytes(le_i32(b)) == b,
{
    let b0 = b[0];
    let b1 = b[1];
    let b2 = b[2];
    let b3 = b[3];
    let x = le_u32(b);
    assert(x == (b0 as u32) | ((b1 as u32) << 8u32) | ((b2 as u32) << 16u32) | ((b3 as u32)
        << 24u32));
    assert(((x & 0xffu32) as u8) == b0 && (((x >> 8u32) & 0xffu32) as u8) == b1 && (((x >> 16u32)
        & 0xffu32) as u8) == b2 && (((x >> 24u32) & 0xffu32) as u8) == b3) by (bit_vector)
        requires
            x == (b0 as u32) | ((b1 as u32) << 8u32) | ((b2 as u32) << 16u32) | ((b3 as u32)
                << 24u32),
    ;
    assert(le_u32_bytes(x) =~= b);
    assert(((x as i32) as u32) == x) by (bit_vector);
}

/// Trusted: `byteorder`'s `LittleEndian::read_i32`, which reads the first four
/// bytes of the slice as a little-endian two's complement integer (it panics
/// on fewer than four bytes, so four are required).
#[verifier::external_body]
pub(crate) fn read_i32_le(buf: &[u8]) -> (n: i32)
    requires
        buf@.len() == 4,
    ensures
        n == le_i32(buf@),
{
    LittleEndian::read_i32(buf)
}

/// Trusted: `byteorder`'s `LittleEndian::write_u32`, which stores the value as
/// four little-endian bytes; here into a fresh four-byte array.
#[verifier::external_body]
pub(crate) fn write_u32_le(n: u32) -> (b: [u8; 4])
    ensures
        b@ == le_u32_bytes(n),
{
    let mut b = [0u8; 4];
    LittleEndian::write_u32(&mut b, n);
    b
}

/// Trusted: `byteorder`'s `LittleEndian::write_i32`, which stores the value as
/// four little-endian two's complement bytes; here into a fresh array.
#[verifier::external_body]
pub(crate) fn write_i32_le(n: i32) -> (b: [u8; 4])
    ensures
        b@ == le_i32_bytes(n),
{
    let mut b = [0u8; 4];
    LittleEndian::write_i32(&mut b, n);
    b
}

#[verifier::external_type_specification]
#[verifier::external_body]
pub struct ExBytesMut(BytesMut);

/// The bytes that a `BytesMut` buffer holds, first to last.
pub uninterp spec fn bytes_mut_contents(b: BytesMut) -> Seq<u8>;

/// Trusted: `BytesMut::with_capacity`, which makes an empty buffer (it
/// panics, through `Vec::with_capacity`, on a capacity above `isize::MAX`).
/// Nothing is stated of the capacity that was actually reserved.
#[verifier::external_body]
pub(crate) fn bytes_mut_with_capacity(capacity: usize) -> (b: BytesMut)
    requires
        capacity <= isize::MAX,
    ensures
        bytes_mut_contents(b) == Seq::<u8>::empty(),
{
    BytesMut::with_capacity(capacity)
}

/// Trusted: `BytesMut::extend_from_slice`, which reserves room and then
/// appends the slice; a length beyond `isize::MAX` is left out, where
/// reserving fails.
#[verifier::external_body]
pub(crate) fn bytes_mut_extend_from_slice(b: &mut BytesMut, extend: &[u8])
    requires
        bytes_mut_contents(*old(b)).len() + extend@.len() <= isize::MAX,
    ensures
        bytes_mut_contents(*final(b)) == bytes_mut_contents(*old(b)) + extend@,
{
    b.extend_from_slice(extend)
}

/// Trusted: `BytesMut`'s `Deref` to `[u8]`, which views the held bytes.
#[verifier::external_body]
pub(crate) fn bytes_mut_as_slice(b: &BytesMut) -> (s: &[u8])
    ensures
        s@ == bytes_mut_contents(*b),
{
    &b[..]
}

/// Trusted: `BytesMut::split_to`, which leaves `[at, len)` in the buffer and
/// returns `[0, at)`; it panics when `at` is past the end.
#[verifier::external_body]
pub(crate) fn bytes_mut_split_to(b: &mut BytesMut, at: usize) -> (front: BytesMut)
    requires
        at <= bytes_mut_contents(*old(b)).len(),
    ensures
        bytes_mut_contents(front) == bytes_mut_contents(*old(b)).take(at as int),
        bytes_mut_contents(*final(b)) == bytes_mut_contents(*old(b)).skip(at as int),
{
    b.split_to(at)
}

} // verus!
