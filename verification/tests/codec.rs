use bytes::BytesMut;
use rconcmd::srcds::rcon::{Codec, Packet, PacketType};

fn command(body: &[u8]) -> Packet {
    Packet { id: 99, net_type: PacketType::SERVERDATA_EXECCOMMAND, body: body.to_vec() }
}

#[test]
fn codec_numbers_packets_from_zero() {
    let mut codec = Codec::new();
    assert_eq!(codec.next_id(), 0);
    let mut buf = BytesMut::new();
    codec.encode(command(b"a"), &mut buf);
    codec.encode(command(b"bc"), &mut buf);
    assert_eq!(codec.next_id(), 2);
    assert_eq!(
        &buf[..],
        &[
            11, 0, 0, 0, 0, 0, 0, 0, 2, 0, 0, 0, b'a', 0, 0, //
            12, 0, 0, 0, 1, 0, 0, 0, 2, 0, 0, 0, b'b', b'c', 0, 0,
        ][..]
    );
}

#[test]
fn codec_decodes_frames_one_by_one() {
    let mut writer = Codec::new();
    let mut buf = BytesMut::new();
    writer.encode(command(b"first"), &mut buf);
    writer.encode(command(b"second"), &mut buf);
    // Half a frame more.
    buf.extend_from_slice(&[20, 0, 0, 0, 1]);

    let mut reader = Codec::new();
    let a = reader.decode(&mut buf).unwrap();
    assert_eq!(a.id, 0);
    assert_eq!(a.net_type, PacketType::SERVERDATA_AUTH_RESPONSE);
    assert_eq!(a.body, b"first".to_vec());
    let b = reader.decode(&mut buf).unwrap();
    assert_eq!(b.id, 1);
    assert_eq!(b.body, b"second".to_vec());
    assert!(reader.decode(&mut buf).is_none());
    assert_eq!(&buf[..], &[20, 0, 0, 0, 1][..]);
    assert_eq!(reader.next_id(), 0);
}

#[test]
fn codec_keeps_a_frame_with_nul_in_the_buffer() {
    let mut buf = BytesMut::new();
    buf.extend_from_slice(&[11, 0, 0, 0, 0, 0, 0, 0, 0, 0, 0, 0, 0, 0, 0]);
    let mut reader = Codec::new();
    assert!(reader.decode(&mut buf).is_none());
    assert_eq!(buf.len(), 15);
}

#[test]
fn codec_decodes_empty_buffer_to_nothing() {
    let mut buf = BytesMut::new();
    let mut reader = Codec::new();
    assert!(reader.decode(&mut buf).is_none());
}
