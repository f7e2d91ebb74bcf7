use rconcmd::srcds::rcon::PacketDirection::{INCOMING, OUTCOMING};
use rconcmd::srcds::rcon::{Packet, PacketType, ReadError};

const OUTGOING_AUTH_PACKET: [u8; 21] = [
    0x11, 0x00, 0x00, 0x00, // Size
    0x00, 0x00, 0x00, 0x00, // id
    0x03, 0x00, 0x00, 0x00, // type
    0x70, 0x61, 0x73, 0x73, 0x77, 0x72, 0x64, 0x00, // command string (passwd in this case)
    0x00, // packet temination string
];

#[test]
fn test_size() {
    let mut packet = Packet {
        id: 0,
        net_type: PacketType::SERVERDATA_AUTH,
        body: b"".to_vec(),
    };

    assert_eq!(packet.size(), 10);

    packet.body = b"body".to_vec();
    assert_eq!(packet.size(), 14);
}

#[test]
fn test_serialize() {
    let packet = Packet {
        id: 0,
        net_type: PacketType::SERVERDATA_AUTH,
        body: b"passwrd".to_vec(),
    };

    assert_eq!(packet.serialize()[..], OUTGOING_AUTH_PACKET);
}

#[test]
fn test_read_from() {
    let (packet, _) = Packet::read_from(&OUTGOING_AUTH_PACKET, OUTCOMING).unwrap();

    assert_eq!(packet.id, 0);
    assert_eq!(packet.net_type, PacketType::SERVERDATA_AUTH);
    assert_eq!(packet.body, b"passwrd".to_vec());
}

#[test]
fn read_from_takes_exactly_the_frame() {
    let mut bytes = OUTGOING_AUTH_PACKET.to_vec();
    bytes.extend_from_slice(&[0xde, 0xad, 0xbe, 0xef, 0x01]);
    let (packet, used) = Packet::read_from(&bytes, OUTCOMING).unwrap();
    assert_eq!(used, 21);
    assert_eq!(packet.body, b"passwrd".to_vec());
}

#[test]
fn serialize_negative_id_and_response_type() {
    let packet = Packet {
        id: -1,
        net_type: PacketType::SERVERDATA_RESPONSE_VALUE,
        body: b"ok".to_vec(),
    };
    let bytes = packet.serialize();
    assert_eq!(
        &bytes[..],
        &[12, 0, 0, 0, 0xff, 0xff, 0xff, 0xff, 0, 0, 0, 0, b'o', b'k', 0, 0][..]
    );
    let (back, used) = Packet::read_from(&bytes, INCOMING).unwrap();
    assert_eq!(used, 16);
    assert_eq!(back.id, -1);
    assert_eq!(back.net_type, PacketType::SERVERDATA_RESPONSE_VALUE);
    assert_eq!(back.body, b"ok".to_vec());
}

#[test]
fn serialize_then_read_round_trip() {
    for body in [&b""[..], &b"status"[..], &[b'x'; 300][..]] {
        for (t, d) in [
            (PacketType::SERVERDATA_AUTH, OUTCOMING),
            (PacketType::SERVERDATA_EXECCOMMAND, OUTCOMING),
            (PacketType::SERVERDATA_AUTH_RESPONSE, INCOMING),
            (PacketType::SERVERDATA_RESPONSE_VALUE, INCOMING),
        ] {
            let packet = Packet { id: 0x1234_5678, net_type: t, body: body.to_vec() };
            let bytes = packet.serialize();
            assert_eq!(bytes.len(), packet.size() as usize + 4);
            let (back, used) = Packet::read_from(&bytes, d).unwrap();
            assert_eq!(used, bytes.len());
            assert_eq!(back.id, 0x1234_5678);
            assert_eq!(back.net_type, t);
            assert_eq!(back.body, body.to_vec());
        }
    }
}

#[test]
fn serialize_bodies_that_fill_the_buffer() {
    // Lengths at which the frame reaches the buffer's first capacity exactly.
    for n in 15..40 {
        let packet = Packet {
            id: 1,
            net_type: PacketType::SERVERDATA_EXECCOMMAND,
            body: vec![b'a'; n],
        };
        let bytes = packet.serialize();
        assert_eq!(bytes.len(), n + 14);
        assert_eq!(&bytes[bytes.len() - 2..], &[0, 0][..]);
    }
}

#[test]
fn read_from_short_input_is_eof() {
    assert_eq!(Packet::read_from(&[], INCOMING).unwrap_err(), ReadError::UnexpectedEof);
    assert_eq!(Packet::read_from(&[0x11, 0, 0], INCOMING).unwrap_err(), ReadError::UnexpectedEof);
    assert_eq!(
        Packet::read_from(&OUTGOING_AUTH_PACKET[..20], INCOMING).unwrap_err(),
        ReadError::UnexpectedEof
    );
}

#[test]
fn read_from_frame_too_small_for_header_is_eof() {
    assert_eq!(
        Packet::read_from(&[4, 0, 0, 0, 1, 2, 3, 4], INCOMING).unwrap_err(),
        ReadError::UnexpectedEof
    );
    assert_eq!(
        Packet::read_from(&[0, 0, 0, 0], INCOMING).unwrap_err(),
        ReadError::UnexpectedEof
    );
}

#[test]
fn read_from_nul_in_body() {
    let bytes = [12, 0, 0, 0, 0, 0, 0, 0, 0, 0, 0, 0, b'a', 0, 0, 0];
    assert_eq!(Packet::read_from(&bytes, INCOMING).unwrap_err(), ReadError::NulInBody);
}

#[test]
fn read_from_ignores_the_last_two_bytes() {
    let bytes = [12, 0, 0, 0, 5, 0, 0, 0, 7, 0, 0, 0, b'h', b'i', b'x', b'y'];
    let (packet, used) = Packet::read_from(&bytes, INCOMING).unwrap();
    assert_eq!(used, 16);
    assert_eq!(packet.id, 5);
    assert_eq!(packet.net_type, PacketType::SERVERDATA_RESPONSE_VALUE);
    assert_eq!(packet.body, b"hi".to_vec());
}

#[test]
fn fatal_size_fields() {
    assert!(Packet::has_fatal_size_field(&[0xff, 0xff, 0xff, 0xff]));
    assert!(Packet::has_fatal_size_field(&[8, 0, 0, 0, 0, 0, 0, 0, 0, 0, 0, 0]));
    assert!(Packet::has_fatal_size_field(&[9, 0, 0, 0, 0, 0, 0, 0, 0, 0, 0, 0, 0]));
    // Too few bytes behind a size of 8: the reader stops before the body.
    assert!(!Packet::has_fatal_size_field(&[8, 0, 0, 0, 0, 0]));
    assert!(!Packet::has_fatal_size_field(&OUTGOING_AUTH_PACKET));
    assert!(!Packet::has_fatal_size_field(&[0xff, 0xff]));
}

#[test]
fn new_refuses_nul() {
    assert!(Packet::new(0, PacketType::SERVERDATA_AUTH, b"a\0b").is_none());
    let p = Packet::new(7, PacketType::SERVERDATA_AUTH, b"secret").unwrap();
    assert_eq!(p.id, 7);
    assert_eq!(p.net_type, PacketType::SERVERDATA_AUTH);
    assert_eq!(p.body, b"secret".to_vec());
}
