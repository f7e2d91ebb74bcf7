use rconcmd::srcds::rcon::PacketDirection::{INCOMING, OUTCOMING};
use rconcmd::srcds::rcon::PacketType;
use rconcmd::srcds::rcon::PacketType::{
    SERVERDATA_AUTH, SERVERDATA_AUTH_RESPONSE, SERVERDATA_EXECCOMMAND, SERVERDATA_RESPONSE_VALUE,
};

#[test]
fn test_from_value() {
    assert_eq!(PacketType::from_value(3, OUTCOMING), SERVERDATA_AUTH);
    assert_eq!(
        PacketType::from_value(2, INCOMING),
        SERVERDATA_AUTH_RESPONSE
    );
    assert_eq!(PacketType::from_value(2, OUTCOMING), SERVERDATA_EXECCOMMAND);
    assert_eq!(
        PacketType::from_value(0, OUTCOMING),
        SERVERDATA_RESPONSE_VALUE
    );
}

#[test]
fn test_value() {
    assert_eq!(PacketType::SERVERDATA_AUTH.value(), 3);
    assert_eq!(PacketType::SERVERDATA_AUTH_RESPONSE.value(), 2);
    assert_eq!(PacketType::SERVERDATA_EXECCOMMAND.value(), 2);
    assert_eq!(PacketType::SERVERDATA_RESPONSE_VALUE.value(), 0);
}

#[test]
fn unknown_raw_types_read_as_response_value() {
    assert_eq!(PacketType::from_value(3, INCOMING), SERVERDATA_AUTH);
    assert_eq!(PacketType::from_value(0, INCOMING), SERVERDATA_RESPONSE_VALUE);
    assert_eq!(PacketType::from_value(1, INCOMING), SERVERDATA_RESPONSE_VALUE);
    assert_eq!(PacketType::from_value(-1, OUTCOMING), SERVERDATA_RESPONSE_VALUE);
    assert_eq!(PacketType::from_value(i32::MAX, INCOMING), SERVERDATA_RESPONSE_VALUE);
}

#[test]
fn value_reads_back_in_its_direction() {
    for (t, d) in [
        (SERVERDATA_AUTH, INCOMING),
        (SERVERDATA_AUTH, OUTCOMING),
        (SERVERDATA_AUTH_RESPONSE, INCOMING),
        (SERVERDATA_EXECCOMMAND, OUTCOMING),
        (SERVERDATA_RESPONSE_VALUE, INCOMING),
        (SERVERDATA_RESPONSE_VALUE, OUTCOMING),
    ] {
        assert_eq!(PacketType::from_value(t.value(), d), t);
    }
    // A command read as incoming comes back as an auth response.
    assert_eq!(
        PacketType::from_value(SERVERDATA_EXECCOMMAND.value(), INCOMING),
        SERVERDATA_AUTH_RESPONSE
    );
}
