use blucher_bridge::codec::{decode, encode, encode_decode, DecodeError};
use blucher_bridge::Command;

#[test]
fn round_trip_set_thrust() {
    let c = Command::SetThrust { thrust_bits: 1.0f32.to_bits() };
    let data = encode(&c);
    assert_eq!(data, vec![0x00, 0x00, 0x00, 0x80, 0x3f]);
    let decoded = decode(&data).unwrap();
    assert_eq!(decoded, c);
    match decoded {
        Command::SetThrust { thrust_bits } => assert_eq!(f32::from_bits(thrust_bits), 1.0f32),
        Command::Heartbeat => panic!("wrong variant"),
    }
}

#[test]
fn round_trip_heartbeat() {
    let c = Command::Heartbeat;
    let data = encode(&c);
    assert_eq!(data, vec![0x01]);
    assert_eq!(decode(&data).unwrap(), Command::Heartbeat);
}

#[test]
fn round_trip_many_bit_patterns() {
    for bits in [0u32, 1, 0x3f80_0000, 0x7f7f_ffff, 0x8000_0000, u32::MAX] {
        let c = Command::SetThrust { thrust_bits: bits };
        assert_eq!(decode(&encode(&c)).unwrap(), c);
    }
}

#[test]
fn decode_empty_is_truncated() {
    assert_eq!(decode(&[]), Err(DecodeError::Truncated));
}

#[test]
fn decode_short_payload_is_truncated() {
    assert_eq!(decode(&[0x00]), Err(DecodeError::Truncated));
    assert_eq!(decode(&[0x00, 0x01, 0x02]), Err(DecodeError::Truncated));
    assert_eq!(decode(&[0x00, 0x01, 0x02, 0x03]), Err(DecodeError::Truncated));
}

#[test]
fn decode_unknown_tag_is_rejected() {
    assert_eq!(decode(&[0x02]), Err(DecodeError::UnknownTag));
    assert_eq!(decode(&[0xff, 0x00, 0x00, 0x00, 0x00]), Err(DecodeError::UnknownTag));
}

#[test]
fn decode_trailing_bytes_are_rejected() {
    assert_eq!(decode(&[0x01, 0x00]), Err(DecodeError::TrailingBytes));
    assert_eq!(
        decode(&[0x00, 0x01, 0x02, 0x03, 0x04, 0x05]),
        Err(DecodeError::TrailingBytes)
    );
}

#[test]
fn encode_decode_reports_bytes_and_command() {
    let c = Command::SetThrust { thrust_bits: 1.0f32.to_bits() };
    let (data, decoded) = encode_decode(&c);
    assert_eq!(data.len(), 5);
    assert_eq!(decoded, c);

    let (data, decoded) = encode_decode(&Command::Heartbeat);
    assert_eq!(data.len(), 1);
    assert_eq!(decoded, Command::Heartbeat);
}
