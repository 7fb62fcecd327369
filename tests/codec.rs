use ble_midi_bridge::codec::{decode, encode, HEADER_BYTE, TIMESTAMP_BYTE};
use ble_midi_bridge::error::BridgeError;

#[test]
fn encode_note_on() {
    assert_eq!(encode(&[0x90, 0x3C, 0x7F]), Ok(vec![0x80, 0x80, 0x90, 0x3C, 0x7F]));
}

#[test]
fn decode_note_on() {
    assert_eq!(decode(&[0x80, 0x80, 0x90, 0x3C, 0x7F]), Ok(vec![0x90, 0x3C, 0x7F]));
}

#[test]
fn decode_rejects_clear_first_byte() {
    assert_eq!(decode(&[0x00, 0x80, 0x01]), Err(BridgeError::MalformedPacket));
}

#[test]
fn decode_rejects_clear_second_byte() {
    assert_eq!(decode(&[0x80, 0x7F, 0x01]), Err(BridgeError::MalformedPacket));
}

#[test]
fn decode_rejects_short_packets() {
    assert_eq!(decode(&[]), Err(BridgeError::MalformedPacket));
    assert_eq!(decode(&[0x80]), Err(BridgeError::MalformedPacket));
}

#[test]
fn decode_header_only_gives_empty_payload() {
    assert_eq!(decode(&[0x80, 0x80]), Ok(vec![]));
    assert_eq!(decode(&[0xFF, 0xC3]), Ok(vec![]));
}

#[test]
fn encode_rejects_empty_payload() {
    assert_eq!(encode(&[]), Err(BridgeError::EmptyPayload));
}

#[test]
fn encode_adds_two_high_bytes() {
    let payload = [0x01u8, 0x02, 0x03, 0x04, 0x05, 0x06, 0x07];
    let packet = encode(&payload).unwrap();
    assert_eq!(packet.len(), payload.len() + 2);
    assert!(packet[0] & 0x80 != 0);
    assert!(packet[1] & 0x80 != 0);
    assert_eq!(packet[0], HEADER_BYTE);
    assert_eq!(packet[1], TIMESTAMP_BYTE);
}

#[test]
fn round_trip_restores_payload() {
    let payloads: Vec<Vec<u8>> = vec![vec![0x00], vec![0x90, 0x3C, 0x7F], vec![0xF0, 0x7E, 0x7F, 0x09, 0x01, 0xF7], vec![0x80, 0x80]];
    for p in payloads {
        let packet = encode(&p).unwrap();
        assert_eq!(decode(&packet), Ok(p));
    }
}

#[test]
fn graceful_errors() {
    assert!(BridgeError::SourceClosed.is_graceful());
    assert!(!BridgeError::WriteFailure.is_graceful());
    assert!(!BridgeError::PeripheralNotFound.is_graceful());
}
