use edge_telemetry::wire::decode_heartbeat;
use edge_telemetry::wire::decode_reply;
use edge_telemetry::wire::encode_heartbeat;
use edge_telemetry::wire::encode_reply;

#[test]
fn heartbeat_frame_has_the_exact_layout() {
    let id = b"AB".to_vec();
    let frame = encode_heartbeat(&id, 65.0f32.to_bits());
    // 65.0f32 is 0x42820000: little-endian bytes 00 00 82 42
    assert_eq!(frame, vec![2, 0, 0, 0, 0x41, 0x42, 0x00, 0x00, 0x82, 0x42]);
}

#[test]
fn heartbeat_frame_round_trips() {
    let id = b"Node-42".to_vec();
    let frame = encode_heartbeat(&id, 65.0f32.to_bits());
    let (decoded_id, bits) = decode_heartbeat(&frame).unwrap();
    assert_eq!(decoded_id, id);
    assert_eq!(f32::from_bits(bits), 65.0);
}

#[test]
fn empty_id_round_trips() {
    let id = Vec::new();
    let frame = encode_heartbeat(&id, 0.0f32.to_bits());
    let (decoded_id, bits) = decode_heartbeat(&frame).unwrap();
    assert!(decoded_id.is_empty());
    assert_eq!(bits, 0);
}

#[test]
fn short_buffers_are_rejected() {
    assert!(decode_heartbeat(&Vec::new()).is_none());
    assert!(decode_heartbeat(&vec![1, 0, 0, 0, 0, 0, 0]).is_none());
}

#[test]
fn wrong_length_field_is_rejected() {
    // claims a one-byte id but carries two
    let frame = vec![1, 0, 0, 0, 0x41, 0x42, 0x00, 0x00, 0x82, 0x42];
    assert!(decode_heartbeat(&frame).is_none());
}

#[test]
fn reply_frame_round_trips() {
    assert_eq!(encode_reply(true), vec![1]);
    assert_eq!(encode_reply(false), vec![0]);
    assert_eq!(decode_reply(&vec![1]), Some(true));
    assert_eq!(decode_reply(&vec![0]), Some(false));
}

#[test]
fn malformed_replies_are_rejected() {
    assert!(decode_reply(&Vec::new()).is_none());
    assert!(decode_reply(&vec![2]).is_none());
    assert!(decode_reply(&vec![1, 1]).is_none());
}
