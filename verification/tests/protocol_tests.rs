use anne_key::protocol::decode;
use anne_key::protocol::encode;
use anne_key::protocol::Error;
use anne_key::protocol::MAX_PAYLOAD_LEN;

#[test]
fn encode_writes_frame_layout() {
    let mut out = vec![0u8; 255];
    let n = encode(9, 6, &[1, 2, 3], &mut out).unwrap();
    assert_eq!(n, 6);
    assert_eq!(&out[..6], &[9, 4, 6, 1, 2, 3]);
}

#[test]
fn encode_empty_payload() {
    let mut out = vec![0u8; 255];
    let n = encode(6, 170, &[], &mut out).unwrap();
    assert_eq!(n, 3);
    assert_eq!(&out[..3], &[6, 1, 170]);
}

#[test]
fn encode_leaves_tail_untouched() {
    let mut out = vec![0xabu8; 255];
    let n = encode(9, 2, &[7], &mut out).unwrap();
    assert_eq!(n, 4);
    assert_eq!(&out[..4], &[9, 2, 2, 7]);
    assert!(out[4..].iter().all(|&b| b == 0xab));
}

#[test]
fn encode_rejects_oversized_payload() {
    let mut out = vec![0u8; 300];
    let payload = vec![0u8; MAX_PAYLOAD_LEN + 1];
    let before = out.clone();
    assert_eq!(encode(9, 6, &payload, &mut out), Err(Error::PayloadTooLarge));
    assert_eq!(out, before);
}

#[test]
fn encode_rejects_small_buffer() {
    let mut out = vec![0u8; 4];
    assert_eq!(encode(9, 6, &[1, 2], &mut out), Err(Error::PayloadTooLarge));
    assert_eq!(out, vec![0u8; 4]);
}

#[test]
fn encode_accepts_largest_payload() {
    let mut out = vec![0u8; 255];
    let payload = vec![0x5au8; MAX_PAYLOAD_LEN];
    let n = encode(9, 6, &payload, &mut out).unwrap();
    assert_eq!(n, 255);
    assert_eq!(out[1], 253);
}

#[test]
fn decode_splits_operation_and_payload() {
    let header: [u8; 2] = [9, 4];
    let body = [6u8, 1, 2, 3];
    let m = decode(&header, &body);
    assert_eq!(m.msg_type, 9);
    assert_eq!(m.operation, 6);
    assert_eq!(m.data, vec![1, 2, 3]);
}

#[test]
fn decode_empty_payload() {
    let header: [u8; 2] = [6, 1];
    let body = [170u8];
    let m = decode(&header, &body);
    assert_eq!(m.msg_type, 6);
    assert_eq!(m.operation, 170);
    assert!(m.data.is_empty());
}

#[test]
fn round_trip_reproduces_triple() {
    let payload: Vec<u8> = (0..200u8).collect();
    let mut out = vec![0u8; 255];
    let n = encode(7, 42, &payload, &mut out).unwrap();
    assert_eq!(n, 203);
    let header: [u8; 2] = [out[0], out[1]];
    let body = &out[2..2 + out[1] as usize];
    let m = decode(&header, body);
    assert_eq!(m.msg_type, 7);
    assert_eq!(m.operation, 42);
    assert_eq!(m.data, payload);
}
