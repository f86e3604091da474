use hid_scanner::frame::MAX_PAYLOAD;
use hid_scanner::{calc_xor, FrameError, SocketData, State};

fn all_kinds() -> Vec<State> {
    vec![State::Scan, State::LED, State::ID, State::ScanData, State::Control]
}

fn encode(state: State, data: &[u8]) -> Vec<u8> {
    SocketData::new(state, data).build()
}

/// Moves an encoded frame into the device-side reply layout.
fn as_reply(out: &[u8]) -> Vec<u8> {
    let mut raw = out[1..4].to_vec();
    raw.push(0x00);
    raw.extend_from_slice(&out[4..]);
    raw
}

#[test]
fn led_on_encodes_exactly() {
    let out = encode(State::LED, &[0x01]);
    let xor = 0x00 ^ 0x55 ^ 0xAA ^ 0x24 ^ 0x01 ^ 0x00 ^ 0x01;
    assert_eq!(out, vec![0x00, 0x55, 0xAA, 0x24, 0x01, 0x00, 0x01, xor]);
    assert_eq!(out[7], 0xDB);
}

#[test]
fn scan_data_decodes() {
    let raw = [0x55, 0xAA, 0x30, 0x00, 0x03, 0x00, 0x41, 0x42, 0x43];
    let f = SocketData::parse(&raw).unwrap();
    assert_eq!(f.state, State::ScanData);
    assert_eq!(f.data, b"ABC".to_vec());
    assert_eq!(f.magic, [0x55, 0xAA]);
}

#[test]
fn each_kind_has_its_wire_code() {
    let codes = [0x22, 0x24, 0x02, 0x30, 0x04];
    for (k, c) in all_kinds().iter().zip(codes.iter()) {
        assert_eq!(k.code(), *c);
        assert_eq!(State::from_code(*c), Some(*k));
        assert_eq!(encode(*k, &[])[3], *c);
    }
    assert_eq!(State::from_code(0x05), None);
}

#[test]
fn round_trip_every_kind() {
    let payloads: Vec<Vec<u8>> = vec![vec![], vec![0x00], b"ABC".to_vec(), (0..=255u8).collect()];
    for k in all_kinds().iter() {
        for p in payloads.iter() {
            let raw = as_reply(&encode(*k, p));
            let f = SocketData::parse(&raw).unwrap();
            assert_eq!(f.state, *k);
            assert_eq!(&f.data, p);
        }
    }
}

#[test]
fn round_trip_largest_payload() {
    let p: Vec<u8> = (0..MAX_PAYLOAD).map(|i| (i % 251) as u8).collect();
    let out = encode(State::ScanData, &p);
    assert_eq!(out.len(), MAX_PAYLOAD + 7);
    assert_eq!(out[4], 0xFF);
    assert_eq!(out[5], 0xFF);
    let f = SocketData::parse(&as_reply(&out)).unwrap();
    assert_eq!(f.state, State::ScanData);
    assert_eq!(f.data, p);
}

#[test]
fn encoding_is_deterministic_with_trailing_xor() {
    let mut f = SocketData::new(State::Control, &[0x08, 0x01, 0x05, 0x05, 0x00]);
    let a = f.build();
    let b = f.build();
    assert_eq!(a, b);
    assert_eq!(f.data, vec![0x08, 0x01, 0x05, 0x05, 0x00]);
    let (last, before) = a.split_last().unwrap();
    assert_eq!(*last, calc_xor(before.to_vec()));
}

#[test]
fn length_field_is_little_endian() {
    let p = vec![0x7Eu8; 0x0102];
    let out = encode(State::ID, &p);
    assert_eq!(out[4], 0x02);
    assert_eq!(out[5], 0x01);
}

#[test]
fn calc_xor_values() {
    assert_eq!(calc_xor(vec![]), 0);
    assert_eq!(calc_xor(vec![0x55, 0xAA]), 0xFF);
    assert_eq!(calc_xor(vec![0x12, 0x12]), 0);
    assert_eq!(calc_xor(vec![0x01, 0x02, 0x04]), 0x07);
}

#[test]
fn bad_magic_is_rejected() {
    let good = [0x55, 0xAA, 0x30, 0x00, 0x01, 0x00, 0x41];
    assert!(SocketData::parse(&good).is_some());
    let mut a = good;
    a[0] = 0x54;
    assert!(SocketData::parse(&a).is_none());
    let mut b = good;
    b[1] = 0xAB;
    assert!(SocketData::parse(&b).is_none());
    assert_eq!(SocketData::decode(&b).unwrap_err(), FrameError::Malformed);
}

#[test]
fn nonzero_reserved_is_rejected() {
    let raw = [0x55, 0xAA, 0x30, 0x01, 0x01, 0x00, 0x41];
    assert!(SocketData::parse(&raw).is_none());
    assert_eq!(SocketData::decode(&raw).unwrap_err(), FrameError::Malformed);
}

#[test]
fn unknown_kind_is_rejected() {
    let raw = [0x55, 0xAA, 0x05, 0x00, 0x01, 0x00, 0x41];
    assert!(SocketData::parse(&raw).is_none());
    assert_eq!(SocketData::decode(&raw).unwrap_err(), FrameError::UnknownKind(0x05));
}

#[test]
fn truncated_payload_is_rejected() {
    let raw = [0x55, 0xAA, 0x30, 0x00, 0x04, 0x00, 0x41, 0x42, 0x43];
    assert!(SocketData::parse(&raw).is_none());
    assert_eq!(SocketData::decode(&raw).unwrap_err(), FrameError::Malformed);
    let high = [0x55, 0xAA, 0x30, 0x00, 0x00, 0x01, 0x41];
    assert!(SocketData::parse(&high).is_none());
}

#[test]
fn short_buffers_are_rejected() {
    assert!(SocketData::parse(&[]).is_none());
    assert!(SocketData::parse(&[0x55]).is_none());
    assert!(SocketData::parse(&[0x55, 0xAA, 0x30]).is_none());
    assert_eq!(SocketData::decode(&[0x55, 0xAA, 0x30, 0x00]).unwrap_err(), FrameError::Malformed);
    assert_eq!(SocketData::decode(&[0x55, 0xAA, 0x07, 0x00]).unwrap_err(), FrameError::UnknownKind(0x07));
}

#[test]
fn empty_payload_and_trailing_bytes() {
    let raw = [0x55, 0xAA, 0x02, 0x00, 0x00, 0x00];
    let f = SocketData::parse(&raw).unwrap();
    assert_eq!(f.state, State::ID);
    assert!(f.data.is_empty());
    let longer = [0x55, 0xAA, 0x04, 0x00, 0x01, 0x00, 0x09, 0xEE, 0xEE];
    let g = SocketData::parse(&longer).unwrap();
    assert_eq!(g.state, State::Control);
    assert_eq!(g.data, vec![0x09]);
}

#[test]
fn new_copies_payload() {
    let f = SocketData::new(State::Scan, &[1, 2, 3]);
    assert_eq!(f.magic, [0x55, 0xAA]);
    assert_eq!(f.state, State::Scan);
    assert_eq!(f.data, vec![1, 2, 3]);
}
