use ethproxy::framing::{
    decode, decode_length, encode, encode_length, length_bytes, FrameError, LENGTH_FIELD,
    MAX_PAYLOAD,
};

#[test]
fn hello_is_framed_with_its_length() {
    let wire = encode(b"hello\n").unwrap();
    assert_eq!(wire, vec![0x06, 0x00, 0x00, 0x00, b'h', b'e', b'l', b'l', b'o', b'\n']);
}

#[test]
fn empty_payload_is_four_zero_bytes() {
    assert_eq!(encode(&[]).unwrap(), vec![0, 0, 0, 0]);
}

#[test]
fn length_field_is_little_endian() {
    assert_eq!(length_bytes(0x0102_0304), [0x04, 0x03, 0x02, 0x01]);
    assert_eq!(length_bytes(1600), [0x40, 0x06, 0x00, 0x00]);
    assert_eq!(length_bytes(0), [0, 0, 0, 0]);
    assert_eq!(length_bytes(u32::MAX), [0xff, 0xff, 0xff, 0xff]);
    assert_eq!(length_bytes(256), 256u32.to_le_bytes());
}

#[test]
fn encode_length_takes_what_fits() {
    assert_eq!(encode_length(6), Ok([6, 0, 0, 0]));
    assert_eq!(encode_length(0x1_0000), Ok([0, 0, 1, 0]));
    assert_eq!(encode_length(MAX_PAYLOAD), Ok([0xff, 0xff, 0xff, 0xff]));
}

#[test]
fn encode_length_refuses_what_does_not_fit() {
    if let Some(too_long) = MAX_PAYLOAD.checked_add(1) {
        assert_eq!(encode_length(too_long), Err(FrameError::TooLong));
        assert_eq!(encode_length(usize::MAX), Err(FrameError::TooLong));
    }
}

#[test]
fn decode_length_reads_little_endian() {
    assert_eq!(decode_length(&[0x03, 0x00, 0x00, 0x00]), 3);
    assert_eq!(decode_length(&[0x04, 0x03, 0x02, 0x01]), 0x0102_0304);
    assert_eq!(decode_length(&[0xff, 0xff, 0xff, 0xff]), u32::MAX);
    assert_eq!(decode_length(&[0x78, 0x56, 0x34, 0x12]), u32::from_le_bytes([0x78, 0x56, 0x34, 0x12]));
}

#[test]
fn length_survives_the_field() {
    for n in [0u32, 1, 255, 256, 257, 65_535, 65_536, 16_777_215, 16_777_216, u32::MAX] {
        assert_eq!(decode_length(&length_bytes(n)), n);
    }
}

#[test]
fn decode_takes_one_message() {
    let (payload, used) = decode(&[0x03, 0x00, 0x00, 0x00, 0x01, 0x02, 0x03]).unwrap();
    assert_eq!(payload, vec![0x01, 0x02, 0x03]);
    assert_eq!(used, 7);
}

#[test]
fn decode_leaves_what_follows() {
    let stream = [0x02, 0x00, 0x00, 0x00, 0xaa, 0xbb, 0x01, 0x00, 0x00, 0x00, 0xcc];
    let (first, used) = decode(&stream).unwrap();
    assert_eq!(first, vec![0xaa, 0xbb]);
    assert_eq!(used, 6);
    let (second, used) = decode(&stream[used..]).unwrap();
    assert_eq!(second, vec![0xcc]);
    assert_eq!(used, 5);
}

#[test]
fn decode_wants_a_whole_message() {
    assert_eq!(decode(&[]), None);
    assert_eq!(decode(&[0x01, 0x00, 0x00]), None);
    assert_eq!(decode(&[0x01, 0x00, 0x00, 0x00]), None);
    assert_eq!(decode(&[0x03, 0x00, 0x00, 0x00, 0x01, 0x02]), None);
    assert_eq!(decode(&[0xff, 0xff, 0xff, 0xff, 0x00]), None);
}

#[test]
fn decode_takes_an_empty_message() {
    assert_eq!(decode(&[0, 0, 0, 0]), Some((vec![], LENGTH_FIELD)));
}

#[test]
fn payloads_survive_encoding() {
    for len in [0usize, 1, 2, 63, 64, 255, 256, 257, 1600, 65_535, 65_536, 70_000] {
        let payload: Vec<u8> = (0..len).map(|i| (i * 7 + 3) as u8).collect();
        let wire = encode(&payload).unwrap();
        assert_eq!(wire.len(), LENGTH_FIELD + len);
        assert_eq!(wire[..4], (len as u32).to_le_bytes());
        let (back, used) = decode(&wire).unwrap();
        assert_eq!(back, payload);
        assert_eq!(used, wire.len());
    }
}
