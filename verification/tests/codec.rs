use pyframe::codec::{decode_frame, decode_len, encode_frame, FrameDecode, ProtocolError};

#[test]
fn encode_frame_prefixes_big_endian_length() {
    let payload = vec![0xabu8];
    let framed = encode_frame(&payload);
    assert_eq!(framed, vec![0u8, 0, 0, 1, 0xab]);
}

#[test]
fn encode_frame_empty_payload() {
    let payload: Vec<u8> = Vec::new();
    let framed = encode_frame(&payload);
    assert_eq!(framed, vec![0u8, 0, 0, 0]);
}

#[test]
fn encode_frame_multibyte_length() {
    let payload = vec![7u8; 300];
    let framed = encode_frame(&payload);
    assert_eq!(framed.len(), 304);
    // 300 = 0x012c
    assert_eq!(&framed[0..4], &[0u8, 0, 0x01, 0x2c]);
    assert_eq!(&framed[4..], &payload[..]);
}

#[test]
fn decode_of_encode_returns_payload() {
    let payload: Vec<u8> = br#"{"correlationKey":1,"method":"set_title","arguments":{"title":"Hello"}}"#.to_vec();
    let framed = encode_frame(&payload);
    match decode_frame(&framed, 1024) {
        FrameDecode::Frame { payload: p, consumed } => {
            assert_eq!(p, payload);
            assert_eq!(consumed, framed.len());
        }
        _ => panic!("expected a whole frame"),
    }
}

#[test]
fn oversize_declaration_rejected_without_reading_payload() {
    // Header declares 5 bytes, maximum is 4; the declared bytes are even
    // present, but the frame must be rejected on the header alone.
    let buf = vec![0u8, 0, 0, 5, 1, 2, 3, 4, 5];
    assert!(matches!(decode_frame(&buf, 4), FrameDecode::TooLong));
    // ... and also when they are absent.
    let short = vec![0u8, 0, 0, 5];
    assert!(matches!(decode_frame(&short, 4), FrameDecode::TooLong));
}

#[test]
fn frame_at_exactly_the_maximum_is_accepted() {
    let payload = vec![9u8; 16];
    let framed = encode_frame(&payload);
    match decode_frame(&framed, 16) {
        FrameDecode::Frame { payload: p, consumed } => {
            assert_eq!(p, payload);
            assert_eq!(consumed, 20);
        }
        _ => panic!("a frame at the maximum length must decode"),
    }
    // One byte more is rejected.
    let over = vec![9u8; 17];
    assert!(matches!(decode_frame(&encode_frame(&over), 16), FrameDecode::TooLong));
}

#[test]
fn short_header_is_incomplete() {
    let buf = vec![0u8, 0, 0];
    assert!(matches!(decode_frame(&buf, 1024), FrameDecode::Incomplete));
}

#[test]
fn short_payload_is_incomplete() {
    let buf = vec![0u8, 0, 0, 3, 1, 2];
    assert!(matches!(decode_frame(&buf, 1024), FrameDecode::Incomplete));
}

#[test]
fn decode_len_reads_big_endian() {
    assert_eq!(decode_len(0, 0, 1, 0, 1024), Ok(256));
    assert_eq!(decode_len(0, 0, 0, 0, 1024), Ok(0));
}

#[test]
fn decode_len_rejects_over_maximum() {
    assert_eq!(decode_len(0, 0, 4, 1, 1024), Err(ProtocolError::FrameTooLong));
    // Exactly the maximum is still accepted.
    assert_eq!(decode_len(0, 0, 4, 0, 1024), Ok(1024));
}
