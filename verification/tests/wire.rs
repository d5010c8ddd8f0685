use rs_vst_host::wire::{
    classify_read_error, decode_length, encode_frame, split_frame, DecodeError, FrameSplit, WireError,
    MAX_MESSAGE_SIZE,
};

#[test]
fn test_encode_frame_prefix() {
    let bytes = encode_frame(b"{\"Ping\":null}").unwrap();
    assert_eq!(&bytes[..4], &(bytes.len() as u32 - 4).to_le_bytes());
    assert_eq!(&bytes[4..], b"{\"Ping\":null}");
}

#[test]
fn test_encode_split_roundtrip() {
    let payload: Vec<u8> = (0..300u32).map(|i| (i % 251) as u8).collect();
    let mut bytes = encode_frame(&payload).unwrap();
    bytes.extend_from_slice(&[9, 9, 9]);
    match split_frame(&bytes) {
        FrameSplit::Frame { payload: p, consumed } => {
            assert_eq!(p, payload);
            assert_eq!(consumed, 304);
        }
        other => panic!("unexpected {:?}", other),
    }
}

#[test]
fn test_split_empty_needs_more() {
    assert!(matches!(split_frame(&[]), FrameSplit::NeedMore));
    assert!(matches!(split_frame(&[5, 0, 0, 0, 1, 2]), FrameSplit::NeedMore));
}

#[test]
fn test_encode_oversized_message() {
    let data = vec![0u8; MAX_MESSAGE_SIZE + 1];
    let result = encode_frame(&data);
    match result {
        Err(e @ WireError::TooLarge { len }) => {
            assert_eq!(len, MAX_MESSAGE_SIZE + 1);
            assert!(e.message().contains("too large"));
            assert_eq!(e.message(), "Message too large: 16777217 bytes (max 16777216)");
        }
        Ok(_) => panic!("expected an error"),
    }
}

#[test]
fn test_decode_length_limits() {
    assert_eq!(decode_length(&[0, 0, 0, 1]).unwrap(), 16 * 1024 * 1024);
    assert!(matches!(decode_length(&[1, 0, 0, 1]), Err(WireError::TooLarge { len: 16777217 })));
    assert_eq!(decode_length(&[0x34, 0x12, 0, 0]).unwrap(), 0x1234);
}

#[test]
fn test_split_too_large() {
    assert!(matches!(split_frame(&[0xff, 0xff, 0xff, 0xff]), FrameSplit::TooLarge { len: 0xffff_ffff }));
}

#[test]
fn test_classify_timeouts() {
    assert!(classify_read_error("Read length error: Resource temporarily unavailable (os error 11)").is_timeout());
    assert!(classify_read_error("Read length error: operation TIMED OUT").is_timeout());
    assert!(classify_read_error("WouldBlock").is_timeout());
    match classify_read_error("Deserialize error: expected value") {
        DecodeError::Other(m) => assert_eq!(m, "Deserialize error: expected value"),
        DecodeError::Timeout => panic!("not a timeout"),
    }
}

#[test]
fn test_decode_error_is_timeout() {
    assert!(DecodeError::Timeout.is_timeout());
    assert!(!DecodeError::Other("x".into()).is_timeout());
}

#[test]
fn test_decode_error_message() {
    assert_eq!(DecodeError::Timeout.message(), "timeout");
    assert_eq!(DecodeError::Other("Read error: broken pipe".into()).message(), "Read error: broken pipe");
}
