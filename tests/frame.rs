use message_sink::{Frame, ParseError};

/// Deterministic filler bytes of the given length.
fn random(len: usize) -> Vec<u8> {
    let mut state: u32 = 0x2545_f491 ^ (len as u32);
    let mut bytes = Vec::with_capacity(len);
    for _ in 0..len {
        state = state.wrapping_mul(1_103_515_245).wrapping_add(12_345);
        bytes.push((state >> 16) as u8);
    }
    bytes
}

#[test]
fn frame_parse() {
    let message = random(128);
    let frame = Frame::new(message.clone());
    let mut buffer: Vec<u8> = frame.try_into().unwrap();
    assert_eq!(buffer.len(), message.len() + 4, "message wrapped in frame");
    let parsed_frame = Frame::try_from(&mut buffer).unwrap();
    assert_eq!(buffer.len(), 0, "consumed buffer");
    let parsed_message = parsed_frame.into_message();
    assert_eq!(message, parsed_message);
}

#[test]
fn frame_not_ready() {
    let message = random(128);
    let frame = Frame::new(message.clone());
    let mut buffer: Vec<u8> = frame.try_into().unwrap();
    buffer.truncate(128);
    let error = Frame::try_from(&mut buffer);
    match error {
        Err(ParseError::NotReady) => {}
        Err(e) => panic!("unexpected error: {}", e.to_string()),
        Ok(_) => panic!("unexpected success"),
    }
    assert_eq!(buffer.len(), 128);
}

#[test]
fn frame_parse_multiple() {
    let messages = [random(128), random(128), random(128)];
    let frames = messages.iter().map(|message| Frame::new(message.clone()));
    let mut buffer: Vec<u8> = Vec::new();
    for frame in frames {
        let bytes: Vec<u8> = frame.try_into().unwrap();
        buffer.extend(bytes);
    }
    let mut i = 0;
    while let Ok(frame) = Frame::try_from(&mut buffer) {
        let message = frame.into_message();
        assert_eq!(messages[i], message);
        i += 1;
    }
    assert_eq!(i, 3);
    assert_eq!(buffer.len(), 0);
}

#[test]
fn parse_with_extra() {
    let message = random(128);
    let frame = Frame::new(message.clone());
    let mut buffer: Vec<u8> = frame.try_into().unwrap();
    buffer.extend(random(3));
    if let Err(e) = Frame::try_from(&mut buffer) {
        panic!("unexpected error: {}", e.to_string());
    }
    match Frame::try_from(&mut buffer) {
        Err(ParseError::NotReady) => {}
        Err(e) => panic!("unexpected error: {}", e.to_string()),
        Ok(_) => panic!("unexpected success"),
    }
    assert_eq!(buffer.len(), 3);
}

#[test]
fn encode_writes_little_endian_header() {
    let bytes: Vec<u8> = Frame::new(vec![7u8; 0x0102]).try_into().unwrap();
    assert_eq!(&bytes[..4], &[0x02, 0x01, 0x00, 0x00]);
    assert_eq!(bytes.len(), 4 + 0x0102);
    assert!(bytes[4..].iter().all(|b| *b == 7));
}

#[test]
fn encode_empty_message() {
    let bytes: Vec<u8> = Frame::new(Vec::new()).try_into().unwrap();
    assert_eq!(bytes, vec![0, 0, 0, 0]);
    let mut buffer = bytes;
    let frame = Frame::try_from(&mut buffer).unwrap();
    assert!(frame.into_message().is_empty());
    assert!(buffer.is_empty());
}

#[test]
fn decode_reads_header_little_endian() {
    let mut buffer = vec![3, 0, 0, 0, b'a', b'b', b'c', b'd'];
    let frame = Frame::try_from(&mut buffer).unwrap();
    assert_eq!(frame.into_message(), b"abc".to_vec());
    assert_eq!(buffer, vec![b'd']);
}

#[test]
fn decode_short_header_is_not_ready() {
    let mut buffer = vec![1, 0, 0];
    assert!(matches!(Frame::try_from(&mut buffer), Err(ParseError::NotReady)));
    assert_eq!(buffer, vec![1, 0, 0]);
    let mut empty: Vec<u8> = Vec::new();
    assert!(matches!(Frame::try_from(&mut empty), Err(ParseError::NotReady)));
}

#[test]
fn decode_huge_header_waits_for_bytes() {
    let mut buffer = vec![0xff, 0xff, 0xff, 0xff, 1, 2, 3];
    assert!(matches!(Frame::try_from(&mut buffer), Err(ParseError::NotReady)));
    assert_eq!(buffer, vec![0xff, 0xff, 0xff, 0xff, 1, 2, 3]);
}

#[test]
fn every_prefix_is_not_ready() {
    let message = random(20);
    let encoded: Vec<u8> = Frame::new(message).try_into().unwrap();
    for k in 0..encoded.len() {
        let mut buffer = encoded[..k].to_vec();
        assert!(matches!(Frame::try_from(&mut buffer), Err(ParseError::NotReady)));
        assert_eq!(buffer, encoded[..k].to_vec());
    }
}

#[test]
fn parse_error_text() {
    assert_eq!(ParseError::NotReady.to_string(), "Not ready");
    assert_eq!(ParseError::Corrupt.to_string(), "Corrupt");
}
