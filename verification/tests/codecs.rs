use oc_bridge::codec::{CobsDebugCodec, Frame, RawCodec};
use oc_bridge::logging::LogLevel;

#[test]
fn test_raw_decode_simple() {
    let mut codec = RawCodec::new();
    let frames = codec.decode(&[0x01, 0x02, 0x03]);
    assert_eq!(frames.len(), 1);
    if let Frame::Message { name, payload } = &frames[0] {
        assert_eq!(name, "unknown");
        assert_eq!(payload.as_ref(), &[0x01, 0x02, 0x03]);
    } else {
        panic!("Expected Message frame");
    }
}

#[test]
fn test_raw_decode_with_valid_name() {
    let mut codec = RawCodec::new();

    // Format: [MessageID, name_len, name_bytes..., fields...]
    let mut payload = vec![0x49, 4]; // MessageID=0x49, name_len=4
    payload.extend_from_slice(b"Test");
    payload.push(0x01); // Some field

    let frames = codec.decode(&payload);

    assert_eq!(frames.len(), 1);
    if let Frame::Message { name, payload: p } = &frames[0] {
        assert_eq!(name, "Test");
        assert_eq!(p.len(), 7); // Full payload preserved
    } else {
        panic!("Expected Message frame");
    }
}

#[test]
fn test_raw_decode_empty() {
    let mut codec = RawCodec::new();
    let frames = codec.decode(&[]);
    assert!(frames.is_empty());
}

#[test]
fn test_raw_encode() {
    let codec = RawCodec::new();
    let mut output = Vec::new();
    codec.encode(&[0x01, 0x02, 0x03], &mut output);
    assert_eq!(output, vec![0x01, 0x02, 0x03]);
}

#[test]
fn test_raw_encode_empty() {
    let codec = RawCodec::new();
    let mut output = Vec::new();
    codec.encode(&[], &mut output);
    assert!(output.is_empty());
}

#[test]
fn test_raw_encode_append() {
    let codec = RawCodec::new();
    let mut output = vec![0xAA, 0xBB];
    codec.encode(&[0x01, 0x02], &mut output);
    assert_eq!(output, vec![0xAA, 0xBB, 0x01, 0x02]);
}

#[test]
fn test_decode_debug_log() {
    let mut codec = CobsDebugCodec::default();
    let frames = codec.decode(b"[123ms] INFO: Test\n");
    assert_eq!(frames.len(), 1);
    if let Frame::DebugLog { level, message } = &frames[0] {
        assert_eq!(*level, Some(LogLevel::Info));
        assert_eq!(message, "Test");
    } else {
        panic!("Expected DebugLog frame");
    }
}

#[test]
fn test_decode_protocol_message() {
    let mut codec = CobsDebugCodec::default();
    let frames = codec.decode(&[0x04, 0x01, 0x02, 0x03, 0x00]);
    assert_eq!(frames.len(), 1);
    if let Frame::Message { payload, .. } = &frames[0] {
        assert_eq!(payload.as_ref(), &[0x01, 0x02, 0x03]);
    } else {
        panic!("Expected Message frame");
    }
}

#[test]
fn test_decode_mixed() {
    let mut codec = CobsDebugCodec::default();
    let mut frame_count = codec.decode(b"[100ms] INFO: Done\n").len();
    assert_eq!(frame_count, 1);
    frame_count += codec.decode(&[0x03, 0x0A, 0x0B, 0x00]).len();
    assert_eq!(frame_count, 2);
}

#[test]
fn test_encode() {
    let codec = CobsDebugCodec::default();
    let mut output = Vec::new();
    codec.encode(&[0x01, 0x02, 0x03], &mut output);
    assert_eq!(output.last(), Some(&0x00));
    for &byte in &output[..output.len() - 1] {
        assert_ne!(byte, 0x00);
    }
}

#[test]
fn cobs_debug_names_messages_and_skips_bad_frames() {
    let mut codec = CobsDebugCodec::new(64);
    let frames = codec.decode(&[0x07, 0x49, 0x01, 0x02, b'O', b'k', 0x09, 0x00]);
    assert_eq!(frames.len(), 1);
    if let Frame::Message { name, payload } = &frames[0] {
        assert_eq!(name, "Ok");
        assert_eq!(payload.as_ref(), &[0x49, 0x01, 0x02, b'O', b'k', 0x09]);
    } else {
        panic!("Expected Message frame");
    }
    assert!(codec.decode(&[0x05, 0x01, 0x00]).is_empty());
    assert!(codec.decode(&[0x00]).is_empty());
}

fn frame_summary(frames: &[Frame]) -> Vec<String> {
    frames
        .iter()
        .map(|f| match f {
            Frame::Message { name, payload } => format!("msg {} {:?}", name, payload.as_ref()),
            Frame::DebugLog { level, message } => format!("log {:?} {}", level, message),
        })
        .collect()
}

#[test]
fn cobs_debug_decoding_does_not_depend_on_chunking() {
    let codec = CobsDebugCodec::new(4096);
    let mut first = Vec::new();
    codec.encode(&[0x10, 0x00, 0x20], &mut first);
    let mut last = Vec::new();
    codec.encode(&[0x30], &mut last);
    let mut stream = first;
    stream.extend_from_slice(b"[INFO] ready\r\n");
    stream.extend_from_slice(&last);

    let mut whole = CobsDebugCodec::new(4096);
    let expected = frame_summary(&whole.decode(&stream));
    assert_eq!(expected.len(), 3);

    for cut in 0..=stream.len() {
        let mut split = CobsDebugCodec::new(4096);
        let mut frames = split.decode(&stream[..cut]);
        frames.extend(split.decode(&stream[cut..]));
        assert_eq!(frame_summary(&frames), expected, "cut at {}", cut);
    }
}
