use oc_bridge::bridge::stream_parser::{parse_oc_log, strip_ansi_codes, ParsedFrame, StreamParser};
use oc_bridge::logging::LogLevel;

#[test]
fn test_parse_oc_log_info() {
    let (level, msg) = parse_oc_log("[1234ms] INFO: Boot completed");
    assert_eq!(level, Some(LogLevel::Info));
    assert_eq!(msg, "Boot completed");
}

#[test]
fn test_parse_oc_log_debug() {
    let (level, msg) = parse_oc_log("[0ms] DEBUG: Initializing");
    assert_eq!(level, Some(LogLevel::Debug));
    assert_eq!(msg, "Initializing");
}

#[test]
fn test_parse_oc_log_warn() {
    let (level, msg) = parse_oc_log("[5000ms] WARN: Low memory");
    assert_eq!(level, Some(LogLevel::Warn));
    assert_eq!(msg, "Low memory");
}

#[test]
fn test_parse_oc_log_error() {
    let (level, msg) = parse_oc_log("[9999ms] ERROR: Connection lost");
    assert_eq!(level, Some(LogLevel::Error));
    assert_eq!(msg, "Connection lost");
}

#[test]
fn test_parse_serial_print() {
    let (level, msg) = parse_oc_log("Hello World");
    assert_eq!(level, None);
    assert_eq!(msg, "Hello World");
}

#[test]
fn test_parse_non_matching_bracket() {
    let (level, msg) = parse_oc_log("[other] Some text");
    assert_eq!(level, None);
    assert_eq!(msg, "[other] Some text");
}

#[test]
fn test_parse_oc_log_with_ansi_codes() {
    let input = "\x1b[2m[1234ms] \x1b[0m\x1b[32mINFO: \x1b[0mBoot completed";
    let (level, msg) = parse_oc_log(input);
    assert_eq!(level, Some(LogLevel::Info));
    assert_eq!(msg, "Boot completed");
}

#[test]
fn stream_parser_test_strip_ansi_codes() {
    let input = "\x1b[2m[1234ms] \x1b[0m\x1b[32mINFO: \x1b[0mTest";
    let clean = strip_ansi_codes(input);
    assert_eq!(clean, "[1234ms] INFO: Test");
}

#[test]
fn test_stream_parser_debug_log() {
    let mut parser = StreamParser::new();
    let frames = parser.feed(b"[123ms] INFO: Test\n");
    assert_eq!(frames.len(), 1);
    match &frames[0] {
        ParsedFrame::DebugLog { level, message } => {
            assert_eq!(*level, Some(LogLevel::Info));
            assert_eq!(message, "Test");
        }
        _ => panic!("Expected DebugLog"),
    }
}

#[test]
fn test_stream_parser_protocol_message() {
    let mut parser = StreamParser::new();
    let frames = parser.feed(&[0x01, 0x02, 0x03, 0x00]);
    assert_eq!(frames.len(), 1);
    match &frames[0] {
        ParsedFrame::ProtocolMessage { payload } => {
            assert_eq!(payload, &[0x01, 0x02, 0x03]);
        }
        _ => panic!("Expected ProtocolMessage"),
    }
}

#[test]
fn test_stream_parser_mixed() {
    let mut parser = StreamParser::new();
    let frames = parser.feed(b"[100ms] INFO: ");
    assert!(frames.is_empty());
    let frames = parser.feed(b"Done\n");
    assert_eq!(frames.len(), 1);
    let frames = parser.feed(&[0x0D, b'T', b'e', b's', b't', 0x00]);
    assert_eq!(frames.len(), 1);
    match &frames[0] {
        ParsedFrame::ProtocolMessage { payload } => {
            assert_eq!(payload.len(), 5);
        }
        _ => panic!("Expected ProtocolMessage"),
    }
}

#[test]
fn stream_parser_chunking_does_not_change_frames() {
    let data: Vec<u8> = [b"[1ms] WARN: a\r\n".as_slice(), &[0x02, 0x07, 0x00], b"plain\n"].concat();
    let mut whole = StreamParser::new();
    let all = whole.feed(&data);
    let mut pieces = StreamParser::new();
    let mut split = pieces.feed(&data[..5]);
    split.extend(pieces.feed(&data[5..]));
    assert_eq!(all.len(), 3);
    assert_eq!(format!("{:?}", all), format!("{:?}", split));
}

#[test]
fn stream_parser_drops_empty_frames_and_bad_utf8() {
    let mut parser = StreamParser::new();
    assert!(parser.feed(&[0x00]).is_empty());
    assert!(parser.feed(b"\r\n").is_empty());
    assert!(parser.feed(&[0xFF, 0xFE, b'\n']).is_empty());
    let frames = parser.feed(b"x\n");
    assert_eq!(frames.len(), 1);
}

#[test]
fn stream_parser_drops_overlong_partial_frame() {
    let mut parser = StreamParser::new();
    let long = vec![b'a'; 16385];
    assert!(parser.feed(&long).is_empty());
    let frames = parser.feed(b"b\n");
    match &frames[0] {
        ParsedFrame::DebugLog { level, message } => {
            assert_eq!(*level, None);
            assert_eq!(message, "b");
        }
        _ => panic!("Expected DebugLog"),
    }
}

#[test]
fn stream_parser_clear_drops_partial_frame() {
    let mut parser = StreamParser::new();
    assert!(parser.feed(b"abc").is_empty());
    parser.clear();
    let frames = parser.feed(b"d\n");
    match &frames[0] {
        ParsedFrame::DebugLog { message, .. } => assert_eq!(message, "d"),
        _ => panic!("Expected DebugLog"),
    }
}

#[test]
fn parsed_frames_hold_no_delimiters() {
    let mut parser = StreamParser::new();
    let mut data = vec![0x05, 0x01, 0x02, 0x00, 0x00];
    data.extend_from_slice(b"first\r\nsecond\n");
    data.extend(std::iter::repeat(0x41).take(20000));
    data.push(0x00);
    data.extend_from_slice(&[0x07, 0x00]);
    for frame in parser.feed(&data) {
        match frame {
            ParsedFrame::ProtocolMessage { payload } => {
                assert!(!payload.is_empty());
                assert!(payload.len() <= 16384);
                assert!(!payload.contains(&0) && !payload.contains(&b'\n'));
            }
            ParsedFrame::DebugLog { message, .. } => assert!(!message.contains('\n')),
        }
    }
}

#[test]
fn cleared_parser_forgets_the_partial_frame() {
    let mut parser = StreamParser::new();
    assert!(parser.feed(&[0x01, 0x02]).is_empty());
    parser.clear();
    let frames = parser.feed(&[0x03, 0x00]);
    let fresh = StreamParser::new().feed(&[0x03, 0x00]);
    assert_eq!(frames.len(), 1);
    assert_eq!(fresh.len(), 1);
    match (&frames[0], &fresh[0]) {
        (ParsedFrame::ProtocolMessage { payload: a }, ParsedFrame::ProtocolMessage { payload: b }) => {
            assert_eq!(a, b);
            assert_eq!(a, &vec![0x03]);
        }
        _ => panic!("expected protocol messages"),
    }
}
