use oc_bridge::codec::oc_log::{parse, strip_ansi_codes};
use oc_bridge::logging::LogLevel;

#[test]
fn test_parse_info() {
    let (level, msg) = parse("[1234ms] INFO: Boot completed");
    assert_eq!(level, Some(LogLevel::Info));
    assert_eq!(msg, "Boot completed");
}

#[test]
fn test_parse_debug() {
    let (level, msg) = parse("[0ms] DEBUG: Initializing");
    assert_eq!(level, Some(LogLevel::Debug));
    assert_eq!(msg, "Initializing");
}

#[test]
fn test_parse_warn() {
    let (level, msg) = parse("[5000ms] WARN: Low memory");
    assert_eq!(level, Some(LogLevel::Warn));
    assert_eq!(msg, "Low memory");
}

#[test]
fn test_parse_error() {
    let (level, msg) = parse("[9999ms] ERROR: Connection lost");
    assert_eq!(level, Some(LogLevel::Error));
    assert_eq!(msg, "Connection lost");
}

#[test]
fn test_parse_plain_text() {
    let (level, msg) = parse("Hello World");
    assert_eq!(level, None);
    assert_eq!(msg, "Hello World");
}

#[test]
fn test_parse_with_ansi_codes() {
    let input = "\x1b[2m[1234ms] \x1b[0m\x1b[32mINFO: \x1b[0mBoot completed";
    let (level, msg) = parse(input);
    assert_eq!(level, Some(LogLevel::Info));
    assert_eq!(msg, "Boot completed");
}

#[test]
fn oc_log_test_strip_ansi_codes() {
    let input = "\x1b[2m[1234ms] \x1b[0m\x1b[32mINFO: \x1b[0mTest";
    let clean = strip_ansi_codes(input);
    assert_eq!(clean, "[1234ms] INFO: Test");
}

#[test]
fn parse_keeps_lines_without_a_known_level_whole() {
    assert_eq!(parse("[12ms] TRACE: x"), (None, "[12ms] TRACE: x".to_string()));
    assert_eq!(parse("[12ms]"), (None, "[12ms]".to_string()));
    assert_eq!(parse("[12s] INFO: x"), (None, "[12s] INFO: x".to_string()));
    assert_eq!(parse("no bracket ]"), (None, "no bracket ]".to_string()));
    assert_eq!(parse("[unterminated"), (None, "[unterminated".to_string()));
}

#[test]
fn parse_skips_white_space_after_timestamp() {
    assert_eq!(parse("[1ms]\t  ERROR: e"), (Some(LogLevel::Error), "e".to_string()));
    assert_eq!(parse("[1ms]INFO: i"), (Some(LogLevel::Info), "i".to_string()));
}

#[test]
fn strip_ansi_codes_drops_unterminated_escape() {
    assert_eq!(strip_ansi_codes("ab\x1b[31"), "ab");
    assert_eq!(strip_ansi_codes("plain"), "plain");
}

#[test]
fn unmatched_lines_come_back_unchanged() {
    let coloured = "\x1b[31mHello\x1b[0m";
    assert_eq!(parse(coloured), (None, coloured.to_string()));
    let coloured_bad_level = "\x1b[2m[12ms] \x1b[0mTRACE: x";
    assert_eq!(parse(coloured_bad_level), (None, coloured_bad_level.to_string()));
}
