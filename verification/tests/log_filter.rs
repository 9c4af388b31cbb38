use oc_bridge::logging::{FilterMode, LogEntry, LogFilter, LogLevel};
// === Helper functions ===

fn make_protocol_in(name: &str) -> LogEntry {
    LogEntry::protocol_in(name, 10)
}

fn make_protocol_out(name: &str) -> LogEntry {
    LogEntry::protocol_out(name, 10)
}

fn make_debug(level: Option<LogLevel>) -> LogEntry {
    LogEntry::debug_log(level, "test message")
}

fn make_system() -> LogEntry {
    LogEntry::system("system message")
}

// === Default filter tests ===

#[test]
fn test_default_matches_all() {
    let filter = LogFilter::default();

    assert!(filter.matches(&make_protocol_in("NoteOn")));
    assert!(filter.matches(&make_protocol_out("NoteOff")));
    assert!(filter.matches(&make_debug(Some(LogLevel::Info))));
    assert!(filter.matches(&make_debug(None)));
    assert!(filter.matches(&make_system()));
}

// === Protocol filter tests ===

#[test]
fn test_filter_protocol_disabled() {
    let filter = LogFilter {
        show_protocol: false,
        ..Default::default()
    };

    assert!(!filter.matches(&make_protocol_in("NoteOn")));
    assert!(!filter.matches(&make_protocol_out("NoteOff")));
    // Other types still pass
    assert!(filter.matches(&make_debug(Some(LogLevel::Info))));
    assert!(filter.matches(&make_system()));
}

#[test]
fn test_filter_direction_in_only() {
    let filter = LogFilter {
        show_direction_in: true,
        show_direction_out: false,
        ..Default::default()
    };

    assert!(filter.matches(&make_protocol_in("Test")));
    assert!(!filter.matches(&make_protocol_out("Test")));
}

#[test]
fn test_filter_direction_out_only() {
    let filter = LogFilter {
        show_direction_in: false,
        show_direction_out: true,
        ..Default::default()
    };

    assert!(!filter.matches(&make_protocol_in("Test")));
    assert!(filter.matches(&make_protocol_out("Test")));
}

#[test]
fn test_filter_message_types_whitelist() {
    let filter = LogFilter {
        message_types: ["NoteOn", "NoteOff"]
            .iter()
            .map(|s| s.to_string())
            .collect(),
        ..Default::default()
    };

    assert!(filter.matches(&make_protocol_in("NoteOn")));
    assert!(filter.matches(&make_protocol_out("NoteOff")));
    assert!(!filter.matches(&make_protocol_in("ControlChange")));
}

#[test]
fn test_filter_message_types_empty_allows_all() {
    let filter = LogFilter::default();
    // Empty message_types = all allowed

    assert!(filter.matches(&make_protocol_in("AnyMessage")));
    assert!(filter.matches(&make_protocol_in("AnotherOne")));
}

// === Debug filter tests ===

#[test]
fn test_filter_debug_disabled() {
    let filter = LogFilter {
        show_debug: false,
        ..Default::default()
    };

    assert!(!filter.matches(&make_debug(Some(LogLevel::Info))));
    assert!(!filter.matches(&make_debug(Some(LogLevel::Error))));
    assert!(!filter.matches(&make_debug(None)));
    // Other types still pass
    assert!(filter.matches(&make_protocol_in("Test")));
}

#[test]
fn test_filter_debug_level_specific() {
    let filter = LogFilter {
        debug_level: Some(LogLevel::Error),
        ..Default::default()
    };

    assert!(filter.matches(&make_debug(Some(LogLevel::Error))));
    assert!(!filter.matches(&make_debug(Some(LogLevel::Info))));
    assert!(!filter.matches(&make_debug(Some(LogLevel::Warn))));
    assert!(!filter.matches(&make_debug(Some(LogLevel::Debug))));
}

#[test]
fn test_filter_debug_level_none_allows_all() {
    // debug_level: None is already the default
    let filter = LogFilter::default();

    assert!(filter.matches(&make_debug(Some(LogLevel::Debug))));
    assert!(filter.matches(&make_debug(Some(LogLevel::Info))));
    assert!(filter.matches(&make_debug(Some(LogLevel::Warn))));
    assert!(filter.matches(&make_debug(Some(LogLevel::Error))));
    assert!(filter.matches(&make_debug(None)));
}

#[test]
fn test_filter_debug_level_set_but_entry_has_none() {
    let filter = LogFilter {
        debug_level: Some(LogLevel::Info),
        ..Default::default()
    };

    // Entry without level should be hidden when filter is set
    assert!(!filter.matches(&make_debug(None)));
}

// === System filter tests ===

#[test]
fn test_filter_system_disabled() {
    let filter = LogFilter {
        show_system: false,
        ..Default::default()
    };

    assert!(!filter.matches(&make_system()));
    // Other types still pass
    assert!(filter.matches(&make_protocol_in("Test")));
    assert!(filter.matches(&make_debug(Some(LogLevel::Info))));
}

// === Combined filter tests ===

#[test]
fn filter_test_filter_protocol_only() {
    let filter = LogFilter {
        show_protocol: true,
        show_debug: false,
        show_system: false,
        ..Default::default()
    };

    assert!(filter.matches(&make_protocol_in("Test")));
    assert!(filter.matches(&make_protocol_out("Test")));
    assert!(!filter.matches(&make_debug(Some(LogLevel::Info))));
    assert!(!filter.matches(&make_system()));
}

#[test]
fn filter_test_filter_debug_only() {
    let filter = LogFilter {
        show_protocol: false,
        show_debug: true,
        show_system: false,
        ..Default::default()
    };

    assert!(!filter.matches(&make_protocol_in("Test")));
    assert!(filter.matches(&make_debug(Some(LogLevel::Info))));
    assert!(!filter.matches(&make_system()));
}

#[test]
fn test_filter_complex_combination() {
    let filter = LogFilter {
        show_protocol: true,
        show_debug: true,
        show_system: false,
        show_direction_in: true,
        show_direction_out: false,
        message_types: ["NoteOn"].iter().map(|s| s.to_string()).collect(),
        debug_level: Some(LogLevel::Error),
    };

    // Protocol: only IN direction, only NoteOn
    assert!(filter.matches(&make_protocol_in("NoteOn")));
    assert!(!filter.matches(&make_protocol_in("NoteOff"))); // Wrong type
    assert!(!filter.matches(&make_protocol_out("NoteOn"))); // Wrong direction

    // Debug: only Error level
    assert!(filter.matches(&make_debug(Some(LogLevel::Error))));
    assert!(!filter.matches(&make_debug(Some(LogLevel::Info))));

    // System: disabled
    assert!(!filter.matches(&make_system()));
}

// === FilterMode tests ===

#[test]
fn test_filter_mode_equality() {
    assert_eq!(FilterMode::All, FilterMode::All);
    assert_eq!(FilterMode::Protocol, FilterMode::Protocol);
    assert_eq!(FilterMode::Debug, FilterMode::Debug);
    assert_ne!(FilterMode::All, FilterMode::Protocol);
}
