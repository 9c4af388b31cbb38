use oc_bridge::logging::{Direction, LogEntry, LogKind, LogLevel, LogStore};

fn make_system_log(msg: &str) -> LogEntry {
    LogEntry::system(msg)
}

fn make_protocol_log(name: &str, dir: Direction) -> LogEntry {
    match dir {
        Direction::In => LogEntry::protocol_in(name, 10),
        Direction::Out => LogEntry::protocol_out(name, 10),
    }
}

#[test]
fn test_add_rotates_when_full() {
    let mut store = LogStore::new(3);
    store.add(make_system_log("1"));
    store.add(make_system_log("2"));
    store.add(make_system_log("3"));
    assert_eq!(store.entries().len(), 3);

    store.add(make_system_log("4"));
    assert_eq!(store.entries().len(), 3);

    if let LogKind::System { message } = &store.entries().front().unwrap().kind {
        assert_eq!(message, "2");
    } else {
        panic!("Expected System log");
    }
}

#[test]
fn store_test_filter_protocol_only() {
    let mut store = LogStore::new(10);
    store.add(make_system_log("sys"));
    store.add(make_protocol_log("NoteOn", Direction::In));
    store.add(LogEntry::debug_log(Some(LogLevel::Info), "debug"));

    store.set_filter_protocol_only();
    assert_eq!(store.filtered_count(), 1);
}

#[test]
fn store_test_filter_debug_only() {
    let mut store = LogStore::new(10);
    store.add(make_system_log("sys"));
    store.add(make_protocol_log("NoteOn", Direction::In));
    store.add(LogEntry::debug_log(Some(LogLevel::Info), "debug"));

    store.set_filter_debug_only();
    assert_eq!(store.filtered_count(), 1);
}

#[test]
fn test_scroll_up_stops_at_zero() {
    let mut store = LogStore::new(10);
    store.add(make_system_log("1"));
    store.add(make_system_log("2"));

    assert_eq!(store.scroll_position(), 1);
    store.scroll_up();
    assert_eq!(store.scroll_position(), 0);
    store.scroll_up();
    assert_eq!(store.scroll_position(), 0);
}

#[test]
fn test_scroll_down_stops_at_max() {
    let mut store = LogStore::new(10);
    store.add(make_system_log("1"));
    store.add(make_system_log("2"));
    store.scroll_to_top();
    assert_eq!(store.scroll_position(), 0);

    store.scroll_down();
    assert_eq!(store.scroll_position(), 1);
    store.scroll_down();
    assert_eq!(store.scroll_position(), 1);
}

#[test]
fn test_to_text_formatting() {
    let mut store = LogStore::new(10);
    store.add(make_system_log("Hello"));

    let text = store.to_text();
    assert!(text.contains("[SYS]"));
    assert!(text.contains("Hello"));
}

#[test]
fn test_to_text_limited() {
    let mut store = LogStore::new(10);
    store.add(make_system_log("1"));
    store.add(make_system_log("2"));
    store.add(make_system_log("3"));

    let text = store.to_text_limited(2);
    let lines: Vec<&str> = text.lines().collect();
    assert_eq!(lines.len(), 2);
    assert!(lines[0].contains("2"));
    assert!(lines[1].contains("3"));
}

#[test]
fn test_clear() {
    let mut store = LogStore::new(10);
    store.add(make_system_log("1"));
    store.add(make_system_log("2"));
    assert_eq!(store.scroll_position(), 1);

    store.clear();
    assert_eq!(store.entries().len(), 0);
    assert_eq!(store.scroll_position(), 0);
}

#[test]
fn test_toggle_pause() {
    let mut store = LogStore::new(10);

    assert!(!store.is_paused());
    let paused = store.toggle_pause();
    assert!(paused);
    assert!(store.is_paused());

    let paused = store.toggle_pause();
    assert!(!paused);
    assert!(!store.is_paused());
}

#[test]
fn test_filtered_cache_incremental() {
    let mut store = LogStore::new(10);
    assert_eq!(store.filtered_count(), 0);

    store.add(make_system_log("1"));
    assert_eq!(store.filtered_count(), 1);

    store.add(make_system_log("2"));
    assert_eq!(store.filtered_count(), 2);

    store.set_filter_protocol_only();
    assert_eq!(store.filtered_count(), 0);

    store.add(make_protocol_log("Test", Direction::In));
    assert_eq!(store.filtered_count(), 1);
}

#[test]
fn test_filtered_cache_rotation() {
    let mut store = LogStore::new(3);
    store.add(make_system_log("1"));
    store.add(make_system_log("2"));
    store.add(make_system_log("3"));
    assert_eq!(store.filtered_count(), 3);

    store.add(make_system_log("4"));
    assert_eq!(store.filtered_count(), 3);
}

#[test]
fn test_filtered_cache_clear() {
    let mut store = LogStore::new(10);
    store.add(make_system_log("1"));
    store.add(make_system_log("2"));
    assert_eq!(store.filtered_count(), 2);

    store.clear();
    assert_eq!(store.filtered_count(), 0);
}

#[test]
fn store_with_zero_capacity_keeps_the_newest_entry() {
    let mut store = LogStore::new(0);
    store.add(make_system_log("a"));
    store.add(make_system_log("b"));
    assert_eq!(store.entries().len(), 1);
    assert_eq!(store.filtered_count(), 1);
}

#[test]
fn store_text_lines_have_exact_format() {
    let mut store = LogStore::new(10);
    let mut entry = make_protocol_log("NoteOn", Direction::Out);
    entry.timestamp = "12:00:00.000".to_string();
    store.add(entry);
    let mut entry = LogEntry::debug_log(None, "boot");
    entry.timestamp = "12:00:00.001".to_string();
    store.add(entry);
    assert_eq!(store.to_text(), "12:00:00.000 → NoteOn (10 B)\n12:00:00.001  boot");
    assert_eq!(store.to_text_limited(0), "");
}

#[test]
fn store_paused_keeps_scroll_and_resume_jumps_to_bottom() {
    let mut store = LogStore::new(2);
    store.add(make_system_log("1"));
    store.add(make_system_log("2"));
    store.toggle_pause();
    assert_eq!(store.scroll_position(), 1);
    store.add(make_system_log("3"));
    assert_eq!(store.scroll_position(), 0);
    store.toggle_pause();
    assert_eq!(store.scroll_position(), 1);
}

#[test]
fn store_debug_level_filter_counts_matching_entries() {
    let mut store = LogStore::new(10);
    store.add(LogEntry::debug_log(Some(LogLevel::Warn), "w"));
    store.add(LogEntry::debug_log(Some(LogLevel::Info), "i"));
    store.add(LogEntry::debug_log(None, "n"));
    store.set_debug_level(Some(LogLevel::Warn));
    assert_eq!(store.filtered_count(), 1);
    assert_eq!(store.scroll_position(), 0);
    store.set_debug_level(None);
    assert_eq!(store.filtered_count(), 3);
    store.set_filter_all();
    assert_eq!(store.filtered_count(), 3);
}

#[test]
fn unlimited_text_is_the_whole_text() {
    let mut store = LogStore::new(3);
    for m in ["1", "2", "3", "4"] {
        store.add(LogEntry::system(m));
    }
    assert_eq!(store.entries().len(), 3);
    assert_eq!(store.to_text_limited(usize::MAX), store.to_text());
    assert_eq!(store.to_text().lines().count(), 3);
}

#[test]
fn entries_are_stamped_with_the_time_of_day() {
    let e = LogEntry::system("x");
    let t: Vec<char> = e.timestamp.chars().collect();
    assert_eq!(t.len(), 12);
    for (i, c) in t.iter().enumerate() {
        match i {
            2 | 5 => assert_eq!(*c, ':'),
            8 => assert_eq!(*c, '.'),
            _ => assert!(c.is_ascii_digit()),
        }
    }
}

#[test]
fn paused_view_moves_up_when_a_shown_entry_is_dropped() {
    // The dropped entry is shown, the new one is not: the view moves up.
    let mut store = LogStore::new(2);
    store.set_filter_protocol_only();
    store.add(LogEntry::protocol_in("A", 1));
    store.add(LogEntry::protocol_in("B", 1));
    assert_eq!(store.scroll_position(), 1);
    store.toggle_pause();
    store.add(make_system_log("s"));
    assert_eq!(store.scroll_position(), 0);

    // The dropped entry is hidden, the new one is shown: the view stays.
    let mut store = LogStore::new(3);
    store.set_filter_protocol_only();
    store.add(make_system_log("x"));
    store.add(LogEntry::protocol_in("A", 1));
    store.add(LogEntry::protocol_in("B", 1));
    assert_eq!(store.scroll_position(), 1);
    store.toggle_pause();
    store.add(LogEntry::protocol_in("C", 1));
    assert_eq!(store.scroll_position(), 1);
}
