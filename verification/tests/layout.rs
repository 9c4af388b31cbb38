use oc_bridge::transport::serial::{LinkStatus, ReadHealth, ReadOutcome};
use oc_bridge::ui::layout::{is_wide, pad_or_truncate, popup_area, visible_range};

#[test]
fn columns_are_padded_or_cut() {
    assert_eq!(pad_or_truncate("ab", 5), "ab   ");
    assert_eq!(pad_or_truncate("abcdefgh", 6), "abc...");
    assert_eq!(pad_or_truncate("abcdef", 2), "ab");
    assert_eq!(pad_or_truncate("é", 2), "é ");
}

#[test]
fn log_window_ends_on_scroll_position() {
    assert_eq!(visible_range(30, 10, 31), (21, 31));
    assert_eq!(visible_range(3, 10, 31), (0, 10));
    assert_eq!(visible_range(0, 0, 0), (0, 0));
    assert!(is_wide(81));
    assert!(!is_wide(80));
}

#[test]
fn popup_is_centred_and_bounded() {
    assert_eq!(popup_area(100, 40), (26, 13, 48, 14));
    assert_eq!(popup_area(20, 10), (2, 2, 16, 6));
    assert_eq!(popup_area(3, 3), (1, 1, 0, 0));
}

#[test]
fn serial_link_is_lost_after_repeated_empty_reads() {
    let mut h = ReadHealth::new();
    for _ in 0..10 {
        assert_eq!(h.on_read(ReadOutcome::Empty), LinkStatus::Alive);
    }
    assert_eq!(h.on_read(ReadOutcome::Empty), LinkStatus::Lost);
    let mut h = ReadHealth::new();
    h.on_read(ReadOutcome::Empty);
    assert_eq!(h.on_read(ReadOutcome::TimedOut), LinkStatus::Alive);
    assert_eq!(h.on_read(ReadOutcome::Data), LinkStatus::Alive);
    assert_eq!(h.on_read(ReadOutcome::Failed), LinkStatus::Lost);
}

#[test]
fn fitted_ascii_text_is_exactly_the_column_width() {
    for text in ["", "a", "abcdef", "a much longer line of log text"] {
        for width in 0..12usize {
            assert_eq!(pad_or_truncate(text, width).chars().count(), width);
        }
    }
}

#[test]
fn log_window_past_the_end_is_empty() {
    assert_eq!(visible_range(50, 10, 5), (5, 5));
    assert_eq!(visible_range(40, 1, 5), (5, 5));
    assert_eq!(visible_range(usize::MAX, usize::MAX, 3), (1, 3));
    assert_eq!(visible_range(usize::MAX, 2, usize::MAX), (usize::MAX - 1, usize::MAX));
}
