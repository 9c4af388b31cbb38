//! What a line of the log pane says: the timestamp, a marker for the
//! direction or level, the message fitted to the pane, and the size of
//! protocol messages. Colours and drawing are left to the terminal front end.

use vstd::prelude::*;
use vstd::utf8::{decode_utf8, encode_utf8, is_char_boundary};
use crate::logging::entry::{Direction, LogEntry, LogKind, LogLevel};
use crate::text::{decimal, push_char, push_decimal};
use crate::ui::layout::{cut_at, pad_or_truncate, sat_sub, spaces};

verus! {

/// Columns taken by everything but the message.
pub const FIXED_COLUMNS: usize = 30;

/// Which colour the marker of a line takes.
#[derive(Debug, Clone, Copy, PartialEq, Eq, Structural)]
pub enum MarkerKind {
    Incoming,
    Outgoing,
    Level(Option<LogLevel>),
    System,
}

/// The parts of one log line.
#[derive(Debug, Clone)]
pub struct LogLineView {
    /// Two spaces, the timestamp, a space.
    pub time: String,
    pub marker: String,
    pub marker_kind: MarkerKind,
    /// The message, fitted to the message column.
    pub text: String,
    /// For protocol messages, the size right-aligned in six columns and " B".
    pub size: Option<String>,
}

/// Text fitted to a column of `width`, as `pad_or_truncate` fits it.
pub open spec fn fitted(text: Seq<char>, width: usize) -> Seq<char> {
    let b = encode_utf8(text);
    if (b.len() as usize) <= width {
        text + spaces(sat_sub(width as int, text.len() as int) as nat)
    } else if width > 3 {
        decode_utf8(b.take(cut_at(width))) + "..."@
    } else {
        decode_utf8(b.take(cut_at(width)))
    }
}

/// Text that can be fitted to `width`: when it is cut, the cut falls on a
/// character boundary.
pub open spec fn fits(text: Seq<char>, width: usize) -> bool {
    (encode_utf8(text).len() as usize) > width ==> is_char_boundary(encode_utf8(text), cut_at(width))
}

/// The message of an entry: the message name of a protocol entry, the text
/// of the others.
pub open spec fn message_of(e: LogEntry) -> Seq<char> {
    match e.kind {
        LogKind::Protocol { message_name, .. } => message_name@,
        LogKind::Debug { message, .. } => message@,
        LogKind::System { message } => message@,
    }
}

pub open spec fn spec_level_label(level: Option<LogLevel>) -> Seq<char> {
    match level {
        Some(LogLevel::Debug) => "[DBG]"@,
        Some(LogLevel::Info) => "[INF]"@,
        Some(LogLevel::Warn) => "[WRN]"@,
        Some(LogLevel::Error) => "[ERR]"@,
        None => "     "@,
    }
}

/// `n` right-aligned in six columns, then " B".
pub open spec fn size_text(n: nat) -> Seq<char> {
    spaces(sat_sub(6, decimal(n).len() as int) as nat) + decimal(n) + " B"@
}

/// The line of an entry in a pane `max_width` columns wide.
pub open spec fn is_log_line(l: LogLineView, e: LogEntry, max_width: usize) -> bool {
    let w = sat_sub(max_width as int, FIXED_COLUMNS as int) as usize;
    &&& l.time@ == "  "@ + e.timestamp@ + " "@
    &&& l.text@ == fitted(message_of(e), w)
    &&& match e.kind {
        LogKind::Protocol { direction, size, .. } => {
            &&& l.marker@ == if direction == Direction::In {
                " ← "@
            } else {
                " → "@
            }
            &&& l.marker_kind == if direction == Direction::In {
                MarkerKind::Incoming
            } else {
                MarkerKind::Outgoing
            }
            &&& l.size matches Some(s) && s@ == size_text(size as nat)
        },
        LogKind::Debug { level, .. } => {
            &&& l.marker@ == spec_level_label(level) + " "@
            &&& l.marker_kind == MarkerKind::Level(level)
            &&& l.size is None
        },
        LogKind::System { .. } => {
            &&& l.marker@ == "      "@
            &&& l.marker_kind == MarkerKind::System
            &&& l.size is None
        },
    }
}

fn fit(text: &String, width: usize) -> (s: String)
    requires
        fits(text@, width),
    ensures
        s@ == fitted(text@, width),
{
    pad_or_truncate(text.as_str(), width)
}

fn level_label(level: Option<LogLevel>) -> (s: &'static str)
    ensures
        s@ == spec_level_label(level),
{
    match level {
        Some(LogLevel::Debug) => "[DBG]",
        Some(LogLevel::Info) => "[INF]",
        Some(LogLevel::Warn) => "[WRN]",
        Some(LogLevel::Error) => "[ERR]",
        None => "     ",
    }
}

fn right_aligned_size(n: usize) -> (s: String)
    ensures
        s@ == size_text(n as nat),
{
    let mut digits = String::new();
    push_decimal(&mut digits, n as u64);
    let len = digits.as_str().unicode_len();
    let mut s = String::new();
    let mut i: usize = len;
    while i < 6
        invariant
            len == decimal(n as nat).len(),
            len <= i <= 6 || (i == len && len > 6),
            s@ == spaces((i - len) as nat),
        decreases 6 - i,
    {
        push_char(&mut s, ' ');
        assert(spaces((i + 1 - len) as nat) =~= spaces((i - len) as nat).push(' '));
        i = i + 1;
    }
    proof {
        if len > 6 {
            assert(spaces(0) =~= Seq::<char>::empty());
        }
    }
    s.append(digits.as_str());
    s.append(" B");
    proof {
        reveal_strlit(" B");
    }
    assert(s@ =~= size_text(n as nat));
    s
}

/// The line of an entry in a pane `max_width` columns wide. A message that
/// would be cut inside a character is left out.
pub fn log_line(entry: &LogEntry, max_width: usize) -> (l: LogLineView)
    requires
        fits(message_of(*entry), sat_sub(max_width as int, FIXED_COLUMNS as int) as usize),
    ensures
        is_log_line(l, *entry, max_width),
{
    let w: usize = if max_width > FIXED_COLUMNS {
        max_width - FIXED_COLUMNS
    } else {
        0
    };
    let mut time = String::from_str("  ");
    time.append(entry.timestamp.as_str());
    time.append(" ");
    proof {
        reveal_strlit("  ");
        reveal_strlit(" ");
        reveal_strlit(" ← ");
        reveal_strlit(" → ");
        reveal_strlit("      ");
        reveal_strlit("[DBG]");
        reveal_strlit("[INF]");
        reveal_strlit("[WRN]");
        reveal_strlit("[ERR]");
        reveal_strlit("     ");
    }
    assert(time@ =~= "  "@ + entry.timestamp@ + " "@);
    match &entry.kind {
        LogKind::Protocol { direction, message_name, size } => {
            let (marker, kind) = match direction {
                Direction::In => (String::from_str(" ← "), MarkerKind::Incoming),
                Direction::Out => (String::from_str(" → "), MarkerKind::Outgoing),
            };
            LogLineView {
                time,
                marker,
                marker_kind: kind,
                text: fit(message_name, w),
                size: Some(right_aligned_size(*size)),
            }
        },
        LogKind::Debug { level, message } => {
            let mut marker = String::from_str(level_label(*level));
            marker.append(" ");
            LogLineView {
                time,
                marker,
                marker_kind: MarkerKind::Level(*level),
                text: fit(message, w),
                size: None,
            }
        },
        LogKind::System { message } => LogLineView {
            time,
            marker: String::from_str("      "),
            marker_kind: MarkerKind::System,
            text: fit(message, w),
            size: None,
        },
    }
}

/// A filter choice in the filter bar: `[key] label` when active, ` key  label`
/// otherwise.
pub fn filter_button_text(key: &str, label: &str, active: bool) -> (s: String)
    ensures
        s@ == if active {
            "["@ + key@ + "] "@ + label@
        } else {
            " "@ + key@ + "  "@ + label@
        },
{
    proof {
        reveal_strlit("[");
        reveal_strlit("] ");
        reveal_strlit(" ");
        reveal_strlit("  ");
    }
    if active {
        let mut s = String::from_str("[");
        s.append(key);
        s.append("] ");
        s.append(label);
        assert(s@ =~= "["@ + key@ + "] "@ + label@);
        s
    } else {
        let mut s = String::from_str(" ");
        s.append(key);
        s.append("  ");
        s.append(label);
        assert(s@ =~= " "@ + key@ + "  "@ + label@);
        s
    }
}

/// The key part of a filter choice in the sidebar: ` [key] ` when active,
/// `  key  ` otherwise; the label follows it.
pub fn sidebar_key_text(key: &str, active: bool) -> (s: String)
    ensures
        s@ == if active {
            " ["@ + key@ + "] "@
        } else {
            "  "@ + key@ + "  "@
        },
{
    proof {
        reveal_strlit(" [");
        reveal_strlit("] ");
        reveal_strlit("  ");
    }
    if active {
        let mut s = String::from_str(" [");
        s.append(key);
        s.append("] ");
        assert(s@ =~= " ["@ + key@ + "] "@);
        s
    } else {
        let mut s = String::from_str("  ");
        s.append(key);
        s.append("  ");
        assert(s@ =~= "  "@ + key@ + "  "@);
        s
    }
}

} // verus!
