//! Log entry types: protocol messages, firmware debug logs and bridge
//! system messages, each stamped with the local time of day.

use vstd::prelude::*;

verus! {

/// Log level for debug messages (matches OC_LOG levels).
#[derive(Debug, Clone, Copy, PartialEq, Eq, Structural)]
pub enum LogLevel {
    Debug,
    Info,
    Warn,
    Error,
}

/// Direction of protocol messages.
#[derive(Debug, Clone, Copy, PartialEq, Eq, Structural)]
pub enum Direction {
    /// Controller to host.
    In,
    /// Host to controller.
    Out,
}

/// Type of log entry.
#[derive(Debug, Clone)]
pub enum LogKind {
    /// Protocol message (Serial8/COBS frame).
    Protocol { direction: Direction, message_name: String, size: usize },
    /// Debug log from firmware (OC_LOG_* or Serial.print).
    Debug { level: Option<LogLevel>, message: String },
    /// System message from the bridge itself.
    System { message: String },
}

/// Log entry from bridge operations.
#[derive(Debug, Clone)]
pub struct LogEntry {
    /// Local time as HH:MM:SS.mmm.
    pub timestamp: String,
    pub kind: LogKind,
}

/// Whether `c` is an ASCII digit.
pub open spec fn is_clock_digit(c: char) -> bool {
    '0' <= c && c <= '9'
}

/// The shape of a local time `HH:MM:SS.mmm`: two digits, a colon, two digits,
/// a colon, two digits, a dot and three digits.
pub open spec fn is_time_of_day(s: Seq<char>) -> bool {
    &&& s.len() == 12
    &&& s[2] == ':' && s[5] == ':' && s[8] == '.'
    &&& forall|i: int| 0 <= i < 12 && i != 2 && i != 5 && i != 8 ==> is_clock_digit(#[trigger] s[i])
}

/// `chrono::Local::now()` formatted with `%H:%M:%S%.3f`. chrono writes `%H`,
/// `%M` and `%S` as two zero-padded digits and `%.3f` as a dot and exactly
/// three digits, so the result has the shape `HH:MM:SS.mmm`. Which time it
/// shows depends on the clock and the time zone and is not stated.
#[verifier::external_body]
fn now_timestamp() -> (s: String)
    ensures
        is_time_of_day(s@),
{
    chrono::Local::now().format("%H:%M:%S%.3f").to_string()
}

impl LogEntry {
    /// A system log entry.
    pub fn system(message: &str) -> (e: LogEntry)
        ensures
            e.kind matches LogKind::System { message: m } && m@ == message@,
            is_time_of_day(e.timestamp@),
    {
        LogEntry { timestamp: now_timestamp(), kind: LogKind::System { message: message.to_owned() } }
    }

    /// A protocol log entry for an incoming message.
    pub fn protocol_in(message_name: &str, size: usize) -> (e: LogEntry)
        ensures
            e.kind matches LogKind::Protocol { direction, message_name: m, size: s } && direction
                == Direction::In && m@ == message_name@ && s == size,
            is_time_of_day(e.timestamp@),
    {
        LogEntry {
            timestamp: now_timestamp(),
            kind: LogKind::Protocol {
                direction: Direction::In,
                message_name: message_name.to_owned(),
                size,
            },
        }
    }

    /// A protocol log entry for an outgoing message.
    pub fn protocol_out(message_name: &str, size: usize) -> (e: LogEntry)
        ensures
            e.kind matches LogKind::Protocol { direction, message_name: m, size: s } && direction
                == Direction::Out && m@ == message_name@ && s == size,
            is_time_of_day(e.timestamp@),
    {
        LogEntry {
            timestamp: now_timestamp(),
            kind: LogKind::Protocol {
                direction: Direction::Out,
                message_name: message_name.to_owned(),
                size,
            },
        }
    }

    /// A firmware debug log entry.
    pub fn debug_log(level: Option<LogLevel>, message: &str) -> (e: LogEntry)
        ensures
            e.kind matches LogKind::Debug { level: l, message: m } && l == level && m@ == message@,
            is_time_of_day(e.timestamp@),
    {
        LogEntry {
            timestamp: now_timestamp(),
            kind: LogKind::Debug { level, message: message.to_owned() },
        }
    }
}

} // verus!
