//! Rotating file log for daemon mode: which entries are written, the line
//! each becomes, and when the file is flushed and rotated. The writing thread
//! and the file operations live outside the library.

use vstd::prelude::*;
use crate::logging::entry::{Direction, LogEntry, LogKind, LogLevel};
use crate::text::{decimal, push_decimal};

verus! {

#[derive(Debug, Clone, Copy)]
pub struct FileLogFilter {
    pub include_protocol: bool,
    pub include_debug: bool,
    pub include_system: bool,
}

impl FileLogFilter {
    /// Whether entries of this kind go to the file.
    pub fn should_write(&self, entry: &LogEntry) -> (r: bool)
        ensures
            r == match entry.kind {
                LogKind::Protocol { .. } => self.include_protocol,
                LogKind::Debug { .. } => self.include_debug,
                LogKind::System { .. } => self.include_system,
            },
    {
        match &entry.kind {
            LogKind::Protocol { .. } => self.include_protocol,
            LogKind::Debug { .. } => self.include_debug,
            LogKind::System { .. } => self.include_system,
        }
    }
}

/// The line an entry is written to the file as.
pub open spec fn file_line(e: LogEntry) -> Seq<char> {
    match e.kind {
        LogKind::System { message } => e.timestamp@ + " [SYS] "@ + message@,
        LogKind::Debug { level, message } => {
            let tag = match level {
                Some(LogLevel::Debug) => "[DEBUG]"@,
                Some(LogLevel::Info) => "[INFO]"@,
                Some(LogLevel::Warn) => "[WARN]"@,
                Some(LogLevel::Error) => "[ERROR]"@,
                None => "[LOG]"@,
            };
            e.timestamp@ + " "@ + tag + " "@ + message@
        },
        LogKind::Protocol { direction, message_name, size } => {
            let dir = match direction {
                Direction::In => "IN"@,
                Direction::Out => "OUT"@,
            };
            e.timestamp@ + " [PROTO] "@ + dir + " "@ + message_name@ + " ("@ + decimal(size as nat)
                + " B)"@
        },
    }
}

/// Formats an entry as a line of the log file.
pub fn format_entry(entry: &LogEntry) -> (s: String)
    ensures
        s@ == file_line(*entry),
{
    let mut out = String::new();
    out.append(entry.timestamp.as_str());
    match &entry.kind {
        LogKind::System { message } => {
            out.append(" [SYS] ");
            out.append(message.as_str());
        },
        LogKind::Debug { level, message } => {
            out.append(" ");
            match level {
                Some(LogLevel::Debug) => out.append("[DEBUG]"),
                Some(LogLevel::Info) => out.append("[INFO]"),
                Some(LogLevel::Warn) => out.append("[WARN]"),
                Some(LogLevel::Error) => out.append("[ERROR]"),
                None => out.append("[LOG]"),
            }
            out.append(" ");
            out.append(message.as_str());
        },
        LogKind::Protocol { direction, message_name, size } => {
            out.append(" [PROTO] ");
            match direction {
                Direction::In => out.append("IN"),
                Direction::Out => out.append("OUT"),
            }
            out.append(" ");
            out.append(message_name.as_str());
            out.append(" (");
            push_decimal(&mut out, *size as u64);
            out.append(" B)");
        },
    }
    assert(out@ =~= file_line(*entry));
    out
}

/// Settings of the file logger: where the active file lives, when it is
/// rotated, how many files are kept, how often writes are flushed and how
/// many entries may wait in its queue.
#[derive(Debug, Clone)]
pub struct FileLoggerConfig {
    pub path: String,
    pub max_bytes: u64,
    pub max_files: usize,
    pub flush_interval_ms: u64,
    pub channel_capacity: usize,
}

/// Smallest file size that triggers rotation, in bytes.
pub const MIN_MAX_BYTES: u64 = 1024;
/// Flush interval used when none is configured, in milliseconds.
pub const DEFAULT_FLUSH_INTERVAL_MS: u64 = 250;

/// Writing state of the log file: its size, whether writes await a flush,
/// and the limits it runs under.
pub struct LogFileState {
    pub size: u64,
    pub dirty: bool,
    pub max_bytes: u64,
    pub max_files: usize,
    pub flush_interval_ms: u64,
}

/// What to do after a line has been written.
#[derive(Debug, Clone, Copy, PartialEq, Eq, Structural)]
pub enum AfterWrite {
    Continue,
    /// Flush, rotate the files and reopen the active one truncated.
    Rotate,
}

impl LogFileState {
    /// Limits as configured, raised to a usable minimum: at least 1024 bytes
    /// per file, at least one file kept, and a 250 ms flush interval when 0.
    pub fn new(start_size: u64, max_bytes: u64, max_files: usize, flush_interval_ms: u64) -> (s: LogFileState)
        ensures
            s.size == start_size,
            !s.dirty,
            s.max_bytes == if max_bytes < MIN_MAX_BYTES {
                MIN_MAX_BYTES
            } else {
                max_bytes
            },
            s.max_files == if max_files < 1 {
                1
            } else {
                max_files
            },
            s.flush_interval_ms == if flush_interval_ms == 0 {
                DEFAULT_FLUSH_INTERVAL_MS
            } else {
                flush_interval_ms
            },
    {
        LogFileState {
            size: start_size,
            dirty: false,
            max_bytes: if max_bytes < MIN_MAX_BYTES {
                MIN_MAX_BYTES
            } else {
                max_bytes
            },
            max_files: if max_files < 1 {
                1
            } else {
                max_files
            },
            flush_interval_ms: if flush_interval_ms == 0 {
                DEFAULT_FLUSH_INTERVAL_MS
            } else {
                flush_interval_ms
            },
        }
    }

    /// Records a line write: when it succeeded the size grows by the line and
    /// its newline (saturating) and a flush is due. Rotation is due once the
    /// size reaches the limit.
    pub fn after_write(&mut self, line_bytes: usize, written: bool) -> (a: AfterWrite)
        ensures
            final(self).size == if written {
                if old(self).size + line_bytes + 1 > u64::MAX {
                    u64::MAX as int
                } else {
                    old(self).size + line_bytes + 1
                }
            } else {
                old(self).size as int
            },
            final(self).dirty == (old(self).dirty || written),
            final(self).max_bytes == old(self).max_bytes,
            final(self).max_files == old(self).max_files,
            final(self).flush_interval_ms == old(self).flush_interval_ms,
            a == if final(self).size >= final(self).max_bytes {
                AfterWrite::Rotate
            } else {
                AfterWrite::Continue
            },
    {
        if written {
            let grow: u64 = if line_bytes as u64 == u64::MAX {
                u64::MAX
            } else {
                line_bytes as u64 + 1
            };
            self.size = self.size.saturating_add(grow);
            self.dirty = true;
        }
        if self.size >= self.max_bytes {
            AfterWrite::Rotate
        } else {
            AfterWrite::Continue
        }
    }

    /// The active file was rotated and reopened empty.
    pub fn after_rotation(&mut self)
        ensures
            final(self).size == 0,
            !final(self).dirty,
            final(self).max_bytes == old(self).max_bytes,
            final(self).max_files == old(self).max_files,
            final(self).flush_interval_ms == old(self).flush_interval_ms,
    {
        self.size = 0;
        self.dirty = false;
    }

    /// No entry arrived for a flush interval: a flush is due when writes are
    /// pending and the last flush is at least an interval old. The state
    /// counts as flushed when it is.
    pub fn on_idle(&mut self, since_flush_ms: u64) -> (flush: bool)
        ensures
            flush == (old(self).dirty && since_flush_ms >= old(self).flush_interval_ms),
            final(self).dirty == (old(self).dirty && !flush),
            final(self).size == old(self).size,
            final(self).max_bytes == old(self).max_bytes,
            final(self).max_files == old(self).max_files,
            final(self).flush_interval_ms == old(self).flush_interval_ms,
    {
        if self.dirty && since_flush_ms >= self.flush_interval_ms {
            self.dirty = false;
            true
        } else {
            false
        }
    }
}

/// The name of the `i`-th rotated file: `<name>.<i>`.
pub open spec fn numbered(name: Seq<char>, i: nat) -> Seq<char> {
    name + "."@ + decimal(i)
}

/// The file operations of one rotation, in order: remove the oldest file,
/// then rename each of the others one number up, ending with the active
/// file becoming `<name>.1`.
pub struct RotationPlan {
    pub remove: String,
    pub renames: Vec<(String, String)>,
}

fn numbered_name(name: &str, i: usize) -> (s: String)
    ensures
        s@ == numbered(name@, i as nat),
{
    let mut s = name.to_owned();
    s.append(".");
    push_decimal(&mut s, i as u64);
    proof {
        reveal_strlit(".");
    }
    s
}

/// How to rotate `name` keeping `max_files` old files: drop
/// `<name>.<max_files>`, move `<name>.<i>` to `<name>.<i+1>` from the highest
/// `i` down, then the active file to `<name>.1`. Nothing when no old file
/// is kept.
pub fn rotation_plan(name: &str, max_files: usize) -> (p: Option<RotationPlan>)
    ensures
        (max_files == 0) == (p is None),
        p matches Some(plan) ==> {
            &&& plan.remove@ == numbered(name@, max_files as nat)
            &&& plan.renames@.len() == max_files
            &&& forall|k: int|
                0 <= k < max_files - 1 ==> (#[trigger] plan.renames@[k]).0@ == numbered(
                    name@,
                    (max_files - 1 - k) as nat,
                ) && plan.renames@[k].1@ == numbered(name@, (max_files - k) as nat)
            &&& plan.renames@[max_files - 1].0@ == name@
            &&& plan.renames@[max_files - 1].1@ == numbered(name@, 1)
        },
{
    if max_files == 0 {
        return None;
    }
    let remove = numbered_name(name, max_files);
    let mut renames: Vec<(String, String)> = Vec::new();
    let mut k: usize = 0;
    while k + 1 < max_files
        invariant
            max_files > 0,
            k < max_files,
            renames@.len() == k,
            forall|j: int|
                0 <= j < k ==> (#[trigger] renames@[j]).0@ == numbered(name@, (max_files - 1 - j) as nat)
                    && renames@[j].1@ == numbered(name@, (max_files - j) as nat),
        decreases max_files - k,
    {
        let i = max_files - 1 - k;
        renames.push((numbered_name(name, i), numbered_name(name, i + 1)));
        k = k + 1;
    }
    renames.push((name.to_owned(), numbered_name(name, 1)));
    Some(RotationPlan { remove, renames })
}

} // verus!
