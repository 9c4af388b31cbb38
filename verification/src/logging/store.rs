//! Log storage with filtering, scrolling and text export.
//!
//! A bounded ring of entries: the oldest entry leaves when a new one arrives
//! at capacity. The number of entries the filter lets through is cached and
//! kept exact by every operation.

use vstd::prelude::*;
use std::collections::VecDeque;
use crate::constants::AUTO_SCROLL_THRESHOLD;
use crate::logging::entry::{Direction, LogEntry, LogKind, LogLevel};
use crate::logging::filter::{FilterMode, LogFilter};
use crate::text::{decimal, push_decimal};

verus! {

// =============================================================================
// Specification
// =============================================================================

/// The entries of `s` that `filter` lets through, in order.
pub open spec fn filtered(filter: LogFilter, s: Seq<LogEntry>) -> Seq<LogEntry>
    decreases s.len(),
{
    if s.len() == 0 {
        Seq::empty()
    } else {
        let rest = filtered(filter, s.drop_last());
        if filter.spec_matches(s.last()) {
            rest.push(s.last())
        } else {
            rest
        }
    }
}

/// Number of entries of `s` that `filter` lets through.
pub open spec fn count_matching(filter: LogFilter, s: Seq<LogEntry>) -> nat {
    filtered(filter, s).len()
}

/// `n - 1`, stopping at zero.
pub open spec fn minus_one(n: nat) -> nat {
    if n == 0 {
        0
    } else {
        (n - 1) as nat
    }
}

/// Filtering keeps at most every entry.
pub proof fn lemma_filtered_len(filter: LogFilter, s: Seq<LogEntry>)
    ensures
        filtered(filter, s).len() <= s.len(),
    decreases s.len(),
{
    if s.len() > 0 {
        lemma_filtered_len(filter, s.drop_last());
    }
}

/// Filtering after a push filters the pushed entry alone.
pub proof fn lemma_filtered_push(filter: LogFilter, s: Seq<LogEntry>, e: LogEntry)
    ensures
        filtered(filter, s.push(e)) == if filter.spec_matches(e) {
            filtered(filter, s).push(e)
        } else {
            filtered(filter, s)
        },
{
    assert(s.push(e).drop_last() =~= s);
}

/// Dropping the first entry drops it from the filtered list when it matched.
pub proof fn lemma_filtered_drop_first(filter: LogFilter, s: Seq<LogEntry>)
    requires
        s.len() > 0,
    ensures
        filtered(filter, s) == if filter.spec_matches(s[0]) {
            seq![s[0]] + filtered(filter, s.drop_first())
        } else {
            filtered(filter, s.drop_first())
        },
    decreases s.len(),
{
    if s.len() == 1 {
        assert(s.drop_first() =~= Seq::<LogEntry>::empty());
        assert(s.drop_last() =~= Seq::<LogEntry>::empty());
        assert(filtered(filter, Seq::<LogEntry>::empty()) =~= Seq::<LogEntry>::empty());
        assert(seq![s[0]] + Seq::<LogEntry>::empty() =~= seq![s[0]]);
        assert(Seq::<LogEntry>::empty().push(s[0]) =~= seq![s[0]]);
    } else {
        lemma_filtered_drop_first(filter, s.drop_last());
        assert(s.drop_last().drop_first() =~= s.drop_first().drop_last());
        assert(s.drop_last()[0] == s[0]);
        assert(s.drop_first().last() == s.last());
        if filter.spec_matches(s[0]) {
            let a = filtered(filter, s.drop_first().drop_last());
            assert((seq![s[0]] + a).push(s.last()) =~= seq![s[0]] + a.push(s.last()));
        }
    }
}

/// The line a log entry is exported as.
pub open spec fn entry_text(e: LogEntry) -> Seq<char> {
    match e.kind {
        LogKind::Protocol { direction, message_name, size } => {
            let arrow = match direction {
                Direction::In => "←"@,
                Direction::Out => "→"@,
            };
            e.timestamp@ + " "@ + arrow + " "@ + message_name@ + " ("@ + decimal(size as nat)
                + " B)"@
        },
        LogKind::Debug { level, message } => {
            let tag = match level {
                Some(LogLevel::Debug) => "[DEBUG]"@,
                Some(LogLevel::Info) => "[INFO]"@,
                Some(LogLevel::Warn) => "[WARN]"@,
                Some(LogLevel::Error) => "[ERROR]"@,
                None => ""@,
            };
            e.timestamp@ + " "@ + tag + " "@ + message@
        },
        LogKind::System { message } => e.timestamp@ + " [SYS] "@ + message@,
    }
}

/// The lines of the entries, joined with newlines.
pub open spec fn join_lines(s: Seq<LogEntry>) -> Seq<char>
    decreases s.len(),
{
    if s.len() == 0 {
        Seq::empty()
    } else if s.len() == 1 {
        entry_text(s[0])
    } else {
        join_lines(s.drop_last()) + "\n"@ + entry_text(s.last())
    }
}

/// The exported line of a protocol entry starts with its timestamp and a
/// space, then shows the direction: a left arrow for an incoming message and
/// a right arrow for an outgoing one. So the two directions of the same
/// message export differently.
pub proof fn lemma_entry_text_arrow(e: LogEntry)
    requires
        e.kind is Protocol,
    ensures
        entry_text(e).take(e.timestamp@.len() as int) == e.timestamp@,
        entry_text(e)[e.timestamp@.len() as int] == ' ',
        entry_text(e)[e.timestamp@.len() + 1int] == match e.kind {
            LogKind::Protocol { direction: Direction::In, .. } => '\u{2190}',
            _ => '\u{2192}',
        },
{
    reveal_strlit(" ");
    reveal_strlit("←");
    reveal_strlit("→");
    let ts = e.timestamp@;
    let t = entry_text(e);
    if let LogKind::Protocol { direction, message_name, size } = e.kind {
        let arrow = match direction {
            Direction::In => "←"@,
            Direction::Out => "→"@,
        };
        let rest = " "@ + message_name@ + " ("@ + decimal(size as nat) + " B)"@;
        assert(t =~= ts + " "@ + arrow + rest);
        assert(t[ts.len() as int] == " "@[0]);
        assert(t[ts.len() + 1int] == arrow[0]);
        assert(t.take(ts.len() as int) =~= ts);
    }
}

/// Formats a log entry as one line of plain text.
pub fn format_log_entry_text(entry: &LogEntry) -> (s: String)
    ensures
        s@ == entry_text(*entry),
{
    let mut out = String::new();
    out.append(entry.timestamp.as_str());
    match &entry.kind {
        LogKind::Protocol { direction, message_name, size } => {
            out.append(" ");
            match direction {
                Direction::In => out.append("←"),
                Direction::Out => out.append("→"),
            }
            out.append(" ");
            out.append(message_name.as_str());
            out.append(" (");
            push_decimal(&mut out, *size as u64);
            out.append(" B)");
        },
        LogKind::Debug { level, message } => {
            out.append(" ");
            match level {
                Some(LogLevel::Debug) => out.append("[DEBUG]"),
                Some(LogLevel::Info) => out.append("[INFO]"),
                Some(LogLevel::Warn) => out.append("[WARN]"),
                Some(LogLevel::Error) => out.append("[ERROR]"),
                None => out.append(""),
            }
            out.append(" ");
            out.append(message.as_str());
        },
        LogKind::System { message } => {
            out.append(" [SYS] ");
            out.append(message.as_str());
        },
    }
    assert(out@ =~= entry_text(*entry));
    out
}

// =============================================================================
// Store
// =============================================================================

/// Log storage with filtering, scrolling, pause and text export.
pub struct LogStore {
    entries: VecDeque<LogEntry>,
    max_entries: usize,
    scroll: usize,
    auto_scroll: bool,
    filter: LogFilter,
    filter_mode: FilterMode,
    /// Number of entries the filter lets through.
    filtered_cache: usize,
    paused: bool,
}

impl LogStore {
    /// The stored entries, oldest first.
    pub closed spec fn spec_entries(&self) -> Seq<LogEntry> {
        self.entries@
    }

    pub closed spec fn spec_max_entries(&self) -> nat {
        self.max_entries as nat
    }

    pub closed spec fn spec_scroll(&self) -> nat {
        self.scroll as nat
    }

    pub closed spec fn spec_auto_scroll(&self) -> bool {
        self.auto_scroll
    }

    pub closed spec fn spec_filter(&self) -> LogFilter {
        self.filter
    }

    pub closed spec fn spec_filter_mode(&self) -> FilterMode {
        self.filter_mode
    }

    pub closed spec fn spec_paused(&self) -> bool {
        self.paused
    }

    /// The cached count is the number of matching entries, and the store
    /// holds at most its capacity (at least one entry when the capacity is 0).
    pub closed spec fn wf(&self) -> bool {
        &&& self.filtered_cache == count_matching(self.filter, self.entries@)
        &&& self.entries@.len() <= if self.max_entries == 0 {
            1
        } else {
            self.max_entries as nat
        }
    }

    /// Number of stored entries the current filter lets through.
    pub open spec fn spec_filtered_count(&self) -> nat {
        count_matching(self.spec_filter(), self.spec_entries())
    }

    /// An empty store of the given capacity, showing everything.
    pub fn new(max_entries: usize) -> (s: LogStore)
        ensures
            s.wf(),
            s.spec_entries() == Seq::<LogEntry>::empty(),
            s.spec_max_entries() == max_entries,
            s.spec_scroll() == 0,
            s.spec_auto_scroll(),
            s.spec_filter().is_default(),
            s.spec_filter_mode() == FilterMode::All,
            !s.spec_paused(),
    {
        LogStore {
            entries: VecDeque::with_capacity(max_entries),
            max_entries,
            scroll: 0,
            auto_scroll: true,
            filter: LogFilter::default(),
            filter_mode: FilterMode::All,
            filtered_cache: 0,
            paused: false,
        }
    }

    /// Adds an entry, dropping the oldest first when the store is full. The
    /// scroll follows the newest matching entry unless scrolled away or paused;
    /// while paused it moves up one line when the entry dropped from a full
    /// store was one the filter showed, so the view stays on the same lines.
    pub fn add(&mut self, entry: LogEntry)
        requires
            old(self).wf(),
        ensures
            final(self).wf(),
            final(self).spec_entries() == if old(self).spec_entries().len() >= old(self).spec_max_entries() && old(self).spec_entries().len() > 0 {
                old(self).spec_entries().drop_first().push(entry)
            } else {
                old(self).spec_entries().push(entry)
            },
            final(self).spec_filter() == old(self).spec_filter(),
            final(self).spec_filter_mode() == old(self).spec_filter_mode(),
            final(self).spec_max_entries() == old(self).spec_max_entries(),
            final(self).spec_paused() == old(self).spec_paused(),
            final(self).spec_auto_scroll() == old(self).spec_auto_scroll(),
            final(self).spec_scroll() == {
                let matched = old(self).spec_filter().spec_matches(entry);
                let full = old(self).spec_entries().len() >= old(self).spec_max_entries();
                let dropped_shown = old(self).spec_entries().len() > 0 && old(
                    self,
                ).spec_filter().spec_matches(old(self).spec_entries()[0]);
                if old(self).spec_auto_scroll() && matched && !old(self).spec_paused() {
                    minus_one(final(self).spec_filtered_count())
                } else if full && old(self).spec_paused() && dropped_shown {
                    minus_one(old(self).spec_scroll())
                } else {
                    old(self).spec_scroll()
                }
            },
    {
        let entry_matches_filter = self.filter.matches(&entry);
        proof {
            lemma_filtered_len(self.filter, self.entries@);
        }
        if self.entries.len() >= self.max_entries {
            let mut dropped_shown = false;
            if self.entries.len() > 0 {
                dropped_shown = self.filter.matches(&self.entries[0]);
                if dropped_shown {
                    if self.filtered_cache > 0 {
                        self.filtered_cache = self.filtered_cache - 1;
                    }
                }
                proof {
                    lemma_filtered_drop_first(self.filter, self.entries@);
                }
                let _ = self.entries.pop_front();
            }
            if self.paused && dropped_shown && self.scroll > 0 {
                self.scroll = self.scroll - 1;
            }
        }
        let ghost before = self.entries@;
        self.entries.push_back(entry);
        proof {
            lemma_filtered_push(self.filter, before, entry);
            lemma_filtered_len(self.filter, self.entries@);
        }
        if entry_matches_filter {
            self.filtered_cache = self.filtered_cache + 1;
        }
        if self.auto_scroll && entry_matches_filter && !self.paused {
            self.scroll = if self.filtered_cache > 0 {
                self.filtered_cache - 1
            } else {
                0
            };
        }
    }

    /// Removes every entry and resets the scroll.
    pub fn clear(&mut self)
        requires
            old(self).wf(),
        ensures
            final(self).wf(),
            final(self).spec_entries() == Seq::<LogEntry>::empty(),
            final(self).spec_scroll() == 0,
            final(self).spec_filter() == old(self).spec_filter(),
            final(self).spec_filter_mode() == old(self).spec_filter_mode(),
            final(self).spec_max_entries() == old(self).spec_max_entries(),
            final(self).spec_paused() == old(self).spec_paused(),
            final(self).spec_auto_scroll() == old(self).spec_auto_scroll(),
    {
        self.entries.clear();
        self.scroll = 0;
        self.filtered_cache = 0;
    }

    /// Scrolls up one line, stopping at the top, and stops following new entries.
    pub fn scroll_up(&mut self)
        requires
            old(self).wf(),
        ensures
            final(self).wf(),
            final(self).spec_scroll() == minus_one(old(self).spec_scroll()),
            !final(self).spec_auto_scroll(),
            final(self).spec_entries() == old(self).spec_entries(),
            final(self).spec_filter() == old(self).spec_filter(),
            final(self).spec_filter_mode() == old(self).spec_filter_mode(),
            final(self).spec_max_entries() == old(self).spec_max_entries(),
            final(self).spec_paused() == old(self).spec_paused(),
    {
        self.auto_scroll = false;
        if self.scroll > 0 {
            self.scroll = self.scroll - 1;
        }
    }

    /// Scrolls down one line, stopping at the last matching entry; following
    /// resumes once within `AUTO_SCROLL_THRESHOLD` lines of the bottom.
    pub fn scroll_down(&mut self)
        requires
            old(self).wf(),
        ensures
            final(self).wf(),
            final(self).spec_scroll() == if old(self).spec_scroll() < minus_one(
                old(self).spec_filtered_count(),
            ) {
                old(self).spec_scroll() + 1
            } else {
                old(self).spec_scroll()
            },
            final(self).spec_auto_scroll() == (old(self).spec_auto_scroll() || final(self).spec_scroll() + AUTO_SCROLL_THRESHOLD >= old(self).spec_filtered_count()),
            final(self).spec_entries() == old(self).spec_entries(),
            final(self).spec_filter() == old(self).spec_filter(),
            final(self).spec_filter_mode() == old(self).spec_filter_mode(),
            final(self).spec_max_entries() == old(self).spec_max_entries(),
            final(self).spec_paused() == old(self).spec_paused(),
    {
        let filtered_count = self.filtered_count();
        let last = if filtered_count > 0 {
            filtered_count - 1
        } else {
            0
        };
        if self.scroll < last {
            self.scroll = self.scroll + 1;
        }
        let threshold = if filtered_count > AUTO_SCROLL_THRESHOLD {
            filtered_count - AUTO_SCROLL_THRESHOLD
        } else {
            0
        };
        if self.scroll >= threshold {
            self.auto_scroll = true;
        }
    }

    /// Scrolls to the first line and stops following new entries.
    pub fn scroll_to_top(&mut self)
        requires
            old(self).wf(),
        ensures
            final(self).wf(),
            final(self).spec_scroll() == 0,
            !final(self).spec_auto_scroll(),
            final(self).spec_entries() == old(self).spec_entries(),
            final(self).spec_filter() == old(self).spec_filter(),
            final(self).spec_filter_mode() == old(self).spec_filter_mode(),
            final(self).spec_max_entries() == old(self).spec_max_entries(),
            final(self).spec_paused() == old(self).spec_paused(),
    {
        self.auto_scroll = false;
        self.scroll = 0;
    }

    /// Scrolls to the last matching entry and follows new entries again.
    pub fn scroll_to_bottom(&mut self)
        requires
            old(self).wf(),
        ensures
            final(self).wf(),
            final(self).spec_scroll() == minus_one(old(self).spec_filtered_count()),
            final(self).spec_auto_scroll(),
            final(self).spec_entries() == old(self).spec_entries(),
            final(self).spec_filter() == old(self).spec_filter(),
            final(self).spec_filter_mode() == old(self).spec_filter_mode(),
            final(self).spec_max_entries() == old(self).spec_max_entries(),
            final(self).spec_paused() == old(self).spec_paused(),
    {
        self.auto_scroll = true;
        let filtered_count = self.filtered_count();
        self.scroll = if filtered_count > 0 {
            filtered_count - 1
        } else {
            0
        };
    }

    /// Current scroll position.
    pub fn scroll_position(&self) -> (p: usize)
        ensures
            p == self.spec_scroll(),
    {
        self.scroll
    }

    /// Toggles the pause and returns the new state. Pausing stops following new
    /// entries; resuming scrolls to the bottom and follows again.
    pub fn toggle_pause(&mut self) -> (paused: bool)
        requires
            old(self).wf(),
        ensures
            final(self).wf(),
            paused == !old(self).spec_paused(),
            final(self).spec_paused() == paused,
            final(self).spec_auto_scroll() == !paused,
            final(self).spec_scroll() == if paused {
                old(self).spec_scroll()
            } else {
                minus_one(old(self).spec_filtered_count())
            },
            final(self).spec_entries() == old(self).spec_entries(),
            final(self).spec_filter() == old(self).spec_filter(),
            final(self).spec_filter_mode() == old(self).spec_filter_mode(),
            final(self).spec_max_entries() == old(self).spec_max_entries(),
    {
        self.paused = !self.paused;
        if self.paused {
            self.auto_scroll = false;
        } else {
            self.auto_scroll = true;
            self.scroll_to_bottom();
        }
        self.paused
    }

    /// Whether the store is paused.
    pub fn is_paused(&self) -> (p: bool)
        ensures
            p == self.spec_paused(),
    {
        self.paused
    }

    /// Counts the stored entries the filter lets through.
    fn count_filtered(&self) -> (n: usize)
        ensures
            n == count_matching(self.filter, self.entries@),
    {
        let len = self.entries.len();
        let mut n: usize = 0;
        let mut i: usize = 0;
        while i < len
            invariant
                len == self.entries@.len(),
                i <= len,
                n == count_matching(self.filter, self.entries@.take(i as int)),
                n <= i,
            decreases len - i,
        {
            proof {
                assert(self.entries@.take(i + 1) =~= self.entries@.take(i as int).push(
                    self.entries@[i as int],
                ));
                lemma_filtered_push(self.filter, self.entries@.take(i as int), self.entries@[i as int]);
            }
            if self.filter.matches(&self.entries[i]) {
                n = n + 1;
            }
            i = i + 1;
        }
        assert(self.entries@.take(len as int) =~= self.entries@);
        n
    }

    /// Changes the filter mode: protocol only, debug only, or everything (which
    /// also clears the message-type list). Both directions become visible; the
    /// count is recomputed and the view jumps to the last matching entry.
    pub fn set_filter(&mut self, mode: FilterMode)
        requires
            old(self).wf(),
        ensures
            final(self).wf(),
            final(self).spec_filter().show_protocol == (mode != FilterMode::Debug),
            final(self).spec_filter().show_debug == (mode != FilterMode::Protocol),
            final(self).spec_filter().show_system == (mode == FilterMode::All),
            final(self).spec_filter().show_direction_in,
            final(self).spec_filter().show_direction_out,
            final(self).spec_filter().message_types@ == if mode == FilterMode::All {
                Seq::<String>::empty()
            } else {
                old(self).spec_filter().message_types@
            },
            final(self).spec_filter().debug_level == old(self).spec_filter().debug_level,
            forall|e: LogEntry| #[trigger]
                final(self).spec_filter().spec_matches(e) ==> match mode {
                    FilterMode::Protocol => e.kind is Protocol,
                    FilterMode::Debug => e.kind is Debug,
                    FilterMode::All => true,
                },
            mode == FilterMode::All && final(self).spec_filter().debug_level is None ==> forall|
                e: LogEntry,
            | #[trigger] final(self).spec_filter().spec_matches(e),
            final(self).spec_filter_mode() == mode,
            final(self).spec_scroll() == minus_one(final(self).spec_filtered_count()),
            final(self).spec_auto_scroll(),
            final(self).spec_entries() == old(self).spec_entries(),
            final(self).spec_max_entries() == old(self).spec_max_entries(),
            final(self).spec_paused() == old(self).spec_paused(),
    {
        let (protocol, debug, system) = match mode {
            FilterMode::Protocol => (true, false, false),
            FilterMode::Debug => (false, true, false),
            FilterMode::All => (true, true, true),
        };
        self.filter.show_protocol = protocol;
        self.filter.show_debug = debug;
        self.filter.show_system = system;
        self.filter.show_direction_in = true;
        self.filter.show_direction_out = true;
        if mode == FilterMode::All {
            self.filter.message_types.clear();
        }
        self.filter_mode = mode;
        self.filtered_cache = self.count_filtered();
        self.reset_scroll_for_filter();
    }

    /// Shows only protocol messages.
    pub fn set_filter_protocol_only(&mut self)
        requires
            old(self).wf(),
        ensures
            final(self).wf(),
            final(self).spec_filter_mode() == FilterMode::Protocol,
            final(self).spec_filter().show_protocol,
            !final(self).spec_filter().show_debug,
            !final(self).spec_filter().show_system,
            final(self).spec_filter().show_direction_in,
            final(self).spec_filter().show_direction_out,
            final(self).spec_filter().message_types@ == old(self).spec_filter().message_types@,
            final(self).spec_filter().debug_level == old(self).spec_filter().debug_level,
            final(self).spec_scroll() == minus_one(final(self).spec_filtered_count()),
            final(self).spec_auto_scroll(),
            final(self).spec_entries() == old(self).spec_entries(),
            final(self).spec_max_entries() == old(self).spec_max_entries(),
            final(self).spec_paused() == old(self).spec_paused(),
    {
        self.set_filter(FilterMode::Protocol);
    }

    /// Shows only debug logs.
    pub fn set_filter_debug_only(&mut self)
        requires
            old(self).wf(),
        ensures
            final(self).wf(),
            final(self).spec_filter_mode() == FilterMode::Debug,
            !final(self).spec_filter().show_protocol,
            final(self).spec_filter().show_debug,
            !final(self).spec_filter().show_system,
            final(self).spec_filter().show_direction_in,
            final(self).spec_filter().show_direction_out,
            final(self).spec_filter().message_types@ == old(self).spec_filter().message_types@,
            final(self).spec_filter().debug_level == old(self).spec_filter().debug_level,
            final(self).spec_scroll() == minus_one(final(self).spec_filtered_count()),
            final(self).spec_auto_scroll(),
            final(self).spec_entries() == old(self).spec_entries(),
            final(self).spec_max_entries() == old(self).spec_max_entries(),
            final(self).spec_paused() == old(self).spec_paused(),
    {
        self.set_filter(FilterMode::Debug);
    }

    /// Shows every kind of log and clears the message-type list.
    pub fn set_filter_all(&mut self)
        requires
            old(self).wf(),
        ensures
            final(self).wf(),
            final(self).spec_filter_mode() == FilterMode::All,
            final(self).spec_filter().show_protocol,
            final(self).spec_filter().show_debug,
            final(self).spec_filter().show_system,
            final(self).spec_filter().show_direction_in,
            final(self).spec_filter().show_direction_out,
            final(self).spec_filter().message_types@ == Seq::<String>::empty(),
            final(self).spec_filter().debug_level == old(self).spec_filter().debug_level,
            final(self).spec_scroll() == minus_one(final(self).spec_filtered_count()),
            final(self).spec_auto_scroll(),
            final(self).spec_entries() == old(self).spec_entries(),
            final(self).spec_max_entries() == old(self).spec_max_entries(),
            final(self).spec_paused() == old(self).spec_paused(),
    {
        self.set_filter(FilterMode::All);
    }

    /// Shows debug logs of one level only, or of every level for `None`.
    pub fn set_debug_level(&mut self, level: Option<LogLevel>)
        requires
            old(self).wf(),
        ensures
            final(self).wf(),
            final(self).spec_filter().debug_level == level,
            final(self).spec_filter().show_protocol == old(self).spec_filter().show_protocol,
            final(self).spec_filter().show_debug == old(self).spec_filter().show_debug,
            final(self).spec_filter().show_system == old(self).spec_filter().show_system,
            final(self).spec_filter().show_direction_in == old(self).spec_filter().show_direction_in,
            final(self).spec_filter().show_direction_out == old(self).spec_filter().show_direction_out,
            final(self).spec_filter().message_types@ == old(self).spec_filter().message_types@,
            final(self).spec_filter_mode() == old(self).spec_filter_mode(),
            final(self).spec_scroll() == minus_one(final(self).spec_filtered_count()),
            final(self).spec_auto_scroll(),
            final(self).spec_entries() == old(self).spec_entries(),
            final(self).spec_max_entries() == old(self).spec_max_entries(),
            final(self).spec_paused() == old(self).spec_paused(),
    {
        self.filter.debug_level = level;
        self.filtered_cache = self.count_filtered();
        self.reset_scroll_for_filter();
    }

    /// Jumps to the last matching entry and follows new entries.
    fn reset_scroll_for_filter(&mut self)
        ensures
            final(self).scroll == minus_one(old(self).filtered_cache as nat),
            final(self).auto_scroll,
            final(self).entries == old(self).entries,
            final(self).filter == old(self).filter,
            final(self).filter_mode == old(self).filter_mode,
            final(self).filtered_cache == old(self).filtered_cache,
            final(self).max_entries == old(self).max_entries,
            final(self).paused == old(self).paused,
    {
        let filtered_count = self.filtered_cache;
        self.scroll = if filtered_count > 0 {
            filtered_count - 1
        } else {
            0
        };
        self.auto_scroll = true;
    }

    /// The current filter.
    pub fn filter(&self) -> (f: &LogFilter)
        ensures
            *f == self.spec_filter(),
    {
        &self.filter
    }

    /// The current filter mode.
    pub fn filter_mode(&self) -> (m: FilterMode)
        ensures
            m == self.spec_filter_mode(),
    {
        self.filter_mode
    }

    /// Every stored entry, oldest first.
    pub fn entries(&self) -> (e: &VecDeque<LogEntry>)
        ensures
            e@ == self.spec_entries(),
    {
        &self.entries
    }

    /// Number of stored entries the filter lets through.
    pub fn filtered_count(&self) -> (n: usize)
        requires
            self.wf(),
        ensures
            n == self.spec_filtered_count(),
    {
        self.filtered_cache
    }

    /// The filtered entries as text, one line each, joined with newlines.
    pub fn to_text(&self) -> (s: String)
        requires
            self.wf(),
        ensures
            s@ == join_lines(filtered(self.spec_filter(), self.spec_entries())),
    {
        proof {
            lemma_filtered_len(self.filter, self.entries@);
            assert(filtered(self.filter, self.entries@).skip(0) =~= filtered(self.filter, self.entries@));
        }
        self.to_text_limited(usize::MAX)
    }

    /// The last `max` filtered entries as text, one line each, joined with
    /// newlines.
    pub fn to_text_limited(&self, max: usize) -> (s: String)
        ensures
            s@ == join_lines(
                filtered(self.spec_filter(), self.spec_entries()).skip(
                    if count_matching(self.spec_filter(), self.spec_entries()) > max {
                        count_matching(self.spec_filter(), self.spec_entries()) - max
                    } else {
                        0
                    },
                ),
            ),
            count_matching(self.spec_filter(), self.spec_entries()) <= max ==> s@ == join_lines(
                filtered(self.spec_filter(), self.spec_entries()),
            ),
            max == usize::MAX ==> s@ == join_lines(filtered(self.spec_filter(), self.spec_entries())),
    {
        let total = self.count_filtered();
        let start: usize = if total > max {
            total - max
        } else {
            0
        };
        let len = self.entries.len();
        let mut out = String::new();
        let mut seen: usize = 0;
        let mut i: usize = 0;
        while i < len
            invariant
                len == self.entries@.len(),
                i <= len,
                seen == count_matching(self.filter, self.entries@.take(i as int)),
                seen <= i,
                start <= total,
                total == count_matching(self.filter, self.entries@),
                out@ == join_lines(filtered(self.filter, self.entries@.take(i as int)).skip(
                    if seen > start {
                        start as int
                    } else {
                        seen as int
                    },
                )),
            decreases len - i,
        {
            let ghost prefix = self.entries@.take(i as int);
            let ghost e = self.entries@[i as int];
            proof {
                assert(self.entries@.take(i + 1) =~= prefix.push(e));
                lemma_filtered_push(self.filter, prefix, e);
            }
            if self.filter.matches(&self.entries[i]) {
                if seen >= start {
                    let ghost kept = filtered(self.filter, prefix).skip(start as int);
                    assert(filtered(self.filter, prefix).push(e).skip(start as int) =~= kept.push(e));
                    assert(kept.push(e).drop_last() =~= kept);
                    if seen > start {
                        out.append("\n");
                    } else {
                        assert(kept.len() == 0);
                        assert(kept.push(e) =~= seq![e]);
                    }
                    let line = format_log_entry_text(&self.entries[i]);
                    out.append(line.as_str());
                } else {
                    assert(filtered(self.filter, prefix).push(e).skip(seen + 1) =~= Seq::<
                        LogEntry,
                    >::empty());
                    assert(filtered(self.filter, prefix).skip(seen as int) =~= Seq::<
                        LogEntry,
                    >::empty());
                }
                seen = seen + 1;
            }
            i = i + 1;
        }
        assert(self.entries@.take(len as int) =~= self.entries@);
        proof {
            lemma_filtered_len(self.filter, self.entries@);
            assert(filtered(self.filter, self.entries@).skip(0) =~= filtered(self.filter, self.entries@));
        }
        out
    }
}

/// Capacity: a well-formed store holds at most its capacity (one entry when
/// the capacity is 0), and the filter lets through at most those entries.
pub proof fn lemma_store_capacity(s: LogStore)
    requires
        s.wf(),
    ensures
        s.spec_entries().len() <= if s.spec_max_entries() == 0 {
            1
        } else {
            s.spec_max_entries()
        },
        s.spec_filtered_count() <= s.spec_entries().len(),
{
    lemma_filtered_len(s.spec_filter(), s.spec_entries());
}

/// Two stores hold the same entries under the same filter, mode, capacity
/// and pause state (only the view may differ).
pub open spec fn same_content(o: LogStore, n: LogStore) -> bool {
    &&& n.spec_entries() == o.spec_entries()
    &&& n.spec_filter() == o.spec_filter()
    &&& n.spec_filter_mode() == o.spec_filter_mode()
    &&& n.spec_max_entries() == o.spec_max_entries()
    &&& n.spec_paused() == o.spec_paused()
}

/// The view sits on the last matching entry and follows new ones.
pub open spec fn at_bottom(n: LogStore) -> bool {
    &&& n.spec_scroll() == minus_one(n.spec_filtered_count())
    &&& n.spec_auto_scroll()
}

/// The filter that `set_filter(mode)` makes of `o`.
pub open spec fn filter_for_mode(o: LogFilter, n: LogFilter, mode: FilterMode) -> bool {
    &&& n.show_protocol == (mode != FilterMode::Debug)
    &&& n.show_debug == (mode != FilterMode::Protocol)
    &&& n.show_system == (mode == FilterMode::All)
    &&& n.show_direction_in
    &&& n.show_direction_out
    &&& n.message_types@ == if mode == FilterMode::All {
        Seq::<String>::empty()
    } else {
        o.message_types@
    }
    &&& n.debug_level == o.debug_level
}

/// The filter that `set_debug_level(level)` makes of `o`.
pub open spec fn filter_with_level(o: LogFilter, n: LogFilter, level: Option<LogLevel>) -> bool {
    &&& n.debug_level == level
    &&& n.show_protocol == o.show_protocol
    &&& n.show_debug == o.show_debug
    &&& n.show_system == o.show_system
    &&& n.show_direction_in == o.show_direction_in
    &&& n.show_direction_out == o.show_direction_out
    &&& n.message_types@ == o.message_types@
}

} // verus!
