//! Log filtering: which entries the UI shows.

use vstd::prelude::*;
use crate::logging::entry::{Direction, LogEntry, LogKind, LogLevel};

verus! {

/// Active filter mode.
#[derive(Debug, Clone, Copy, PartialEq, Eq, Structural)]
pub enum FilterMode {
    /// Show all logs (protocol, debug, system).
    All,
    /// Show only protocol messages.
    Protocol,
    /// Show only debug logs.
    Debug,
}

/// Log filter configuration.
#[derive(Debug, Clone)]
pub struct LogFilter {
    pub show_protocol: bool,
    pub show_debug: bool,
    pub show_system: bool,
    pub show_direction_in: bool,
    pub show_direction_out: bool,
    /// Protocol message names shown; empty means every name.
    pub message_types: Vec<String>,
    /// Debug level shown; `None` means every level.
    pub debug_level: Option<LogLevel>,
}

/// The character sequences of a list of strings.
pub open spec fn string_views(v: Seq<String>) -> Seq<Seq<char>> {
    v.map_values(|s: String| s@)
}

impl LogFilter {
    /// Every kind, direction, name and level shown: the default filter.
    pub open spec fn is_default(self) -> bool {
        &&& self.show_protocol
        &&& self.show_debug
        &&& self.show_system
        &&& self.show_direction_in
        &&& self.show_direction_out
        &&& self.message_types@.len() == 0
        &&& self.debug_level is None
    }

    /// Whether the filter lets `entry` through: protocol messages by kind,
    /// direction and (when the list is not empty) name; debug logs by kind and
    /// (when a level is chosen) exact level; system messages by kind.
    pub open spec fn spec_matches(self, entry: LogEntry) -> bool {
        match entry.kind {
            LogKind::Protocol { direction, message_name, .. } => {
                &&& self.show_protocol
                &&& (direction == Direction::In ==> self.show_direction_in)
                &&& (direction == Direction::Out ==> self.show_direction_out)
                &&& (self.message_types@.len() == 0 || string_views(self.message_types@).contains(
                    message_name@,
                ))
            },
            LogKind::Debug { level, .. } => {
                &&& self.show_debug
                &&& match self.debug_level {
                    None => true,
                    Some(wanted) => level == Some(wanted),
                }
            },
            LogKind::System { .. } => self.show_system,
        }
    }

    /// Whether `name` is in the message-type list.
    fn lists_message_type(&self, name: &String) -> (r: bool)
        ensures
            r == string_views(self.message_types@).contains(name@),
    {
        let n = self.message_types.len();
        let mut i: usize = 0;
        while i < n
            invariant
                n == self.message_types@.len(),
                i <= n,
                forall|j: int| 0 <= j < i ==> self.message_types@[j]@ != name@,
            decreases n - i,
        {
            if self.message_types[i] == *name {
                assert(string_views(self.message_types@)[i as int] == name@);
                return true;
            }
            i = i + 1;
        }
        proof {
            if string_views(self.message_types@).contains(name@) {
                let k = choose|k: int|
                    0 <= k < string_views(self.message_types@).len() && string_views(
                        self.message_types@,
                    )[k] == name@;
                assert(self.message_types@[k]@ == name@);
            }
        }
        false
    }

    /// Checks whether a log entry passes the filter.
    pub fn matches(&self, entry: &LogEntry) -> (r: bool)
        ensures
            r == self.spec_matches(*entry),
    {
        match &entry.kind {
            LogKind::Protocol { direction, message_name, .. } => {
                if !self.show_protocol {
                    return false;
                }
                match direction {
                    Direction::In => {
                        if !self.show_direction_in {
                            return false;
                        }
                    },
                    Direction::Out => {
                        if !self.show_direction_out {
                            return false;
                        }
                    },
                }
                if self.message_types.len() != 0 && !self.lists_message_type(message_name) {
                    return false;
                }
                true
            },
            LogKind::Debug { level, .. } => {
                if !self.show_debug {
                    return false;
                }
                match (self.debug_level, *level) {
                    (None, _) => true,
                    (Some(wanted), Some(lvl)) => wanted == lvl,
                    (Some(_), None) => false,
                }
            },
            LogKind::System { .. } => self.show_system,
        }
    }
}

impl Default for LogFilter {
    fn default() -> (f: Self)
        ensures
            f.is_default(),
    {
        LogFilter {
            show_protocol: true,
            show_debug: true,
            show_system: true,
            show_direction_in: true,
            show_direction_out: true,
            message_types: Vec::new(),
            debug_level: None,
        }
    }
}

/// The default filter lets every entry through.
pub proof fn lemma_default_matches_all(f: LogFilter, e: LogEntry)
    requires
        f.is_default(),
    ensures
        f.spec_matches(e),
{
}

/// What a filter promises of the entries it lets through. A protocol entry
/// of either direction gets through only when protocol entries and its
/// direction are shown, and, when the message-type list is not empty, only
/// when its name is on the list; an entry that meets all that gets through. A
/// debug entry gets through only when debug entries are shown and, when a
/// level is chosen, it has exactly that level. A system entry gets through
/// exactly when system entries are shown.
pub proof fn lemma_filter_admits(f: LogFilter, e: LogEntry)
    ensures
        e.kind matches LogKind::Protocol { direction, message_name, .. } ==> (f.spec_matches(e) <==> {
            &&& f.show_protocol
            &&& if direction == Direction::In {
                f.show_direction_in
            } else {
                f.show_direction_out
            }
            &&& (f.message_types@.len() == 0 || exists|i: int|
                0 <= i < f.message_types@.len() && (#[trigger] f.message_types@[i])@
                    == message_name@)
        }),
        e.kind matches LogKind::Debug { level, .. } ==> (f.spec_matches(e) <==> {
            &&& f.show_debug
            &&& (f.debug_level matches Some(w) ==> level == Some(w))
        }),
        e.kind is System ==> (f.spec_matches(e) <==> f.show_system),
{
    if let LogKind::Protocol { direction, message_name, .. } = e.kind {
        let names = string_views(f.message_types@);
        if names.contains(message_name@) {
            let k = choose|k: int| 0 <= k < names.len() && names[k] == message_name@;
            assert(f.message_types@[k]@ == message_name@);
        }
        if exists|i: int| 0 <= i < f.message_types@.len() && (#[trigger] f.message_types@[i])@
            == message_name@ {
            let i = choose|i: int| 0 <= i < f.message_types@.len() && (#[trigger] f.message_types@[i])@
                == message_name@;
            assert(names[i] == message_name@);
        }
    }
}

/// Direction does not change how the message-type list applies: two protocol
/// entries with the same name, one each way, are treated alike when both
/// directions are shown.
pub proof fn lemma_filter_direction_blind(f: LogFilter, a: LogEntry, b: LogEntry)
    requires
        f.show_direction_in,
        f.show_direction_out,
        a.kind matches LogKind::Protocol { message_name: na, .. } && b.kind matches LogKind::Protocol {
            message_name: nb,
            ..
        } && na@ == nb@,
    ensures
        f.spec_matches(a) == f.spec_matches(b),
{
}

} // verus!
