//! Terminal client core: how commands change the client's state, and which
//! outside work (clipboard, export, editor, control port) they ask for.

use vstd::prelude::*;
use crate::app::operations::{ClipboardResult, ExportResult};
use crate::app::state::debug_level_status;
use crate::constants::{AUTO_SCROLL_THRESHOLD, LOG_CONNECTION_TIMEOUT_SECS, PAGE_SCROLL_LINES};
use crate::input::AppCommand;
use crate::logging::entry::LogEntry;
use crate::logging::filter::FilterMode;
use crate::logging::store::{at_bottom, filter_for_mode, filter_with_level, minus_one, same_content, LogStore};
use crate::text::{decimal, push_decimal};

verus! {

/// Outside work a command asks for; its outcome comes back through the
/// matching `on_*` method.
#[derive(Debug, Clone, Copy, PartialEq, Eq, Structural)]
pub enum AppEffect {
    NoEffect,
    /// Send this control command ("pause" or "resume") to the daemon.
    BridgeControl(BridgeControl),
    /// Copy the filtered logs to the clipboard.
    CopyLogs,
    /// Copy the filtered logs to the clipboard, then clear them.
    CutLogs,
    /// Export the filtered logs to a file and open it.
    ExportLogs,
    /// Open the configuration file in an editor.
    OpenConfig,
}

#[derive(Debug, Clone, Copy, PartialEq, Eq, Structural)]
pub enum BridgeControl {
    Pause,
    Resume,
}

impl BridgeControl {
    /// The control command word.
    pub fn command(self) -> (s: &'static str)
        ensures
            s@ == match self {
                BridgeControl::Pause => "pause"@,
                BridgeControl::Resume => "resume"@,
            },
    {
        match self {
            BridgeControl::Pause => "pause",
            BridgeControl::Resume => "resume",
        }
    }
}

/// State of the terminal client that commands act on.
pub struct AppCore {
    pub logs: LogStore,
    pub daemon_running: bool,
    pub bridge_paused: bool,
    pub serial_open: bool,
    pub log_connected: bool,
    /// Status line set by the last command, not yet shown.
    pub status_message: Option<String>,
    pub should_quit: bool,
}

/// Scroll position after `k` one-line scrolls down from `s` among `count`
/// matching entries.
pub open spec fn scrolled_down(s: nat, count: nat, k: nat) -> nat {
    let last = minus_one(count);
    if s >= last {
        s
    } else if s + k < last {
        s + k
    } else {
        last
    }
}

/// Scroll position after `k` one-line scrolls up from `s`.
pub open spec fn scrolled_up(s: nat, k: nat) -> nat {
    if s >= k {
        (s - k) as nat
    } else {
        0
    }
}

pub open spec fn status_is(core: AppCore, text: Seq<char>) -> bool {
    core.status_message matches Some(m) && m@ == text
}

impl AppCore {
    pub open spec fn wf(&self) -> bool {
        self.logs.wf()
    }

    /// The client state at start: the log store and "OC Bridge ready" in it,
    /// followed by a warning when the log receiver could not be started.
    pub fn new(max_entries: usize, logs_available: bool) -> (c: AppCore)
        ensures
            c.wf(),
            c.logs.spec_entries().len() == (if logs_available || max_entries <= 1 {
                1int
            } else {
                2
            }),
            !c.daemon_running,
            !c.bridge_paused,
            !c.serial_open,
            !c.log_connected,
            c.status_message is None,
            !c.should_quit,
    {
        let mut logs = LogStore::new(max_entries);
        logs.add(LogEntry::system("OC Bridge ready"));
        if !logs_available {
            logs.add(LogEntry::system("Logs unavailable (port already in use?)"));
        }
        AppCore {
            logs,
            daemon_running: false,
            bridge_paused: false,
            serial_open: false,
            log_connected: false,
            status_message: None,
            should_quit: false,
        }
    }

    fn set_status(&mut self, text: &str)
        ensures
            final(self).status_message matches Some(m) && m@ == text@,
            final(self).logs == old(self).logs,
            final(self).daemon_running == old(self).daemon_running,
            final(self).bridge_paused == old(self).bridge_paused,
            final(self).serial_open == old(self).serial_open,
            final(self).log_connected == old(self).log_connected,
            final(self).should_quit == old(self).should_quit,
    {
        self.status_message = Some(text.to_owned());
    }

    /// Hands over the pending status line, if any.
    pub fn take_status(&mut self) -> (s: Option<String>)
        ensures
            s == old(self).status_message,
            final(self).status_message is None,
            final(self).logs == old(self).logs,
            final(self).daemon_running == old(self).daemon_running,
            final(self).bridge_paused == old(self).bridge_paused,
            final(self).serial_open == old(self).serial_open,
            final(self).log_connected == old(self).log_connected,
            final(self).should_quit == old(self).should_quit,
    {
        let mut s: Option<String> = None;
        std::mem::swap(&mut s, &mut self.status_message);
        s
    }

    /// Scrolls down `lines` lines.
    fn scroll_down_lines(&mut self, lines: usize)
        requires
            old(self).wf(),
        ensures
            final(self).wf(),
            final(self).logs.spec_scroll() == scrolled_down(
                old(self).logs.spec_scroll(),
                old(self).logs.spec_filtered_count(),
                lines as nat,
            ),
            lines > 0 ==> final(self).logs.spec_auto_scroll() == (old(self).logs.spec_auto_scroll()
                || final(self).logs.spec_scroll() + AUTO_SCROLL_THRESHOLD >= old(self).logs.spec_filtered_count()),
            final(self).logs.spec_entries() == old(self).logs.spec_entries(),
            final(self).logs.spec_filter() == old(self).logs.spec_filter(),
            final(self).logs.spec_filter_mode() == old(self).logs.spec_filter_mode(),
            final(self).logs.spec_paused() == old(self).logs.spec_paused(),
            final(self).logs.spec_max_entries() == old(self).logs.spec_max_entries(),
            final(self).status_message == old(self).status_message,
            final(self).should_quit == old(self).should_quit,
            final(self).daemon_running == old(self).daemon_running,
            final(self).bridge_paused == old(self).bridge_paused,
            final(self).serial_open == old(self).serial_open,
            final(self).log_connected == old(self).log_connected,
    {
        let mut i: usize = 0;
        while i < lines
            invariant
                i <= lines,
                self.wf(),
                self.logs.spec_scroll() == scrolled_down(
                    old(self).logs.spec_scroll(),
                    old(self).logs.spec_filtered_count(),
                    i as nat,
                ),
                i > 0 ==> self.logs.spec_auto_scroll() == (old(self).logs.spec_auto_scroll()
                    || self.logs.spec_scroll() + AUTO_SCROLL_THRESHOLD >= old(self).logs.spec_filtered_count()),
                i == 0 ==> self.logs.spec_auto_scroll() == old(self).logs.spec_auto_scroll(),
                self.logs.spec_entries() == old(self).logs.spec_entries(),
                self.logs.spec_filter() == old(self).logs.spec_filter(),
                self.logs.spec_filter_mode() == old(self).logs.spec_filter_mode(),
                self.logs.spec_paused() == old(self).logs.spec_paused(),
                self.logs.spec_max_entries() == old(self).logs.spec_max_entries(),
                self.status_message == old(self).status_message,
                self.should_quit == old(self).should_quit,
                self.daemon_running == old(self).daemon_running,
                self.bridge_paused == old(self).bridge_paused,
                self.serial_open == old(self).serial_open,
                self.log_connected == old(self).log_connected,
            decreases lines - i,
        {
            self.logs.scroll_down();
            i = i + 1;
        }
    }

    /// Scrolls up `lines` lines.
    fn scroll_up_lines(&mut self, lines: usize)
        requires
            old(self).wf(),
        ensures
            final(self).wf(),
            final(self).logs.spec_scroll() == scrolled_up(old(self).logs.spec_scroll(), lines as nat),
            lines > 0 ==> !final(self).logs.spec_auto_scroll(),
            lines == 0 ==> final(self).logs.spec_auto_scroll() == old(self).logs.spec_auto_scroll(),
            final(self).logs.spec_entries() == old(self).logs.spec_entries(),
            final(self).logs.spec_filter() == old(self).logs.spec_filter(),
            final(self).logs.spec_filter_mode() == old(self).logs.spec_filter_mode(),
            final(self).logs.spec_paused() == old(self).logs.spec_paused(),
            final(self).logs.spec_max_entries() == old(self).logs.spec_max_entries(),
            final(self).status_message == old(self).status_message,
            final(self).should_quit == old(self).should_quit,
            final(self).daemon_running == old(self).daemon_running,
            final(self).bridge_paused == old(self).bridge_paused,
            final(self).serial_open == old(self).serial_open,
            final(self).log_connected == old(self).log_connected,
    {
        let mut i: usize = 0;
        while i < lines
            invariant
                i <= lines,
                self.wf(),
                self.logs.spec_scroll() == scrolled_up(old(self).logs.spec_scroll(), i as nat),
                i > 0 ==> !self.logs.spec_auto_scroll(),
                i == 0 ==> self.logs.spec_auto_scroll() == old(self).logs.spec_auto_scroll(),
                self.logs.spec_entries() == old(self).logs.spec_entries(),
                self.logs.spec_filter() == old(self).logs.spec_filter(),
                self.logs.spec_filter_mode() == old(self).logs.spec_filter_mode(),
                self.logs.spec_paused() == old(self).logs.spec_paused(),
                self.logs.spec_max_entries() == old(self).logs.spec_max_entries(),
                self.status_message == old(self).status_message,
                self.should_quit == old(self).should_quit,
                self.daemon_running == old(self).daemon_running,
                self.bridge_paused == old(self).bridge_paused,
                self.serial_open == old(self).serial_open,
                self.log_connected == old(self).log_connected,
            decreases lines - i,
        {
            self.logs.scroll_up();
            i = i + 1;
        }
    }

    /// Carries out a command. Returns whether the client should quit and the
    /// outside work the command needs. Scrolling and filtering act on the log
    /// store (a page is `PAGE_SCROLL_LINES` lines); pausing the view, clearing
    /// the logs and choosing a debug level set a status line; the bridge
    /// pause needs a running daemon.
    pub fn execute_command(&mut self, cmd: AppCommand) -> (r: (bool, AppEffect))
        requires
            old(self).wf(),
        ensures
            final(self).wf(),
            r.0 == (cmd == AppCommand::Quit),
            final(self).should_quit == (old(self).should_quit || cmd == AppCommand::Quit),
            r.1 == match cmd {
                AppCommand::ToggleBridgePause => if old(self).daemon_running {
                    AppEffect::BridgeControl(
                        if old(self).bridge_paused {
                            BridgeControl::Resume
                        } else {
                            BridgeControl::Pause
                        },
                    )
                } else {
                    AppEffect::NoEffect
                },
                AppCommand::CopyLogs => AppEffect::CopyLogs,
                AppCommand::CutLogs => AppEffect::CutLogs,
                AppCommand::ExportLogs => AppEffect::ExportLogs,
                AppCommand::OpenConfig => AppEffect::OpenConfig,
                _ => AppEffect::NoEffect,
            },
            cmd == AppCommand::ToggleBridgePause && !old(self).daemon_running ==> status_is(
                *final(self),
                "Daemon not running"@,
            ),
            cmd == AppCommand::ScrollUp ==> {
                &&& final(self).logs.spec_scroll() == minus_one(old(self).logs.spec_scroll())
                &&& !final(self).logs.spec_auto_scroll()
                &&& same_content(old(self).logs, final(self).logs)
            },
            cmd == AppCommand::ScrollDown ==> {
                &&& final(self).logs.spec_scroll() == scrolled_down(
                    old(self).logs.spec_scroll(),
                    old(self).logs.spec_filtered_count(),
                    1,
                )
                &&& final(self).logs.spec_auto_scroll() == (old(self).logs.spec_auto_scroll()
                    || final(self).logs.spec_scroll() + AUTO_SCROLL_THRESHOLD
                    >= old(self).logs.spec_filtered_count())
                &&& same_content(old(self).logs, final(self).logs)
            },
            cmd == AppCommand::ScrollPageUp ==> {
                &&& final(self).logs.spec_scroll() == scrolled_up(
                    old(self).logs.spec_scroll(),
                    PAGE_SCROLL_LINES as nat,
                )
                &&& !final(self).logs.spec_auto_scroll()
                &&& same_content(old(self).logs, final(self).logs)
            },
            cmd == AppCommand::ScrollPageDown ==> {
                &&& final(self).logs.spec_scroll() == scrolled_down(
                    old(self).logs.spec_scroll(),
                    old(self).logs.spec_filtered_count(),
                    PAGE_SCROLL_LINES as nat,
                )
                &&& final(self).logs.spec_auto_scroll() == (old(self).logs.spec_auto_scroll()
                    || final(self).logs.spec_scroll() + AUTO_SCROLL_THRESHOLD
                    >= old(self).logs.spec_filtered_count())
                &&& same_content(old(self).logs, final(self).logs)
            },
            cmd == AppCommand::ScrollToTop ==> {
                &&& final(self).logs.spec_scroll() == 0
                &&& !final(self).logs.spec_auto_scroll()
                &&& same_content(old(self).logs, final(self).logs)
            },
            cmd == AppCommand::ScrollToBottom ==> {
                &&& final(self).logs.spec_scroll() == minus_one(old(self).logs.spec_filtered_count())
                &&& final(self).logs.spec_auto_scroll()
                &&& same_content(old(self).logs, final(self).logs)
            },
            cmd == AppCommand::FilterProtocol || cmd == AppCommand::FilterDebug || cmd
                == AppCommand::FilterAll ==> {
                let mode = if cmd == AppCommand::FilterProtocol {
                    FilterMode::Protocol
                } else if cmd == AppCommand::FilterDebug {
                    FilterMode::Debug
                } else {
                    FilterMode::All
                };
                &&& filter_for_mode(old(self).logs.spec_filter(), final(self).logs.spec_filter(), mode)
                &&& final(self).logs.spec_filter_mode() == mode
                &&& at_bottom(final(self).logs)
                &&& final(self).logs.spec_entries() == old(self).logs.spec_entries()
                &&& final(self).logs.spec_max_entries() == old(self).logs.spec_max_entries()
                &&& final(self).logs.spec_paused() == old(self).logs.spec_paused()
            },
            cmd is FilterDebugLevel ==> {
                &&& filter_with_level(old(self).logs.spec_filter(), final(self).logs.spec_filter(), cmd->0)
                &&& final(self).logs.spec_filter_mode() == old(self).logs.spec_filter_mode()
                &&& at_bottom(final(self).logs)
                &&& final(self).logs.spec_entries() == old(self).logs.spec_entries()
                &&& final(self).logs.spec_max_entries() == old(self).logs.spec_max_entries()
                &&& final(self).logs.spec_paused() == old(self).logs.spec_paused()
                &&& status_is(
                    *final(self),
                    match cmd->0 {
                        Some(crate::logging::entry::LogLevel::Debug) => "Debug: DEBUG only"@,
                        Some(crate::logging::entry::LogLevel::Info) => "Debug: INFO only"@,
                        Some(crate::logging::entry::LogLevel::Warn) => "Debug: WARN only"@,
                        Some(crate::logging::entry::LogLevel::Error) => "Debug: ERROR only"@,
                        None => "Debug: All levels"@,
                    },
                )
            },
            cmd == AppCommand::TogglePause ==> {
                let paused = !old(self).logs.spec_paused();
                &&& final(self).logs.spec_paused() == paused
                &&& final(self).logs.spec_auto_scroll() == !paused
                &&& final(self).logs.spec_scroll() == if paused {
                    old(self).logs.spec_scroll()
                } else {
                    minus_one(old(self).logs.spec_filtered_count())
                }
                &&& final(self).logs.spec_entries() == old(self).logs.spec_entries()
                &&& final(self).logs.spec_filter() == old(self).logs.spec_filter()
                &&& final(self).logs.spec_filter_mode() == old(self).logs.spec_filter_mode()
                &&& final(self).logs.spec_max_entries() == old(self).logs.spec_max_entries()
                &&& status_is(
                    *final(self),
                    if paused {
                        "Paused"@
                    } else {
                        "Resumed"@
                    },
                )
            },
            cmd == AppCommand::ClearLogs ==> {
                &&& final(self).logs.spec_entries() == Seq::<LogEntry>::empty()
                &&& final(self).logs.spec_scroll() == 0
                &&& final(self).logs.spec_auto_scroll() == old(self).logs.spec_auto_scroll()
                &&& final(self).logs.spec_filter() == old(self).logs.spec_filter()
                &&& final(self).logs.spec_filter_mode() == old(self).logs.spec_filter_mode()
                &&& final(self).logs.spec_max_entries() == old(self).logs.spec_max_entries()
                &&& final(self).logs.spec_paused() == old(self).logs.spec_paused()
                &&& status_is(*final(self), "Logs cleared"@)
            },
            cmd == AppCommand::Quit || cmd == AppCommand::ToggleBridgePause || cmd
                == AppCommand::CopyLogs || cmd == AppCommand::CutLogs || cmd == AppCommand::ExportLogs
                || cmd == AppCommand::OpenConfig || cmd == AppCommand::NoCommand ==> final(self).logs
                == old(self).logs,
            !(cmd is FilterDebugLevel || cmd == AppCommand::TogglePause || cmd == AppCommand::ClearLogs
                || (cmd == AppCommand::ToggleBridgePause && !old(self).daemon_running))
                ==> final(self).status_message == old(self).status_message,
            final(self).daemon_running == old(self).daemon_running,
            final(self).bridge_paused == old(self).bridge_paused,
            final(self).serial_open == old(self).serial_open,
            final(self).log_connected == old(self).log_connected,
    {
        match cmd {
            AppCommand::Quit => {
                self.should_quit = true;
                (true, AppEffect::NoEffect)
            },
            AppCommand::ToggleBridgePause => {
                if !self.daemon_running {
                    self.set_status("Daemon not running");
                    (false, AppEffect::NoEffect)
                } else if self.bridge_paused {
                    (false, AppEffect::BridgeControl(BridgeControl::Resume))
                } else {
                    (false, AppEffect::BridgeControl(BridgeControl::Pause))
                }
            },
            AppCommand::ScrollUp => {
                self.logs.scroll_up();
                (false, AppEffect::NoEffect)
            },
            AppCommand::ScrollDown => {
                self.logs.scroll_down();
                (false, AppEffect::NoEffect)
            },
            AppCommand::ScrollPageUp => {
                self.scroll_up_lines(PAGE_SCROLL_LINES);
                (false, AppEffect::NoEffect)
            },
            AppCommand::ScrollPageDown => {
                self.scroll_down_lines(PAGE_SCROLL_LINES);
                (false, AppEffect::NoEffect)
            },
            AppCommand::ScrollToTop => {
                self.logs.scroll_to_top();
                (false, AppEffect::NoEffect)
            },
            AppCommand::ScrollToBottom => {
                self.logs.scroll_to_bottom();
                (false, AppEffect::NoEffect)
            },
            AppCommand::FilterProtocol => {
                self.logs.set_filter(FilterMode::Protocol);
                (false, AppEffect::NoEffect)
            },
            AppCommand::FilterDebug => {
                self.logs.set_filter(FilterMode::Debug);
                (false, AppEffect::NoEffect)
            },
            AppCommand::FilterAll => {
                self.logs.set_filter(FilterMode::All);
                (false, AppEffect::NoEffect)
            },
            AppCommand::FilterDebugLevel(level) => {
                self.logs.set_debug_level(level);
                self.set_status(debug_level_status(level));
                (false, AppEffect::NoEffect)
            },
            AppCommand::TogglePause => {
                let paused = self.logs.toggle_pause();
                self.set_status(
                    if paused {
                        "Paused"
                    } else {
                        "Resumed"
                    },
                );
                (false, AppEffect::NoEffect)
            },
            AppCommand::CopyLogs => (false, AppEffect::CopyLogs),
            AppCommand::CutLogs => (false, AppEffect::CutLogs),
            AppCommand::ClearLogs => {
                self.logs.clear();
                self.set_status("Logs cleared");
                (false, AppEffect::NoEffect)
            },
            AppCommand::ExportLogs => (false, AppEffect::ExportLogs),
            AppCommand::OpenConfig => (false, AppEffect::OpenConfig),
            AppCommand::NoCommand => (false, AppEffect::NoEffect),
        }
    }

    /// Outcome of a clipboard copy (a cut also clears the logs once copied):
    /// "Copied N logs" or "Cut N logs", or the error text.
    pub fn on_clipboard_result(&mut self, result: ClipboardResult, cut: bool)
        requires
            old(self).wf(),
        ensures
            final(self).wf(),
            match result {
                ClipboardResult::Success(n) => status_is(
                    *final(self),
                    (if cut {
                        "Cut "@
                    } else {
                        "Copied "@
                    }) + decimal(n as nat) + " logs"@,
                ) && (cut ==> {
                    &&& final(self).logs.spec_entries() == Seq::<LogEntry>::empty()
                    &&& final(self).logs.spec_scroll() == 0
                    &&& final(self).logs.spec_auto_scroll() == old(self).logs.spec_auto_scroll()
                    &&& final(self).logs.spec_filter() == old(self).logs.spec_filter()
                    &&& final(self).logs.spec_filter_mode() == old(self).logs.spec_filter_mode()
                    &&& final(self).logs.spec_max_entries() == old(self).logs.spec_max_entries()
                    &&& final(self).logs.spec_paused() == old(self).logs.spec_paused()
                }) && (!cut ==> final(self).logs == old(self).logs),
                ClipboardResult::Error(e) => status_is(*final(self), e@) && final(self).logs == old(
                    self,
                ).logs,
            },
            final(self).daemon_running == old(self).daemon_running,
            final(self).bridge_paused == old(self).bridge_paused,
            final(self).serial_open == old(self).serial_open,
            final(self).log_connected == old(self).log_connected,
            final(self).should_quit == old(self).should_quit,
    {
        match result {
            ClipboardResult::Success(n) => {
                let mut text = if cut {
                    self.logs.clear();
                    String::from_str("Cut ")
                } else {
                    String::from_str("Copied ")
                };
                push_decimal(&mut text, n as u64);
                text.append(" logs");
                self.status_message = Some(text);
            },
            ClipboardResult::Error(e) => {
                self.status_message = Some(e);
            },
        }
    }

    /// Outcome of an export: "Exported N logs", "Exported but failed to
    /// open", or the error text.
    pub fn on_export_result(&mut self, result: ExportResult)
        ensures
            match result {
                ExportResult::Success { line_count, opened } => status_is(
                    *final(self),
                    if opened {
                        "Exported "@ + decimal(line_count as nat) + " logs"@
                    } else {
                        "Exported but failed to open"@
                    },
                ),
                ExportResult::Error(e) => status_is(*final(self), e@),
            },
            final(self).logs == old(self).logs,
            final(self).daemon_running == old(self).daemon_running,
            final(self).bridge_paused == old(self).bridge_paused,
            final(self).serial_open == old(self).serial_open,
            final(self).log_connected == old(self).log_connected,
            final(self).should_quit == old(self).should_quit,
    {
        match result {
            ExportResult::Success { line_count, opened } => {
                if opened {
                    let mut text = String::from_str("Exported ");
                    push_decimal(&mut text, line_count as u64);
                    text.append(" logs");
                    self.status_message = Some(text);
                } else {
                    self.set_status("Exported but failed to open");
                }
            },
            ExportResult::Error(e) => {
                self.status_message = Some(e);
            },
        }
    }

    /// Outcome of opening the configuration: "Config opened" or
    /// "Cannot open: <error>".
    pub fn on_open_config_result(&mut self, result: Result<(), String>)
        ensures
            match result {
                Ok(()) => status_is(*final(self), "Config opened"@),
                Err(e) => status_is(*final(self), "Cannot open: "@ + e@),
            },
            final(self).logs == old(self).logs,
            final(self).daemon_running == old(self).daemon_running,
            final(self).bridge_paused == old(self).bridge_paused,
            final(self).serial_open == old(self).serial_open,
            final(self).log_connected == old(self).log_connected,
            final(self).should_quit == old(self).should_quit,
    {
        match result {
            Ok(()) => self.set_status("Config opened"),
            Err(e) => {
                let mut text = String::from_str("Cannot open: ");
                text.append(e.as_str());
                self.status_message = Some(text);
            },
        }
    }

    /// Outcome of a bridge pause or resume: the daemon's pause and serial
    /// state, or the error.
    pub fn on_bridge_control_result(&mut self, result: Result<(bool, bool), String>)
        ensures
            match result {
                Ok((paused, open)) => final(self).bridge_paused == paused && final(self).serial_open
                    == open && status_is(
                    *final(self),
                    if paused {
                        "Serial paused"@
                    } else {
                        "Serial resumed"@
                    },
                ),
                Err(e) => status_is(*final(self), "Bridge control failed: "@ + e@)
                    && final(self).bridge_paused == old(self).bridge_paused && final(self).serial_open
                    == old(self).serial_open,
            },
            final(self).logs == old(self).logs,
            final(self).daemon_running == old(self).daemon_running,
            final(self).log_connected == old(self).log_connected,
            final(self).should_quit == old(self).should_quit,
    {
        match result {
            Ok((paused, open)) => {
                self.bridge_paused = paused;
                self.serial_open = open;
                self.set_status(
                    if paused {
                        "Serial paused"
                    } else {
                        "Serial resumed"
                    },
                );
            },
            Err(e) => {
                let mut text = String::from_str("Bridge control failed: ");
                text.append(e.as_str());
                self.status_message = Some(text);
            },
        }
    }

    /// Outcome of a daemon status query: running with its pause and serial
    /// state, or not running.
    pub fn on_daemon_status(&mut self, status: Option<(bool, bool)>)
        ensures
            final(self).daemon_running == status is Some,
            final(self).bridge_paused == match status {
                Some((p, _)) => p,
                None => false,
            },
            final(self).serial_open == match status {
                Some((_, o)) => o,
                None => false,
            },
            final(self).logs == old(self).logs,
            final(self).status_message == old(self).status_message,
            final(self).log_connected == old(self).log_connected,
            final(self).should_quit == old(self).should_quit,
    {
        match status {
            Some((paused, open)) => {
                self.daemon_running = true;
                self.bridge_paused = paused;
                self.serial_open = open;
            },
            None => {
                self.daemon_running = false;
                self.bridge_paused = false;
                self.serial_open = false;
            },
        }
    }

    /// After draining received log entries: the log stream counts as
    /// connected when entries arrived, and as lost when none has arrived for
    /// more than `LOG_CONNECTION_TIMEOUT_SECS` seconds.
    pub fn on_logs_drained(&mut self, received: usize, secs_since_last_log: Option<u64>)
        ensures
            final(self).log_connected == if received > 0 {
                true
            } else if secs_since_last_log matches Some(s) && s > LOG_CONNECTION_TIMEOUT_SECS {
                false
            } else {
                old(self).log_connected
            },
            final(self).logs == old(self).logs,
            final(self).status_message == old(self).status_message,
            final(self).daemon_running == old(self).daemon_running,
            final(self).bridge_paused == old(self).bridge_paused,
            final(self).serial_open == old(self).serial_open,
            final(self).should_quit == old(self).should_quit,
    {
        if received > 0 {
            self.log_connected = true;
        } else {
            match secs_since_last_log {
                Some(s) => {
                    if s > LOG_CONNECTION_TIMEOUT_SECS {
                        self.log_connected = false;
                    }
                },
                None => {},
            }
        }
    }
}

} // verus!
