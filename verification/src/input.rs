//! Input handling: translates key presses into application commands.

use vstd::prelude::*;
use crate::logging::entry::LogLevel;
use crate::logging::filter::FilterMode;

verus! {

/// A key as the terminal reports it.
#[derive(Debug, Clone, Copy, PartialEq, Eq, Structural)]
pub enum KeyCode {
    Char(char),
    Backspace,
    Enter,
    Esc,
    Tab,
    Up,
    Down,
    Left,
    Right,
    PageUp,
    PageDown,
    Home,
    End,
    Delete,
    /// Any key the application does not bind.
    Other,
}

/// A key press.
#[derive(Debug, Clone, Copy, PartialEq, Eq, Structural)]
pub struct KeyEvent {
    pub code: KeyCode,
}

impl KeyEvent {
    pub fn new(code: KeyCode) -> (e: KeyEvent)
        ensures
            e.code == code,
    {
        KeyEvent { code }
    }
}

/// Command to execute on the application.
#[derive(Debug, Clone, Copy, PartialEq, Eq, Structural)]
pub enum AppCommand {
    Quit,
    /// Pause or resume the running daemon's bridge.
    ToggleBridgePause,
    ScrollUp,
    ScrollDown,
    ScrollPageUp,
    ScrollPageDown,
    ScrollToTop,
    ScrollToBottom,
    FilterProtocol,
    FilterDebug,
    FilterAll,
    FilterDebugLevel(Option<LogLevel>),
    TogglePause,
    CopyLogs,
    CutLogs,
    ClearLogs,
    ExportLogs,
    OpenConfig,
    /// The key is not bound.
    NoCommand,
}

/// The command bound to a key. The debug-level keys (d, w, r, a) are bound
/// only while the debug filter is active.
pub open spec fn spec_translate_key(code: KeyCode, filter_mode: FilterMode) -> AppCommand {
    match code {
        KeyCode::Esc => AppCommand::Quit,
        KeyCode::Up => AppCommand::ScrollUp,
        KeyCode::Down => AppCommand::ScrollDown,
        KeyCode::PageUp => AppCommand::ScrollPageUp,
        KeyCode::PageDown => AppCommand::ScrollPageDown,
        KeyCode::Home => AppCommand::ScrollToTop,
        KeyCode::End => AppCommand::ScrollToBottom,
        KeyCode::Backspace => AppCommand::ClearLogs,
        KeyCode::Char(c) => {
            if c == 'q' || c == 'Q' {
                AppCommand::Quit
            } else if c == 'b' || c == 'B' {
                AppCommand::ToggleBridgePause
            } else if c == 'k' || c == 'K' {
                AppCommand::ScrollUp
            } else if c == 'j' || c == 'J' {
                AppCommand::ScrollDown
            } else if c == '1' {
                AppCommand::FilterProtocol
            } else if c == '2' {
                AppCommand::FilterDebug
            } else if c == '3' {
                AppCommand::FilterAll
            } else if c == 'c' || c == 'C' {
                AppCommand::CopyLogs
            } else if c == 'x' || c == 'X' {
                AppCommand::CutLogs
            } else if c == 'p' || c == 'P' {
                AppCommand::TogglePause
            } else if c == 'e' || c == 'E' {
                AppCommand::ExportLogs
            } else if c == 'f' || c == 'F' {
                AppCommand::OpenConfig
            } else if filter_mode == FilterMode::Debug && c == 'd' {
                AppCommand::FilterDebugLevel(Some(LogLevel::Debug))
            } else if filter_mode == FilterMode::Debug && c == 'w' {
                AppCommand::FilterDebugLevel(Some(LogLevel::Warn))
            } else if filter_mode == FilterMode::Debug && c == 'r' {
                AppCommand::FilterDebugLevel(Some(LogLevel::Error))
            } else if filter_mode == FilterMode::Debug && c == 'a' {
                AppCommand::FilterDebugLevel(None)
            } else {
                AppCommand::NoCommand
            }
        },
        _ => AppCommand::NoCommand,
    }
}

/// Translates a key press into a command.
pub fn translate_key(key: KeyEvent, filter_mode: FilterMode) -> (cmd: AppCommand)
    ensures
        cmd == spec_translate_key(key.code, filter_mode),
{
    let debug = filter_mode == FilterMode::Debug;
    match key.code {
        KeyCode::Esc => AppCommand::Quit,
        KeyCode::Up => AppCommand::ScrollUp,
        KeyCode::Down => AppCommand::ScrollDown,
        KeyCode::PageUp => AppCommand::ScrollPageUp,
        KeyCode::PageDown => AppCommand::ScrollPageDown,
        KeyCode::Home => AppCommand::ScrollToTop,
        KeyCode::End => AppCommand::ScrollToBottom,
        KeyCode::Backspace => AppCommand::ClearLogs,
        KeyCode::Char(c) => {
            if c == 'q' || c == 'Q' {
                AppCommand::Quit
            } else if c == 'b' || c == 'B' {
                AppCommand::ToggleBridgePause
            } else if c == 'k' || c == 'K' {
                AppCommand::ScrollUp
            } else if c == 'j' || c == 'J' {
                AppCommand::ScrollDown
            } else if c == '1' {
                AppCommand::FilterProtocol
            } else if c == '2' {
                AppCommand::FilterDebug
            } else if c == '3' {
                AppCommand::FilterAll
            } else if c == 'c' || c == 'C' {
                AppCommand::CopyLogs
            } else if c == 'x' || c == 'X' {
                AppCommand::CutLogs
            } else if c == 'p' || c == 'P' {
                AppCommand::TogglePause
            } else if c == 'e' || c == 'E' {
                AppCommand::ExportLogs
            } else if c == 'f' || c == 'F' {
                AppCommand::OpenConfig
            } else if debug && c == 'd' {
                AppCommand::FilterDebugLevel(Some(LogLevel::Debug))
            } else if debug && c == 'w' {
                AppCommand::FilterDebugLevel(Some(LogLevel::Warn))
            } else if debug && c == 'r' {
                AppCommand::FilterDebugLevel(Some(LogLevel::Error))
            } else if debug && c == 'a' {
                AppCommand::FilterDebugLevel(None)
            } else {
                AppCommand::NoCommand
            }
        },
        _ => AppCommand::NoCommand,
    }
}

} // verus!
