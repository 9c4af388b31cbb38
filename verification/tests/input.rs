use oc_bridge::input::{translate_key, AppCommand, KeyCode, KeyEvent};
use oc_bridge::logging::{FilterMode, LogLevel};

fn key(code: KeyCode) -> KeyEvent {
    KeyEvent::new(code)
}

#[test]
fn test_quit_keys() {
    assert_eq!(translate_key(key(KeyCode::Char('q')), FilterMode::All), AppCommand::Quit);
    assert_eq!(translate_key(key(KeyCode::Esc), FilterMode::All), AppCommand::Quit);
}

#[test]
fn test_scroll_keys() {
    assert_eq!(translate_key(key(KeyCode::Up), FilterMode::All), AppCommand::ScrollUp);
    assert_eq!(translate_key(key(KeyCode::Char('j')), FilterMode::All), AppCommand::ScrollDown);
}

#[test]
fn test_debug_level_only_in_debug_mode() {
    assert_eq!(
        translate_key(key(KeyCode::Char('d')), FilterMode::Debug),
        AppCommand::FilterDebugLevel(Some(LogLevel::Debug))
    );
    assert_eq!(translate_key(key(KeyCode::Char('d')), FilterMode::All), AppCommand::NoCommand);
}

#[test]
fn other_bindings() {
    assert_eq!(translate_key(key(KeyCode::Char('B')), FilterMode::All), AppCommand::ToggleBridgePause);
    assert_eq!(translate_key(key(KeyCode::PageDown), FilterMode::All), AppCommand::ScrollPageDown);
    assert_eq!(translate_key(key(KeyCode::Backspace), FilterMode::All), AppCommand::ClearLogs);
    assert_eq!(translate_key(key(KeyCode::Char('3')), FilterMode::Debug), AppCommand::FilterAll);
    assert_eq!(
        translate_key(key(KeyCode::Char('a')), FilterMode::Debug),
        AppCommand::FilterDebugLevel(None)
    );
    assert_eq!(translate_key(key(KeyCode::Tab), FilterMode::Debug), AppCommand::NoCommand);
}
