use oc_bridge::app::client::{AppCore, AppEffect, BridgeControl};
use oc_bridge::app::operations::{ClipboardResult, ExportResult};
use oc_bridge::input::AppCommand;
use oc_bridge::logging::{FilterMode, LogEntry, LogLevel};

fn core_with_lines(n: usize) -> AppCore {
    let mut core = AppCore::new(100, true);
    for i in 0..n {
        core.logs.add(LogEntry::system(&format!("line {}", i)));
    }
    core
}

#[test]
fn client_starts_with_welcome_lines() {
    assert_eq!(AppCore::new(10, true).logs.entries().len(), 1);
    assert_eq!(AppCore::new(10, false).logs.entries().len(), 2);
}

#[test]
fn quit_and_effects() {
    let mut core = core_with_lines(0);
    assert_eq!(core.execute_command(AppCommand::CopyLogs), (false, AppEffect::CopyLogs));
    assert_eq!(core.execute_command(AppCommand::ExportLogs), (false, AppEffect::ExportLogs));
    assert_eq!(core.execute_command(AppCommand::ToggleBridgePause), (false, AppEffect::NoEffect));
    assert_eq!(core.take_status(), Some("Daemon not running".to_string()));
    core.on_daemon_status(Some((true, false)));
    assert_eq!(
        core.execute_command(AppCommand::ToggleBridgePause),
        (false, AppEffect::BridgeControl(BridgeControl::Resume))
    );
    assert_eq!(BridgeControl::Pause.command(), "pause");
    assert_eq!(core.execute_command(AppCommand::Quit), (true, AppEffect::NoEffect));
    assert!(core.should_quit);
}

#[test]
fn page_scrolling_moves_ten_lines() {
    let mut core = core_with_lines(30);
    assert_eq!(core.logs.scroll_position(), 30);
    core.execute_command(AppCommand::ScrollPageUp);
    assert_eq!(core.logs.scroll_position(), 20);
    core.execute_command(AppCommand::ScrollPageUp);
    core.execute_command(AppCommand::ScrollPageUp);
    core.execute_command(AppCommand::ScrollPageUp);
    assert_eq!(core.logs.scroll_position(), 0);
    core.execute_command(AppCommand::ScrollPageDown);
    assert_eq!(core.logs.scroll_position(), 10);
    core.execute_command(AppCommand::ScrollToBottom);
    assert_eq!(core.logs.scroll_position(), 30);
}

#[test]
fn filters_and_status_lines() {
    let mut core = core_with_lines(2);
    core.execute_command(AppCommand::FilterDebug);
    assert_eq!(core.logs.filter_mode(), FilterMode::Debug);
    core.execute_command(AppCommand::FilterDebugLevel(Some(LogLevel::Error)));
    assert_eq!(core.take_status(), Some("Debug: ERROR only".to_string()));
    core.execute_command(AppCommand::TogglePause);
    assert_eq!(core.take_status(), Some("Paused".to_string()));
    core.execute_command(AppCommand::ClearLogs);
    assert_eq!(core.take_status(), Some("Logs cleared".to_string()));
    assert_eq!(core.logs.entries().len(), 0);
}

#[test]
fn outcomes_of_outside_work() {
    let mut core = core_with_lines(3);
    core.on_clipboard_result(ClipboardResult::Success(4), false);
    assert_eq!(core.take_status(), Some("Copied 4 logs".to_string()));
    core.on_clipboard_result(ClipboardResult::Success(4), true);
    assert_eq!(core.take_status(), Some("Cut 4 logs".to_string()));
    assert_eq!(core.logs.entries().len(), 0);
    core.on_export_result(ExportResult::Success { line_count: 7, opened: false });
    assert_eq!(core.take_status(), Some("Exported but failed to open".to_string()));
    core.on_export_result(ExportResult::Success { line_count: 7, opened: true });
    assert_eq!(core.take_status(), Some("Exported 7 logs".to_string()));
    core.on_open_config_result(Err("denied".to_string()));
    assert_eq!(core.take_status(), Some("Cannot open: denied".to_string()));
    core.on_bridge_control_result(Ok((true, false)));
    assert_eq!(core.take_status(), Some("Serial paused".to_string()));
    assert!(core.bridge_paused);
    core.on_bridge_control_result(Err("refused".to_string()));
    assert_eq!(core.take_status(), Some("Bridge control failed: refused".to_string()));
    core.on_logs_drained(2, None);
    assert!(core.log_connected);
    core.on_logs_drained(0, Some(6));
    assert!(!core.log_connected);
}
