use oc_bridge::app::mode_settings::{ModeField, ModeSettings};
use oc_bridge::app::state::{ControllerTransportState, HostTransportState};
use oc_bridge::config::{ControllerTransport, HostTransport};
use oc_bridge::ui::mode_view::{field_line, mode_popup_fields, FieldEmphasis};
use oc_bridge::ui::status_view::{bridge_action_label, controller_status, host_status_text, status_title};
use oc_bridge::instance_lock::lock_file_name;
use oc_bridge::logging::{LogEntry, LogLevel};
use oc_bridge::ui::log_view::{filter_button_text, log_line, sidebar_key_text, MarkerKind};

fn settings() -> ModeSettings {
    ModeSettings::new(
        ControllerTransport::Serial,
        Some("teensy".to_string()),
        vec!["teensy".to_string()],
        8000,
        8100,
        HostTransport::Both,
        9000,
        8001,
    )
}

#[test]
fn field_line_pads_label_and_marks_editing() {
    let l = field_line("Host", "UDP", true, false, "");
    assert!(l.selected);
    assert_eq!(l.label, "Host          ");
    assert_eq!(l.value, "UDP");
    assert_eq!(l.emphasis, FieldEmphasis::Selected);

    let l = field_line("  UDP Port", "9000", true, true, "90");
    assert_eq!(l.value, "90_");
    assert_eq!(l.emphasis, FieldEmphasis::Editing);

    let l = field_line("A label longer than fourteen", "x", false, false, "");
    assert_eq!(l.label, "A label longer than fourteen");
    assert_eq!(l.emphasis, FieldEmphasis::Plain);
}

#[test]
fn popup_fields_follow_the_settings() {
    let mut s = settings();
    let lines = mode_popup_fields(&s);
    assert_eq!(lines.len(), 7);
    assert_eq!(lines[0].value, "Serial");
    assert!(lines[0].selected);
    assert_eq!(lines[1].value, "teensy");
    assert_eq!(lines[2].value, "8000");
    assert_eq!(lines[3].value, "8100");
    assert_eq!(lines[4].value, "Both");
    assert_eq!(lines[5].value, "9000");
    assert_eq!(lines[6].value, "8001");
    assert_eq!(lines[6].label, "  WS Port     ");

    s.selected_field = ModeField::HostUdpPort;
    s.editing = true;
    s.input_buffer = "12".to_string();
    let lines = mode_popup_fields(&s);
    assert_eq!(lines[5].value, "12_");
    assert_eq!(lines[5].emphasis, FieldEmphasis::Editing);
    assert!(!lines[0].selected);
    assert_eq!(lines[2].value, "8000");
}

#[test]
fn status_texts() {
    let (up, text) = controller_status(&ControllerTransportState::Serial { port: "COM3".to_string() });
    assert!(up);
    assert_eq!(text, "Serial:COM3");
    assert_eq!(controller_status(&ControllerTransportState::Udp { port: 8000 }), (true, "UDP:8000".to_string()));
    assert_eq!(controller_status(&ControllerTransportState::WebSocket { port: 8100 }), (true, "WS:8100".to_string()));
    assert_eq!(controller_status(&ControllerTransportState::Waiting), (false, "Waiting...".to_string()));
    assert_eq!(
        controller_status(&ControllerTransportState::Disconnected),
        (false, "Disconnected".to_string())
    );
    assert_eq!(host_status_text(HostTransportState::Both { udp_port: 9000, ws_port: 8001 }), "UDP:9000 + WS:8001");
    assert_eq!(host_status_text(HostTransportState::WebSocket { port: 8001 }), "WS:8001");
    assert_eq!(status_title(Some("Saved"), true), " OC BRIDGE │ Saved ");
    assert_eq!(status_title(None, true), " OC BRIDGE │ PAUSED ");
    assert_eq!(status_title(None, false), " OC BRIDGE ");
}

#[test]
fn bridge_action_labels() {
    assert_eq!(bridge_action_label(false, false), "–");
    assert_eq!(bridge_action_label(false, true), "–");
    assert_eq!(bridge_action_label(true, true), "Resume");
    assert_eq!(bridge_action_label(true, false), "Pause");
}

#[test]
fn instance_lock_file_name() {
    assert_eq!(lock_file_name("bitwig-hw-17081760"), "oc-bridge.bitwig-hw-17081760.lock");
}

#[test]
fn log_lines_per_kind() {
    let mut entry = LogEntry::protocol_in("DeviceChange", 128);
    entry.timestamp = "12:34:56.789".to_string();
    let line = log_line(&entry, 50);
    assert_eq!(line.time, "  12:34:56.789 ");
    assert_eq!(line.marker, " ← ");
    assert_eq!(line.marker_kind, MarkerKind::Incoming);
    assert_eq!(line.text, "DeviceChange        ");
    assert_eq!(line.size.as_deref(), Some("   128 B"));

    let mut entry = LogEntry::debug_log(Some(LogLevel::Warn), "a rather long firmware warning");
    entry.timestamp = "00:00:00.000".to_string();
    let line = log_line(&entry, 40);
    assert_eq!(line.marker, "[WRN] ");
    assert_eq!(line.marker_kind, MarkerKind::Level(Some(LogLevel::Warn)));
    assert_eq!(line.text, "a rathe...");
    assert!(line.size.is_none());

    let entry = LogEntry::system("Bridge started");
    let line = log_line(&entry, 30);
    assert_eq!(line.marker, "      ");
    assert_eq!(line.marker_kind, MarkerKind::System);
    assert_eq!(line.text, "");

    let entry = LogEntry::debug_log(None, "x");
    assert_eq!(log_line(&entry, 35).marker, "      ");
}

#[test]
fn filter_labels() {
    assert_eq!(filter_button_text("1", "Proto", true), "[1] Proto");
    assert_eq!(filter_button_text("2", "Debug", false), " 2  Debug");
    assert_eq!(sidebar_key_text("3", true), " [3] ");
    assert_eq!(sidebar_key_text("3", false), "  3  ");
}
