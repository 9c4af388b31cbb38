use oc_bridge::app::mode_settings::{ModeAction, ModeField, ModeSettings};
use oc_bridge::config::{BridgeConfig, ControllerTransport, HostTransport};
use oc_bridge::input::KeyCode;

fn settings() -> ModeSettings {
    ModeSettings::new(
        ControllerTransport::Serial,
        None,
        vec!["teensy".to_string(), "pico".to_string()],
        8000,
        8100,
        HostTransport::Udp,
        9000,
        8000,
    )
}

#[test]
fn mode_field_next_and_prev_are_inverse() {
    let fields = [
        ModeField::ControllerTransport,
        ModeField::DevicePreset,
        ModeField::ControllerUdpPort,
        ModeField::ControllerWsPort,
        ModeField::HostTransport,
        ModeField::HostUdpPort,
        ModeField::HostWsPort,
    ];
    for f in fields {
        assert_eq!(f.next().prev(), f);
        assert_eq!(f.prev().next(), f);
    }
    assert_eq!(ModeField::HostWsPort.next(), ModeField::ControllerTransport);
    assert_eq!(ModeField::ControllerTransport.prev(), ModeField::HostWsPort);
}

#[test]
fn transports_and_presets_cycle() {
    let mut s = settings();
    s.cycle_controller_transport();
    assert_eq!(s.controller_transport, ControllerTransport::Udp);
    s.cycle_controller_transport();
    s.cycle_controller_transport();
    assert_eq!(s.controller_transport, ControllerTransport::Serial);
    s.cycle_host_transport();
    assert_eq!(s.host_transport, HostTransport::WebSocket);
    s.cycle_host_transport();
    assert_eq!(s.host_transport, HostTransport::Both);

    assert_eq!(s.device_preset_display(), "None");
    s.cycle_device_preset();
    assert_eq!(s.device_preset_display(), "teensy");
    s.cycle_device_preset();
    assert_eq!(s.device_preset_display(), "pico");
    s.cycle_device_preset();
    assert_eq!(s.device_preset, None);
    s.device_preset = Some("gone".to_string());
    s.cycle_device_preset();
    assert_eq!(s.device_preset, Some("pico".to_string()));
}

#[test]
fn editing_a_port_through_keys() {
    let mut s = settings();
    assert_eq!(s.handle_key(KeyCode::Down), ModeAction::NoAction);
    assert_eq!(s.handle_key(KeyCode::Char('j')), ModeAction::NoAction);
    assert_eq!(s.selected_field, ModeField::ControllerUdpPort);
    s.handle_key(KeyCode::Enter);
    assert!(s.editing);
    assert_eq!(s.input_buffer, "8000");
    s.handle_key(KeyCode::Backspace);
    s.handle_key(KeyCode::Char('x'));
    s.handle_key(KeyCode::Char('7'));
    assert_eq!(s.input_buffer, "8007");
    s.handle_key(KeyCode::Char('1'));
    s.handle_key(KeyCode::Char('2'));
    assert_eq!(s.input_buffer, "80071");
    s.handle_key(KeyCode::Enter);
    assert!(!s.editing);
    assert_eq!(s.controller_udp_port, 8000);
    s.handle_key(KeyCode::Enter);
    s.input_buffer = "1234".to_string();
    s.confirm_edit();
    assert_eq!(s.controller_udp_port, 1234);
    s.start_editing();
    s.input_buffer = "0".to_string();
    s.confirm_edit();
    assert_eq!(s.controller_udp_port, 1234);
    assert_eq!(s.input_buffer, "");
}

#[test]
fn closing_and_saving() {
    let mut s = settings();
    assert_eq!(s.handle_key(KeyCode::Esc), ModeAction::Close);
    assert_eq!(s.handle_key(KeyCode::Char('m')), ModeAction::Close);
    assert_eq!(s.handle_key(KeyCode::Char('s')), ModeAction::Save);
    assert_eq!(s.handle_key(KeyCode::Up), ModeAction::NoAction);
    assert_eq!(s.selected_field, ModeField::HostWsPort);
    s.handle_key(KeyCode::Char(' '));
    assert!(s.editing);
    assert_eq!(s.handle_key(KeyCode::Esc), ModeAction::NoAction);
    assert!(!s.editing);
    assert_eq!(s.host_websocket_port, 8000);
}

#[test]
fn apply_to_writes_transports_preset_and_ports() {
    let s = ModeSettings::new(
        ControllerTransport::WebSocket,
        None,
        vec!["teensy".to_string()],
        8001,
        8101,
        HostTransport::Both,
        9001,
        8002,
    );
    let mut cfg = BridgeConfig::default();
    cfg.serial_port = "COM4".to_string();
    s.apply_to(&mut cfg);
    assert_eq!(cfg.controller_transport, ControllerTransport::WebSocket);
    assert_eq!(cfg.device_preset, None);
    assert_eq!(cfg.controller_udp_port, 8001);
    assert_eq!(cfg.controller_websocket_port, 8101);
    assert_eq!(cfg.host_transport, HostTransport::Both);
    assert_eq!(cfg.host_udp_port, 9001);
    assert_eq!(cfg.host_websocket_port, 8002);
    assert_eq!(cfg.serial_port, "COM4");
    assert_eq!(cfg.control_port, 7999);
}

#[test]
fn port_input_never_exceeds_five_digits() {
    let mut s = settings();
    s.selected_field = ModeField::ControllerUdpPort;
    s.start_editing();
    s.input_buffer = String::new();
    for c in "1234567890".chars() {
        s.handle_char(c);
        assert!(s.input_buffer.len() <= 5);
    }
    assert_eq!(s.input_buffer, "12345");
    s.handle_char('x');
    assert_eq!(s.input_buffer, "12345");
}
