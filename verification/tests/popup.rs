use oc_bridge::input::KeyCode;
use oc_bridge::popup::{ModeAction, ModeField, ModeSettings, TransportMode};

#[test]
fn popup_fields_cycle() {
    assert_eq!(ModeField::Mode.next(), ModeField::DevicePreset);
    assert_eq!(ModeField::VirtualPort.next(), ModeField::Mode);
    assert_eq!(ModeField::Mode.prev(), ModeField::VirtualPort);
    assert_eq!(ModeField::UdpPort.prev(), ModeField::DevicePreset);
}

#[test]
fn popup_edits_ports_and_cycles_mode() {
    let mut s = ModeSettings::new(TransportMode::Auto, None, vec![], 9000, 9001);
    s.start_editing();
    assert_eq!(s.get_transport_mode(), TransportMode::Serial);
    s.cycle_transport_mode();
    s.cycle_transport_mode();
    assert_eq!(s.transport_mode, TransportMode::Auto);
    s.next_field();
    s.start_editing();
    assert_eq!(s.device_preset_display(), "None");
    s.next_field();
    s.next_field();
    s.start_editing();
    assert_eq!(s.input_buffer, "9001");
    s.handle_backspace();
    s.handle_char('5');
    s.confirm_edit();
    assert_eq!(s.get_virtual_port(), 9005);
    assert_eq!(s.handle_key(KeyCode::Char('s')), ModeAction::Save);
    s.handle_key(KeyCode::Enter);
    s.input_buffer = "70000".to_string();
    s.handle_key(KeyCode::Enter);
    assert_eq!(s.virtual_port, 9005);
    s.cancel_edit();
    assert!(!s.editing);
}
