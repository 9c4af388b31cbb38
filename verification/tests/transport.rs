use oc_bridge::config::{DeviceConfig, PlatformNameHint};
use oc_bridge::error::BridgeError;
use oc_bridge::transport::serial::{matches_request, select_candidate, SerialDeviceCandidate, SerialMatchRequest};
use oc_bridge::transport::{SerialTransport, UdpTransport, WebSocketTransport};
use oc_bridge::serial::{detect_teensy, is_teensy};

fn device_config() -> DeviceConfig {
    DeviceConfig {
        name: "Teensy".to_string(),
        vid: 0x16C0,
        pid_list: vec![0x0489],
        name_hint: PlatformNameHint::default(),
        udev_rules: None,
        udev_rules_filename: None,
    }
}

fn candidate(port_name: &str, serial_number: Option<&str>) -> SerialDeviceCandidate {
    SerialDeviceCandidate {
        port_name: port_name.to_string(),
        serial_number: serial_number.map(|value| value.to_string()),
        manufacturer: Some("petitechose.audio".to_string()),
        product: Some("MIDI Studio [hw]".to_string()),
        vid: 0x16C0,
        pid: 0x0489,
    }
}

#[test]
fn test_serial_transport_new() {
    let transport = SerialTransport::new("COM3");
    assert_eq!(transport.port_name(), "COM3");
}

#[test]
fn test_serial_transport_from_string() {
    let transport = SerialTransport::new(&String::from("/dev/ttyACM0"));
    assert_eq!(transport.port_name(), "/dev/ttyACM0");
}

#[test]
fn test_select_candidate_without_serial_returns_multiple_when_two_match() {
    let candidates = vec![candidate("COM3", Some("17081760")), candidate("COM6", Some("17076520"))];
    let err = select_candidate(&candidates, &device_config(), &SerialMatchRequest::default()).unwrap_err();
    assert!(matches!(err, BridgeError::MultipleDevicesFound { count: 2 }));
}

#[test]
fn test_select_candidate_with_matching_serial_returns_correct_port() {
    let candidates = vec![candidate("COM3", Some("17081760")), candidate("COM6", Some("17076520"))];
    let request = SerialMatchRequest { serial_number: Some("17076520".to_string()) };
    let selected = select_candidate(&candidates, &device_config(), &request).unwrap();
    assert_eq!(selected.port_name, "COM6");
}

#[test]
fn test_select_candidate_with_missing_serial_returns_no_device_found() {
    let candidates = vec![candidate("COM3", Some("17081760")), candidate("COM6", Some("17076520"))];
    let request = SerialMatchRequest { serial_number: Some("missing".to_string()) };
    let err = select_candidate(&candidates, &device_config(), &request).unwrap_err();
    assert!(matches!(err, BridgeError::NoDeviceFound));
}

#[test]
fn test_matches_request_rejects_wrong_serial() {
    let request = SerialMatchRequest { serial_number: Some("17081760".to_string()) };
    assert!(!matches_request(&candidate("COM6", Some("17076520")), &request));
}

#[test]
fn detect_picks_the_only_device_with_configured_ids() {
    let mut other = candidate("COM9", None);
    other.pid = 0x0001;
    let candidates = vec![other, candidate("COM4", None)];
    assert_eq!(SerialTransport::detect(&device_config(), &candidates).unwrap(), "COM4");
    assert!(matches!(SerialTransport::detect(&device_config(), &[]), Err(BridgeError::NoDeviceFound)));
}

#[test]
fn test_udp_transport_new() {
    let transport = UdpTransport::new(9000);
    assert_eq!(transport.port(), 9000);
}

#[test]
fn test_websocket_transport_new() {
    let transport = WebSocketTransport::new(9002);
    assert_eq!(transport.port(), 9002);
}

fn usb(port_name: &str, vid: u16, pid: u16) -> SerialDeviceCandidate {
    SerialDeviceCandidate {
        port_name: port_name.to_string(),
        serial_number: None,
        manufacturer: None,
        product: None,
        vid,
        pid,
    }
}

#[test]
fn teensy_detection_among_usb_ports() {
    let other = usb("/dev/ttyUSB0", 0x0403, 0x6001);
    let teensy = usb("/dev/ttyACM0", 0x16C0, 0x0483);
    assert!(is_teensy(&teensy));
    assert!(is_teensy(&usb("COM5", 0x16C0, 0x0489)));
    assert!(!is_teensy(&usb("COM6", 0x16C0, 0x0490)));
    assert!(!is_teensy(&other));
    assert_eq!(detect_teensy(&[other.clone(), teensy.clone()]), Ok("/dev/ttyACM0".to_string()));
    assert_eq!(
        detect_teensy(&[other.clone()]),
        Err("No Teensy found. Connect your controller or specify port manually.".to_string())
    );
    assert_eq!(
        detect_teensy(&[teensy.clone(), usb("/dev/ttyACM1", 0x16C0, 0x0486)]),
        Err("Multiple Teensy devices (2). Specify port.".to_string())
    );
}
