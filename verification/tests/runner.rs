use oc_bridge::bridge::runner::{connection_banner, format_host_transport_info, plan_serial_attempt, SerialAttempt};
use oc_bridge::bridge::stats::{RateSample, Stats};
use oc_bridge::config::{detect_serial, BridgeConfig, Config, ControllerTransport, DeviceConfig, HostTransport, PlatformNameHint};
use oc_bridge::transport::serial::SerialDeviceCandidate;

fn teensy() -> DeviceConfig {
    DeviceConfig {
        name: "Teensy".to_string(),
        vid: 0x16C0,
        pid_list: vec![0x0489],
        name_hint: PlatformNameHint::default(),
        udev_rules: None,
        udev_rules_filename: None,
    }
}

fn candidate(port_name: &str, vid: u16, pid: u16) -> SerialDeviceCandidate {
    SerialDeviceCandidate {
        port_name: port_name.to_string(),
        serial_number: None,
        manufacturer: None,
        product: None,
        vid,
        pid,
    }
}

#[test]
fn host_transport_info_per_transport() {
    let mut cfg = BridgeConfig::default();
    cfg.host_udp_port = 9000;
    cfg.host_websocket_port = 8001;
    cfg.host_transport = HostTransport::Udp;
    assert_eq!(format_host_transport_info(&cfg), "UDP:9000");
    cfg.host_transport = HostTransport::WebSocket;
    assert_eq!(format_host_transport_info(&cfg), "WS:8001");
    cfg.host_transport = HostTransport::Both;
    assert_eq!(format_host_transport_info(&cfg), "UDP:9000 + WS:8001");
}

#[test]
fn connection_banner_per_controller() {
    let mut cfg = BridgeConfig::default();
    cfg.host_transport = HostTransport::Udp;
    cfg.host_udp_port = 9000;
    cfg.controller_transport = ControllerTransport::Serial;
    assert_eq!(connection_banner(&cfg, "/dev/ttyACM0"), "Connected: Serial:/dev/ttyACM0 <-> UDP:9000");
    cfg.controller_transport = ControllerTransport::Udp;
    cfg.controller_udp_port = 8000;
    assert_eq!(
        connection_banner(&cfg, ""),
        "Bridge started: UDP:8000 (controller) <-> UDP:9000 (host)"
    );
    cfg.controller_transport = ControllerTransport::WebSocket;
    cfg.controller_websocket_port = 8100;
    assert_eq!(
        connection_banner(&cfg, ""),
        "Bridge started: WS:8100 (controller) <-> UDP:9000 (host)"
    );
}

#[test]
fn serial_attempt_uses_configured_port() {
    let mut cfg = BridgeConfig::default();
    cfg.serial_port = "COM7".to_string();
    match plan_serial_attempt(&cfg, None, &[]) {
        SerialAttempt::Open { port, announce } => {
            assert_eq!(port, "COM7");
            assert!(announce.is_none());
        }
        other => panic!("unexpected {:?}", other),
    }
}

#[test]
fn serial_attempt_waits_without_preset() {
    let mut cfg = BridgeConfig::default();
    cfg.serial_port = String::new();
    match plan_serial_attempt(&cfg, None, &[]) {
        SerialAttempt::Wait { note } => {
            assert_eq!(note.as_deref(), Some("No device preset configured, waiting..."))
        }
        other => panic!("unexpected {:?}", other),
    }
}

#[test]
fn serial_attempt_opens_the_one_match() {
    let mut cfg = BridgeConfig::default();
    cfg.serial_port = String::new();
    let preset = teensy();
    let candidates = vec![candidate("/dev/ttyUSB0", 0x1234, 0x0001), candidate("/dev/ttyACM0", 0x16C0, 0x0489)];
    match plan_serial_attempt(&cfg, Some(&preset), &candidates) {
        SerialAttempt::Open { port, announce } => {
            assert_eq!(port, "/dev/ttyACM0");
            assert_eq!(announce.as_deref(), Some("Found Teensy on /dev/ttyACM0"));
        }
        other => panic!("unexpected {:?}", other),
    }
    let none: Vec<SerialDeviceCandidate> = Vec::new();
    assert!(matches!(
        plan_serial_attempt(&cfg, Some(&preset), &none),
        SerialAttempt::Wait { note: None }
    ));
    let two = vec![candidate("/dev/ttyACM0", 0x16C0, 0x0489), candidate("/dev/ttyACM1", 0x16C0, 0x0489)];
    assert!(matches!(
        plan_serial_attempt(&cfg, Some(&preset), &two),
        SerialAttempt::Wait { note: None }
    ));
}

#[test]
fn detect_serial_prefers_configured_port() {
    let mut cfg = Config::default();
    cfg.bridge.serial_port = "COM3".to_string();
    let preset = teensy();
    let candidates = vec![candidate("COM9", 0x16C0, 0x0489)];
    assert_eq!(detect_serial(&cfg, Some(&preset), &candidates), Some("COM3".to_string()));
    cfg.bridge.serial_port = String::new();
    assert_eq!(detect_serial(&cfg, Some(&preset), &candidates), Some("COM9".to_string()));
    assert_eq!(detect_serial(&cfg, None, &candidates), None);
    assert_eq!(detect_serial(&cfg, Some(&preset), &[]), None);
}

#[test]
fn stats_count_bytes_each_way() {
    let stats = Stats::new();
    assert_eq!(stats.tx_bytes(), 0);
    assert_eq!(stats.rx_bytes(), 0);
    stats.add_tx(10);
    stats.add_tx(5);
    stats.add_rx(7);
    assert_eq!(stats.tx_bytes(), 15);
    assert_eq!(stats.rx_bytes(), 7);
}

#[test]
fn stats_rate_sample_reports_bytes_since_last_update() {
    let stats = Stats::default();
    stats.add_tx(100);
    stats.add_rx(40);
    assert_eq!(stats.take_rate_sample(50, 100), RateSample::Cached);
    assert_eq!(
        stats.take_rate_sample(200, 100),
        RateSample::Fresh { tx_bytes: 100, rx_bytes: 40, elapsed_nanos: 200 }
    );
    stats.add_tx(1);
    assert_eq!(stats.take_rate_sample(250, 100), RateSample::Cached);
    assert_eq!(
        stats.take_rate_sample(400, 100),
        RateSample::Fresh { tx_bytes: 1, rx_bytes: 0, elapsed_nanos: 200 }
    );
    assert_eq!(stats.cached_rate_bits(), (0, 0));
    stats.store_rate_bits(3, 4);
    assert_eq!(stats.cached_rate_bits(), (3, 4));
}
