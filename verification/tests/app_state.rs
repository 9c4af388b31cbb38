use oc_bridge::app::state::{
    debug_level_status, determine_controller_state, determine_host_state, ControllerTransportState, HostTransportState,
};
use oc_bridge::cli::{apply_daemon_overrides, ctl_command_name, headless_bridge_config, ControllerArg, CtlCommand};
use oc_bridge::config::{BridgeConfig, Config, ControllerTransport, HostTransport};
use oc_bridge::elevation::requires_elevation;
use oc_bridge::logging::LogLevel;

#[test]
fn host_state_follows_config() {
    let mut cfg = Config::default();
    assert_eq!(determine_host_state(&cfg), HostTransportState::Udp { port: 9000 });
    cfg.bridge.host_transport = HostTransport::Both;
    assert_eq!(determine_host_state(&cfg), HostTransportState::Both { udp_port: 9000, ws_port: 8000 });
}

#[test]
fn controller_state_follows_daemon_and_serial() {
    let mut cfg = Config::default();
    assert_eq!(determine_controller_state(&cfg, false, true, None), ControllerTransportState::Disconnected);
    assert_eq!(determine_controller_state(&cfg, true, false, None), ControllerTransportState::Waiting);
    assert_eq!(
        determine_controller_state(&cfg, true, true, None),
        ControllerTransportState::Serial { port: "(auto)".to_string() }
    );
    assert_eq!(
        determine_controller_state(&cfg, true, true, Some("COM3".to_string())),
        ControllerTransportState::Serial { port: "COM3".to_string() }
    );
    cfg.bridge.controller_transport = ControllerTransport::WebSocket;
    assert_eq!(determine_controller_state(&cfg, true, false, None), ControllerTransportState::WebSocket { port: 8100 });
}

#[test]
fn debug_level_status_texts() {
    assert_eq!(debug_level_status(Some(LogLevel::Warn)), "Debug: WARN only");
    assert_eq!(debug_level_status(None), "Debug: All levels");
}

#[test]
fn headless_config_uses_transport_defaults() {
    let cfg = headless_bridge_config(Some(ControllerArg::Websocket), None, None);
    assert_eq!(cfg.controller_transport, ControllerTransport::WebSocket);
    assert_eq!(cfg.controller_websocket_port, 8100);
    assert_eq!(cfg.host_udp_port, 9000);
    let cfg = headless_bridge_config(None, Some(8001), Some(9002));
    assert_eq!(cfg.controller_transport, ControllerTransport::Udp);
    assert_eq!(cfg.controller_udp_port, 8001);
    assert_eq!(cfg.host_udp_port, 9002);
    assert_eq!(ctl_command_name(CtlCommand::Shutdown), "shutdown");
}

#[test]
fn daemon_overrides_replace_given_values() {
    let mut cfg = BridgeConfig::default();
    apply_daemon_overrides(&mut cfg, Some("COM7".to_string()), None);
    assert_eq!(cfg.serial_port, "COM7");
    assert_eq!(cfg.host_udp_port, 9000);
    apply_daemon_overrides(&mut cfg, None, Some(9100));
    assert_eq!(cfg.serial_port, "COM7");
    assert_eq!(cfg.host_udp_port, 9100);
}

#[test]
fn elevation_is_needed_only_for_service_setup() {
    assert!(requires_elevation("install", false));
    assert!(requires_elevation("uninstall", false));
    assert!(!requires_elevation("install", true));
    assert!(!requires_elevation("start", false));
}
