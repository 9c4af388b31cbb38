use oc_bridge::config::{config_dir_plan, BridgeConfig, Config, ControllerTransport, EnvPresence, EnvVar, HostPlatform, HostTransport, LogsConfig, PlatformNameHint, UiConfig};
use oc_bridge::error::BridgeError;
use oc_bridge::constants::{
    DEFAULT_CONTROLLER_UDP_PORT, DEFAULT_CONTROLLER_WEBSOCKET_PORT, DEFAULT_HOST_UDP_PORT, DEFAULT_HOST_WEBSOCKET_PORT,
    DEFAULT_LOG_BROADCAST_PORT,
};

#[test]
fn test_default_bridge_config_values() {
    let config = BridgeConfig::default();

    assert_eq!(config.controller_transport, ControllerTransport::Serial);
    assert_eq!(config.serial_port, "");
    assert_eq!(config.device_preset, Some("teensy".to_string()));
    assert_eq!(config.controller_udp_port, DEFAULT_CONTROLLER_UDP_PORT);
    assert_eq!(config.controller_websocket_port, DEFAULT_CONTROLLER_WEBSOCKET_PORT);

    assert_eq!(config.host_transport, HostTransport::Udp);
    assert_eq!(config.host_udp_port, DEFAULT_HOST_UDP_PORT);
    assert_eq!(config.host_websocket_port, DEFAULT_HOST_WEBSOCKET_PORT);

    assert_eq!(config.log_broadcast_port, DEFAULT_LOG_BROADCAST_PORT);
}

#[test]
fn test_default_logs_config_values() {
    let config = LogsConfig::default();
    assert_eq!(config.max_entries, 200);
    assert_eq!(config.export_max, 2000);
}

#[test]
fn test_controller_transport_default() {
    let transport = ControllerTransport::default();
    assert_eq!(transport, ControllerTransport::Serial);
}

#[test]
fn test_host_transport_default() {
    let transport = HostTransport::default();
    assert_eq!(transport, HostTransport::Udp);
}

#[test]
fn default_config_and_ui_values() {
    let cfg = Config::default();
    assert_eq!(cfg.bridge.control_port, 7999);
    assert_eq!(cfg.logs.max_entries, 200);
    assert_eq!(UiConfig::default().default_filter, "All");
}

#[test]
fn platform_name_hint_picks_the_platform_entry() {
    let hint = PlatformNameHint { windows: Some("COM".to_string()), macos: None, linux: Some("ttyACM".to_string()) };
    assert_eq!(hint.current(HostPlatform::Windows), Some("COM"));
    assert_eq!(hint.current(HostPlatform::MacOs), None);
    assert_eq!(hint.current(HostPlatform::Linux), Some("ttyACM"));
    assert_eq!(hint.current(HostPlatform::Other), None);
}

#[test]
fn config_dir_follows_platform_and_environment() {
    let all = EnvPresence { appdata: true, home: true, xdg_config_home: true };
    let only_home = EnvPresence { appdata: false, home: true, xdg_config_home: false };
    let none = EnvPresence { appdata: false, home: false, xdg_config_home: false };

    let (var, parts) = config_dir_plan(HostPlatform::Windows, all).unwrap();
    assert_eq!(var, EnvVar::AppData);
    assert_eq!(var.name(), "APPDATA");
    assert_eq!(parts, vec!["OpenControl", "oc-bridge"]);

    let (var, parts) = config_dir_plan(HostPlatform::MacOs, all).unwrap();
    assert_eq!(var, EnvVar::Home);
    assert_eq!(parts, vec!["Library", "Application Support", "OpenControl", "oc-bridge"]);

    let (var, parts) = config_dir_plan(HostPlatform::Linux, all).unwrap();
    assert_eq!(var.name(), "XDG_CONFIG_HOME");
    assert_eq!(parts, vec!["opencontrol", "oc-bridge"]);

    let (var, parts) = config_dir_plan(HostPlatform::Linux, only_home).unwrap();
    assert_eq!(var, EnvVar::Home);
    assert_eq!(parts, vec![".config", "opencontrol", "oc-bridge"]);

    assert_eq!(
        config_dir_plan(HostPlatform::Linux, none),
        Err(BridgeError::ConfigValidation { field: "HOME", reason: "environment variable not set".to_string() })
    );
    assert_eq!(
        config_dir_plan(HostPlatform::Windows, only_home),
        Err(BridgeError::ConfigValidation { field: "APPDATA", reason: "environment variable not set".to_string() })
    );
    assert_eq!(
        config_dir_plan(HostPlatform::Other, all),
        Err(BridgeError::PlatformNotSupported { feature: "config_dir" })
    );
}
