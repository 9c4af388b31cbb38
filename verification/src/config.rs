//! Configuration model: the bridge, log and UI settings read from
//! `config.toml`, the device presets read from `devices/*.toml`, and their
//! defaults.

use vstd::prelude::*;
use crate::constants::{
    DEFAULT_CONTROLLER_UDP_PORT, DEFAULT_CONTROLLER_WEBSOCKET_PORT, DEFAULT_CONTROL_PORT,
    DEFAULT_HOST_UDP_PORT, DEFAULT_HOST_WEBSOCKET_PORT, DEFAULT_LOG_BROADCAST_PORT,
};
use crate::transport::serial::{matching, SerialDeviceCandidate, SerialMatchRequest, SerialTransport};
use crate::error::BridgeError;
use crate::service::windows::str_views;

verus! {

// =============================================================================
// Device configuration
// =============================================================================

/// The operating system the bridge runs on, as far as port-name hints go.
#[derive(Debug, Clone, Copy, PartialEq, Eq, Structural)]
pub enum HostPlatform {
    Windows,
    MacOs,
    Linux,
    Other,
}

/// Platform-specific port name hints for device detection fallback.
#[derive(Debug, Clone)]
pub struct PlatformNameHint {
    /// Windows port name pattern (e.g. "COM").
    pub windows: Option<String>,
    /// macOS port name pattern (e.g. "usbmodem").
    pub macos: Option<String>,
    /// Linux port name pattern (e.g. "ttyACM").
    pub linux: Option<String>,
}

impl PlatformNameHint {
    /// The hint for `platform`; none on other platforms.
    pub fn current(&self, platform: HostPlatform) -> (hint: Option<&str>)
        ensures
            hint matches Some(h) ==> match platform {
                HostPlatform::Windows => self.windows matches Some(w) && h@ == w@,
                HostPlatform::MacOs => self.macos matches Some(w) && h@ == w@,
                HostPlatform::Linux => self.linux matches Some(w) && h@ == w@,
                HostPlatform::Other => false,
            },
            hint is None ==> match platform {
                HostPlatform::Windows => self.windows is None,
                HostPlatform::MacOs => self.macos is None,
                HostPlatform::Linux => self.linux is None,
                HostPlatform::Other => true,
            },
    {
        let chosen = match platform {
            HostPlatform::Windows => &self.windows,
            HostPlatform::MacOs => &self.macos,
            HostPlatform::Linux => &self.linux,
            HostPlatform::Other => {
                return None;
            },
        };
        match chosen {
            Some(s) => Some(s.as_str()),
            None => None,
        }
    }
}

impl Default for PlatformNameHint {
    fn default() -> (h: Self)
        ensures
            h.windows is None,
            h.macos is None,
            h.linux is None,
    {
        PlatformNameHint { windows: None, macos: None, linux: None }
    }
}

/// USB device detection configuration.
#[derive(Debug, Clone)]
pub struct DeviceConfig {
    /// Display name for the device.
    pub name: String,
    /// USB vendor id.
    pub vid: u16,
    /// Accepted USB product ids.
    pub pid_list: Vec<u16>,
    /// Platform-specific port name hints.
    pub name_hint: PlatformNameHint,
    /// Linux udev rules (multi-line).
    pub udev_rules: Option<String>,
    /// Preferred udev rules file name on Linux, e.g. "00-teensy.rules".
    pub udev_rules_filename: Option<String>,
}

// =============================================================================
// Transports
// =============================================================================

/// Transport for the controller side (source of MIDI messages).
#[derive(Debug, Clone, Copy, PartialEq, Eq, Structural)]
pub enum ControllerTransport {
    /// USB serial (controller hardware), COBS framed, reconnects on replug.
    Serial,
    /// UDP socket (desktop app simulation), raw protocol.
    Udp,
    /// WebSocket server (browser app simulation), raw protocol.
    WebSocket,
}

impl Default for ControllerTransport {
    fn default() -> (t: Self)
        ensures
            t == ControllerTransport::Serial,
    {
        ControllerTransport::Serial
    }
}

/// Transport for the host side (destination of MIDI messages).
#[derive(Debug, Clone, Copy, PartialEq, Eq, Structural)]
pub enum HostTransport {
    /// UDP only (native DAW extension).
    Udp,
    /// WebSocket only (browser DAW extension).
    WebSocket,
    /// UDP and WebSocket at once.
    Both,
}

impl Default for HostTransport {
    fn default() -> (t: Self)
        ensures
            t == HostTransport::Udp,
    {
        HostTransport::Udp
    }
}

// =============================================================================
// Application configuration
// =============================================================================

#[derive(Debug, Clone)]
pub struct BridgeConfig {
    /// Transport for the controller.
    pub controller_transport: ControllerTransport,
    /// Serial port name; empty means auto-detect with `device_preset`.
    pub serial_port: String,
    /// Device preset name (file name without `.toml` in `devices/`).
    pub device_preset: Option<String>,
    /// UDP port for the controller.
    pub controller_udp_port: u16,
    /// WebSocket port for the controller.
    pub controller_websocket_port: u16,
    /// Transport for the host.
    pub host_transport: HostTransport,
    /// UDP port for the host.
    pub host_udp_port: u16,
    /// WebSocket port for the host.
    pub host_websocket_port: u16,
    /// UDP port for log broadcast from the service to the TUI.
    pub log_broadcast_port: u16,
    /// TCP port for local control commands, bound to 127.0.0.1.
    pub control_port: u16,
}

#[derive(Debug, Clone)]
pub struct LogsConfig {
    /// Maximum log entries in memory.
    pub max_entries: usize,
    /// Maximum log entries when exporting.
    pub export_max: usize,
}

#[derive(Debug, Clone)]
pub struct UiConfig {
    /// Default filter: "Protocol", "Debug" or "All".
    pub default_filter: String,
}

/// Application configuration.
#[derive(Debug, Clone)]
pub struct Config {
    pub bridge: BridgeConfig,
    pub logs: LogsConfig,
    pub ui: UiConfig,
}

impl BridgeConfig {
    /// The default bridge settings: a serial controller found through the
    /// "teensy" preset, a UDP host, and the default ports.
    pub open spec fn is_default(&self) -> bool {
        &&& self.controller_transport == ControllerTransport::Serial
        &&& self.serial_port@ == Seq::<char>::empty()
        &&& self.device_preset matches Some(p) && p@ == "teensy"@
        &&& self.controller_udp_port == DEFAULT_CONTROLLER_UDP_PORT
        &&& self.controller_websocket_port == DEFAULT_CONTROLLER_WEBSOCKET_PORT
        &&& self.host_transport == HostTransport::Udp
        &&& self.host_udp_port == DEFAULT_HOST_UDP_PORT
        &&& self.host_websocket_port == DEFAULT_HOST_WEBSOCKET_PORT
        &&& self.log_broadcast_port == DEFAULT_LOG_BROADCAST_PORT
        &&& self.control_port == DEFAULT_CONTROL_PORT
    }
}

impl Default for BridgeConfig {
    fn default() -> (c: Self)
        ensures
            c.is_default(),
    {
        BridgeConfig {
            controller_transport: ControllerTransport::Serial,
            serial_port: String::new(),
            device_preset: Some(String::from_str("teensy")),
            controller_udp_port: DEFAULT_CONTROLLER_UDP_PORT,
            controller_websocket_port: DEFAULT_CONTROLLER_WEBSOCKET_PORT,
            host_transport: HostTransport::Udp,
            host_udp_port: DEFAULT_HOST_UDP_PORT,
            host_websocket_port: DEFAULT_HOST_WEBSOCKET_PORT,
            log_broadcast_port: DEFAULT_LOG_BROADCAST_PORT,
            control_port: DEFAULT_CONTROL_PORT,
        }
    }
}

impl Default for LogsConfig {
    fn default() -> (c: Self)
        ensures
            c.max_entries == 200,
            c.export_max == 2000,
    {
        LogsConfig { max_entries: 200, export_max: 2000 }
    }
}

impl Default for UiConfig {
    fn default() -> (c: Self)
        ensures
            c.default_filter@ == "All"@,
    {
        UiConfig { default_filter: String::from_str("All") }
    }
}

impl Default for Config {
    fn default() -> (c: Self)
        ensures
            c.bridge.is_default(),
            c.logs.max_entries == 200,
            c.logs.export_max == 2000,
            c.ui.default_filter@ == "All"@,
    {
        Config { bridge: BridgeConfig::default(), logs: LogsConfig::default(), ui: UiConfig::default() }
    }
}


/// The serial port to use: the configured one when it is set, otherwise the
/// one device among `candidates` that the device preset matches. `preset`
/// is the preset loaded for `cfg.bridge.device_preset`; without it, or
/// without exactly one match, there is none.
pub fn detect_serial(
    cfg: &Config,
    preset: Option<&DeviceConfig>,
    candidates: &[SerialDeviceCandidate],
) -> (port: Option<String>)
    ensures
        cfg.bridge.serial_port@.len() > 0 ==> (port matches Some(p) && p@
            == cfg.bridge.serial_port@),
        cfg.bridge.serial_port@.len() == 0 && preset is None ==> port is None,
        cfg.bridge.serial_port@.len() == 0 ==> (preset matches Some(d) ==> ({
            let m = matching(candidates@, *d, SerialMatchRequest { serial_number: None });
            &&& m.len() == 1 ==> (port matches Some(p) && p@ == m[0].port_name@)
            &&& m.len() != 1 ==> port is None
        })),
{
    if !cfg.bridge.serial_port.as_str().is_empty() {
        return Some(cfg.bridge.serial_port.clone());
    }
    match preset {
        None => None,
        Some(d) => match SerialTransport::detect(d, candidates) {
            Ok(p) => Some(p),
            Err(_) => None,
        },
    }
}

/// An environment variable the configuration directory can come from.
#[derive(Debug, Clone, Copy, PartialEq, Eq, Structural)]
pub enum EnvVar {
    AppData,
    Home,
    XdgConfigHome,
}

impl EnvVar {
    /// The variable's name.
    pub fn name(self) -> (s: &'static str)
        ensures
            s@ == match self {
                EnvVar::AppData => "APPDATA"@,
                EnvVar::Home => "HOME"@,
                EnvVar::XdgConfigHome => "XDG_CONFIG_HOME"@,
            },
    {
        match self {
            EnvVar::AppData => "APPDATA",
            EnvVar::Home => "HOME",
            EnvVar::XdgConfigHome => "XDG_CONFIG_HOME",
        }
    }
}

/// Which of the variables are set.
#[derive(Debug, Clone, Copy, PartialEq, Eq, Structural)]
pub struct EnvPresence {
    pub appdata: bool,
    pub home: bool,
    pub xdg_config_home: bool,
}

/// The configuration directory, as a variable to start from and the
/// directories below it: `%APPDATA%/OpenControl/oc-bridge` on Windows,
/// `$HOME/Library/Application Support/OpenControl/oc-bridge` on macOS, and
/// `$XDG_CONFIG_HOME/opencontrol/oc-bridge` (or
/// `$HOME/.config/opencontrol/oc-bridge`) on Linux. A missing variable is a
/// configuration error naming it (`Err(Some(name))`); other platforms have
/// no such directory (`Err(None)`).
pub open spec fn spec_config_dir_plan(platform: HostPlatform, env: EnvPresence) -> Result<
    (EnvVar, Seq<Seq<char>>),
    Option<Seq<char>>,
> {
    match platform {
        HostPlatform::Windows => if env.appdata {
            Ok((EnvVar::AppData, seq!["OpenControl"@, "oc-bridge"@]))
        } else {
            Err(Some("APPDATA"@))
        },
        HostPlatform::MacOs => if env.home {
            Ok((EnvVar::Home, seq!["Library"@, "Application Support"@, "OpenControl"@, "oc-bridge"@]))
        } else {
            Err(Some("HOME"@))
        },
        HostPlatform::Linux => if env.xdg_config_home {
            Ok((EnvVar::XdgConfigHome, seq!["opencontrol"@, "oc-bridge"@]))
        } else if env.home {
            Ok((EnvVar::Home, seq![".config"@, "opencontrol"@, "oc-bridge"@]))
        } else {
            Err(Some("HOME"@))
        },
        HostPlatform::Other => Err(None),
    }
}

fn env_missing(field: &'static str) -> (e: BridgeError)
    ensures
        e matches BridgeError::ConfigValidation { field: f, reason } && f@ == field@ && reason@
            == "environment variable not set"@,
{
    BridgeError::ConfigValidation { field, reason: String::from_str("environment variable not set") }
}

/// Where the per-user configuration directory is; see
/// `spec_config_dir_plan`.
pub fn config_dir_plan(platform: HostPlatform, env: EnvPresence) -> (r: Result<
    (EnvVar, Vec<&'static str>),
    BridgeError,
>)
    ensures
        match (r, spec_config_dir_plan(platform, env)) {
            (Ok((v, parts)), Ok((w, ps))) => v == w && str_views(parts@) == ps,
            (Err(BridgeError::ConfigValidation { field, reason }), Err(Some(name))) => field@ == name
                && reason@ == "environment variable not set"@,
            (Err(BridgeError::PlatformNotSupported { feature }), Err(None)) => feature@
                == "config_dir"@,
            _ => false,
        },
{
    proof {
        reveal_strlit("OpenControl");
        reveal_strlit("oc-bridge");
        reveal_strlit("Library");
        reveal_strlit("Application Support");
        reveal_strlit("opencontrol");
        reveal_strlit(".config");
        reveal_strlit("environment variable not set");
    }
    match platform {
        HostPlatform::Windows => if env.appdata {
            let v: Vec<&'static str> = vec!["OpenControl", "oc-bridge"];
            assert(str_views(v@) =~= seq!["OpenControl"@, "oc-bridge"@]);
            Ok((EnvVar::AppData, v))
        } else {
            Err(env_missing("APPDATA"))
        },
        HostPlatform::MacOs => if env.home {
            let v: Vec<&'static str> = vec!["Library", "Application Support", "OpenControl", "oc-bridge"];
            assert(str_views(v@) =~= seq!["Library"@, "Application Support"@, "OpenControl"@, "oc-bridge"@]);
            Ok((EnvVar::Home, v))
        } else {
            Err(env_missing("HOME"))
        },
        HostPlatform::Linux => if env.xdg_config_home {
            let v: Vec<&'static str> = vec!["opencontrol", "oc-bridge"];
            assert(str_views(v@) =~= seq!["opencontrol"@, "oc-bridge"@]);
            Ok((EnvVar::XdgConfigHome, v))
        } else if env.home {
            let v: Vec<&'static str> = vec![".config", "opencontrol", "oc-bridge"];
            assert(str_views(v@) =~= seq![".config"@, "opencontrol"@, "oc-bridge"@]);
            Ok((EnvVar::Home, v))
        } else {
            Err(env_missing("HOME"))
        },
        HostPlatform::Other => Err(BridgeError::PlatformNotSupported { feature: "config_dir" }),
    }
}

} // verus!
