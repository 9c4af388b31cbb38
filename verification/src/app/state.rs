//! What the status panel shows about the transports.

use vstd::prelude::*;
use crate::config::{Config, ControllerTransport, HostTransport};
use crate::logging::entry::LogLevel;

verus! {

/// Whether the terminal client runs a bridge itself or watches a service.
#[derive(Debug, Clone, Copy, PartialEq, Eq, Structural)]
pub enum AppMode {
    /// The client runs its own bridge.
    Local,
    /// The client monitors a running service.
    Monitor,
}

/// Controller transport as the status panel shows it.
#[derive(Debug, Clone, PartialEq)]
pub enum ControllerTransportState {
    /// Connected through a serial port.
    Serial { port: String },
    /// UDP socket (controller simulation).
    Udp { port: u16 },
    /// WebSocket server (controller simulation).
    WebSocket { port: u16 },
    /// Waiting for the device (for example, serial device not plugged in).
    Waiting,
    /// Daemon not running.
    Disconnected,
}

/// Host transport as the status panel shows it.
#[derive(Debug, Clone, Copy, PartialEq, Eq, Structural)]
pub enum HostTransportState {
    Udp { port: u16 },
    WebSocket { port: u16 },
    Both { udp_port: u16, ws_port: u16 },
}

/// The host side as configured.
pub fn determine_host_state(cfg: &Config) -> (s: HostTransportState)
    ensures
        s == match cfg.bridge.host_transport {
            HostTransport::Udp => HostTransportState::Udp { port: cfg.bridge.host_udp_port },
            HostTransport::WebSocket => HostTransportState::WebSocket {
                port: cfg.bridge.host_websocket_port,
            },
            HostTransport::Both => HostTransportState::Both {
                udp_port: cfg.bridge.host_udp_port,
                ws_port: cfg.bridge.host_websocket_port,
            },
        },
{
    match cfg.bridge.host_transport {
        HostTransport::Udp => HostTransportState::Udp { port: cfg.bridge.host_udp_port },
        HostTransport::WebSocket => HostTransportState::WebSocket {
            port: cfg.bridge.host_websocket_port,
        },
        HostTransport::Both => HostTransportState::Both {
            udp_port: cfg.bridge.host_udp_port,
            ws_port: cfg.bridge.host_websocket_port,
        },
    }
}

/// The controller side: disconnected without a daemon; for serial, the port
/// found by detection (or "(auto)") once the port is open, waiting before;
/// for UDP and WebSocket, the configured port. `detected_port` is the result
/// of serial detection for this configuration.
pub fn determine_controller_state(
    cfg: &Config,
    daemon_running: bool,
    serial_open: bool,
    detected_port: Option<String>,
) -> (s: ControllerTransportState)
    ensures
        !daemon_running ==> s == ControllerTransportState::Disconnected,
        daemon_running ==> match cfg.bridge.controller_transport {
            ControllerTransport::Serial => if serial_open {
                s matches ControllerTransportState::Serial { port } && port@ == match detected_port {
                    Some(p) => p@,
                    None => "(auto)"@,
                }
            } else {
                s == ControllerTransportState::Waiting
            },
            ControllerTransport::Udp => s == ControllerTransportState::Udp {
                port: cfg.bridge.controller_udp_port,
            },
            ControllerTransport::WebSocket => s == ControllerTransportState::WebSocket {
                port: cfg.bridge.controller_websocket_port,
            },
        },
{
    if !daemon_running {
        return ControllerTransportState::Disconnected;
    }
    match cfg.bridge.controller_transport {
        ControllerTransport::Serial => {
            if serial_open {
                let port = match detected_port {
                    Some(p) => p,
                    None => String::from_str("(auto)"),
                };
                ControllerTransportState::Serial { port }
            } else {
                ControllerTransportState::Waiting
            }
        },
        ControllerTransport::Udp => ControllerTransportState::Udp {
            port: cfg.bridge.controller_udp_port,
        },
        ControllerTransport::WebSocket => ControllerTransportState::WebSocket {
            port: cfg.bridge.controller_websocket_port,
        },
    }
}

/// Status line shown after choosing a debug level filter.
pub fn debug_level_status(level: Option<LogLevel>) -> (s: &'static str)
    ensures
        s@ == match level {
            Some(LogLevel::Debug) => "Debug: DEBUG only"@,
            Some(LogLevel::Info) => "Debug: INFO only"@,
            Some(LogLevel::Warn) => "Debug: WARN only"@,
            Some(LogLevel::Error) => "Debug: ERROR only"@,
            None => "Debug: All levels"@,
        },
{
    match level {
        Some(LogLevel::Debug) => "Debug: DEBUG only",
        Some(LogLevel::Info) => "Debug: INFO only",
        Some(LogLevel::Warn) => "Debug: WARN only",
        Some(LogLevel::Error) => "Debug: ERROR only",
        None => "Debug: All levels",
    }
}

} // verus!
