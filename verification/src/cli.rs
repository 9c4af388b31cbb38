//! Command-line choices and what they make of the configuration.

use vstd::prelude::*;
use crate::config::{BridgeConfig, ControllerTransport, HostTransport};
use crate::constants::{DEFAULT_CONTROLLER_UDP_PORT, DEFAULT_CONTROLLER_WEBSOCKET_PORT, DEFAULT_HOST_UDP_PORT};

verus! {

/// Controller transport chosen on the command line (headless mode).
#[derive(Debug, Clone, Copy, PartialEq, Eq, Structural)]
pub enum ControllerArg {
    /// WebSocket server, for browser apps.
    Websocket,
    /// UDP socket, for native desktop apps.
    Udp,
}

impl Default for ControllerArg {
    fn default() -> (a: Self)
        ensures
            a == ControllerArg::Udp,
    {
        ControllerArg::Udp
    }
}

/// Subcommands of `ctl`, sent to a running bridge.
#[derive(Debug, Clone, Copy, PartialEq, Eq, Structural)]
pub enum CtlCommand {
    /// Temporarily release the serial port.
    Pause,
    /// Resume the serial connection.
    Resume,
    /// Query the pause state.
    Status,
    /// Connectivity check.
    Ping,
    /// Query the daemon's identity and ports.
    Info,
    /// Ask the daemon to exit.
    Shutdown,
}

/// Subcommands.
#[derive(Debug, Clone, Copy, PartialEq, Eq, Structural)]
pub enum Command {
    /// Control a running bridge.
    Ctl { cmd: CtlCommand, control_port: Option<u16> },
}

/// Parsed command line.
#[derive(Debug, Clone, PartialEq, Eq)]
pub struct Cli {
    pub verbose: bool,
    pub no_relaunch: bool,
    pub headless: bool,
    pub daemon: bool,
    pub controller: Option<ControllerArg>,
    pub controller_port: Option<u16>,
    pub port: Option<String>,
    pub udp_port: Option<u16>,
    pub command: Option<Command>,
}

/// The word a `ctl` subcommand is sent as.
pub fn ctl_command_name(cmd: CtlCommand) -> (s: &'static str)
    ensures
        s@ == match cmd {
            CtlCommand::Pause => "pause"@,
            CtlCommand::Resume => "resume"@,
            CtlCommand::Status => "status"@,
            CtlCommand::Ping => "ping"@,
            CtlCommand::Info => "info"@,
            CtlCommand::Shutdown => "shutdown"@,
        },
{
    match cmd {
        CtlCommand::Pause => "pause",
        CtlCommand::Resume => "resume",
        CtlCommand::Status => "status",
        CtlCommand::Ping => "ping",
        CtlCommand::Info => "info",
        CtlCommand::Shutdown => "shutdown",
    }
}

/// The bridge configuration of headless mode: the chosen controller
/// transport (UDP when none) on the given port or that transport's default,
/// and a UDP host on the given port or 9000; the rest as by default.
pub fn headless_bridge_config(
    controller: Option<ControllerArg>,
    controller_port: Option<u16>,
    host_port: Option<u16>,
) -> (c: BridgeConfig)
    ensures
        ({
            let arg = match controller {
                Some(a) => a,
                None => ControllerArg::Udp,
            };
            let port = match controller_port {
                Some(p) => p,
                None => if arg == ControllerArg::Websocket {
                    DEFAULT_CONTROLLER_WEBSOCKET_PORT
                } else {
                    DEFAULT_CONTROLLER_UDP_PORT
                },
            };
            &&& c.controller_transport == if arg == ControllerArg::Websocket {
                ControllerTransport::WebSocket
            } else {
                ControllerTransport::Udp
            }
            &&& c.controller_websocket_port == port
            &&& c.controller_udp_port == port
            &&& c.host_transport == HostTransport::Udp
            &&& c.host_udp_port == match host_port {
                Some(p) => p,
                None => DEFAULT_HOST_UDP_PORT,
            }
        }),
        ({
            let d = c;
            &&& d.serial_port@ == Seq::<char>::empty()
            &&& d.device_preset matches Some(p) && p@ == "teensy"@
            &&& d.host_websocket_port == crate::constants::DEFAULT_HOST_WEBSOCKET_PORT
            &&& d.log_broadcast_port == crate::constants::DEFAULT_LOG_BROADCAST_PORT
            &&& d.control_port == crate::constants::DEFAULT_CONTROL_PORT
        }),
{
    let arg = match controller {
        Some(a) => a,
        None => ControllerArg::default(),
    };
    let port = match controller_port {
        Some(p) => p,
        None => match arg {
            ControllerArg::Websocket => DEFAULT_CONTROLLER_WEBSOCKET_PORT,
            ControllerArg::Udp => DEFAULT_CONTROLLER_UDP_PORT,
        },
    };
    let host_udp_port = match host_port {
        Some(p) => p,
        None => DEFAULT_HOST_UDP_PORT,
    };
    let mut config = BridgeConfig::default();
    config.controller_transport = match arg {
        ControllerArg::Websocket => ControllerTransport::WebSocket,
        ControllerArg::Udp => ControllerTransport::Udp,
    };
    config.controller_websocket_port = port;
    config.controller_udp_port = port;
    config.host_transport = HostTransport::Udp;
    config.host_udp_port = host_udp_port;
    config
}

/// Daemon mode's command-line overrides: a serial port and a host UDP port.
pub fn apply_daemon_overrides(cfg: &mut BridgeConfig, port: Option<String>, udp_port: Option<u16>)
    ensures
        final(cfg).serial_port@ == match port {
            Some(p) => p@,
            None => old(cfg).serial_port@,
        },
        final(cfg).host_udp_port == match udp_port {
            Some(p) => p,
            None => old(cfg).host_udp_port,
        },
        final(cfg).controller_transport == old(cfg).controller_transport,
        final(cfg).device_preset == old(cfg).device_preset,
        final(cfg).controller_udp_port == old(cfg).controller_udp_port,
        final(cfg).controller_websocket_port == old(cfg).controller_websocket_port,
        final(cfg).host_transport == old(cfg).host_transport,
        final(cfg).host_websocket_port == old(cfg).host_websocket_port,
        final(cfg).log_broadcast_port == old(cfg).log_broadcast_port,
        final(cfg).control_port == old(cfg).control_port,
{
    match port {
        Some(p) => cfg.serial_port = p,
        None => {},
    }
    match udp_port {
        Some(p) => cfg.host_udp_port = p,
        None => {},
    }
}

} // verus!
