//! Decisions of the bridge runner: which serial port a reconnection attempt
//! opens, and the lines it logs about the transports. Opening ports,
//! waiting and relaying happen outside the library.

use vstd::prelude::*;
use crate::config::{BridgeConfig, ControllerTransport, DeviceConfig, HostTransport};
use crate::text::{decimal, push_decimal};
use crate::transport::serial::{matching, SerialDeviceCandidate, SerialMatchRequest, SerialTransport};

verus! {

/// The host side as shown in the log: its transport and port(s).
pub open spec fn spec_host_transport_info(t: HostTransport, udp_port: u16, ws_port: u16) -> Seq<char> {
    match t {
        HostTransport::Udp => "UDP:"@ + decimal(udp_port as nat),
        HostTransport::WebSocket => "WS:"@ + decimal(ws_port as nat),
        HostTransport::Both => "UDP:"@ + decimal(udp_port as nat) + " + WS:"@ + decimal(
            ws_port as nat,
        ),
    }
}

/// The host transport and its port(s), as `UDP:9000`, `WS:8001` or
/// `UDP:9000 + WS:8001`.
pub fn format_host_transport_info(config: &BridgeConfig) -> (s: String)
    ensures
        s@ == spec_host_transport_info(
            config.host_transport,
            config.host_udp_port,
            config.host_websocket_port,
        ),
{
    proof {
        reveal_strlit("UDP:");
        reveal_strlit("WS:");
        reveal_strlit(" + WS:");
    }
    match config.host_transport {
        HostTransport::Udp => {
            let mut s = String::from_str("UDP:");
            push_decimal(&mut s, config.host_udp_port as u64);
            s
        },
        HostTransport::WebSocket => {
            let mut s = String::from_str("WS:");
            push_decimal(&mut s, config.host_websocket_port as u64);
            s
        },
        HostTransport::Both => {
            let mut s = String::from_str("UDP:");
            push_decimal(&mut s, config.host_udp_port as u64);
            s.append(" + WS:");
            push_decimal(&mut s, config.host_websocket_port as u64);
            assert(s@ =~= spec_host_transport_info(
                config.host_transport,
                config.host_udp_port,
                config.host_websocket_port,
            ));
            s
        },
    }
}

/// The line logged once a session's transports are up.
pub open spec fn spec_connection_banner(config: BridgeConfig, serial_port: Seq<char>) -> Seq<char> {
    let host = spec_host_transport_info(
        config.host_transport,
        config.host_udp_port,
        config.host_websocket_port,
    );
    match config.controller_transport {
        ControllerTransport::Serial => "Connected: Serial:"@ + serial_port + " <-> "@ + host,
        ControllerTransport::Udp => "Bridge started: UDP:"@ + decimal(
            config.controller_udp_port as nat,
        ) + " (controller) <-> "@ + host + " (host)"@,
        ControllerTransport::WebSocket => "Bridge started: WS:"@ + decimal(
            config.controller_websocket_port as nat,
        ) + " (controller) <-> "@ + host + " (host)"@,
    }
}

/// The line logged when a session starts: for a serial controller the port
/// that was opened, otherwise the controller's listening port; then the host
/// side as `format_host_transport_info` gives it.
pub fn connection_banner(config: &BridgeConfig, serial_port: &str) -> (s: String)
    ensures
        s@ == spec_connection_banner(*config, serial_port@),
{
    let host = format_host_transport_info(config);
    proof {
        reveal_strlit("Connected: Serial:");
        reveal_strlit(" <-> ");
        reveal_strlit("Bridge started: UDP:");
        reveal_strlit("Bridge started: WS:");
        reveal_strlit(" (controller) <-> ");
        reveal_strlit(" (host)");
    }
    match config.controller_transport {
        ControllerTransport::Serial => {
            let mut s = String::from_str("Connected: Serial:");
            s.append(serial_port);
            s.append(" <-> ");
            s.append(host.as_str());
            assert(s@ =~= spec_connection_banner(*config, serial_port@));
            s
        },
        ControllerTransport::Udp => {
            let mut s = String::from_str("Bridge started: UDP:");
            push_decimal(&mut s, config.controller_udp_port as u64);
            s.append(" (controller) <-> ");
            s.append(host.as_str());
            s.append(" (host)");
            assert(s@ =~= spec_connection_banner(*config, serial_port@));
            s
        },
        ControllerTransport::WebSocket => {
            let mut s = String::from_str("Bridge started: WS:");
            push_decimal(&mut s, config.controller_websocket_port as u64);
            s.append(" (controller) <-> ");
            s.append(host.as_str());
            s.append(" (host)");
            assert(s@ =~= spec_connection_banner(*config, serial_port@));
            s
        },
    }
}

/// What one turn of the serial reconnection loop does.
#[derive(Debug, Clone)]
pub enum SerialAttempt {
    /// Open this port, logging `announce` first when there is one.
    Open { port: String, announce: Option<String> },
    /// Wait and try again, logging `note` first when there is one.
    Wait { note: Option<String> },
}

pub open spec fn no_preset_note() -> Seq<char> {
    "No device preset configured, waiting..."@
}

pub open spec fn found_note(device: Seq<char>, port: Seq<char>) -> Seq<char> {
    "Found "@ + device + " on "@ + port
}

/// The port that a reconnection attempt opens. A configured port is used as
/// it is. Otherwise the device preset (`preset`, loaded for the configured
/// preset name) picks the one matching device among `candidates`; without a
/// preset, or without exactly one match, the loop waits.
pub fn plan_serial_attempt(
    config: &BridgeConfig,
    preset: Option<&DeviceConfig>,
    candidates: &[SerialDeviceCandidate],
) -> (a: SerialAttempt)
    ensures
        config.serial_port@.len() > 0 ==> (a matches SerialAttempt::Open { port, announce }
            && port@ == config.serial_port@ && announce is None),
        config.serial_port@.len() == 0 && preset is None ==> (a matches SerialAttempt::Wait {
            note: Some(n),
        } && n@ == no_preset_note()),
        config.serial_port@.len() == 0 ==> (preset matches Some(p) ==> ({
            let m = matching(candidates@, *p, SerialMatchRequest { serial_number: None });
            &&& m.len() == 1 ==> (a matches SerialAttempt::Open { port, announce: Some(n) }
                && port@ == m[0].port_name@ && n@ == found_note(p.name@, m[0].port_name@))
            &&& m.len() != 1 ==> (a matches SerialAttempt::Wait { note } && note is None)
        })),
{
    if !config.serial_port.as_str().is_empty() {
        return SerialAttempt::Open { port: config.serial_port.clone(), announce: None };
    }
    match preset {
        None => {
            let note = String::from_str("No device preset configured, waiting...");
            SerialAttempt::Wait { note: Some(note) }
        },
        Some(p) => match SerialTransport::detect(p, candidates) {
            Ok(port) => {
                let mut n = String::from_str("Found ");
                n.append(p.name.as_str());
                n.append(" on ");
                n.append(port.as_str());
                proof {
                    reveal_strlit("Found ");
                    reveal_strlit(" on ");
                }
                assert(n@ =~= found_note(p.name@, port@));
                SerialAttempt::Open { port, announce: Some(n) }
            },
            Err(_) => SerialAttempt::Wait { note: None },
        },
    }
}

} // verus!
