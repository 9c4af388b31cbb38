//! What the status panel says: its title, and the text and indicator of the
//! controller and host boxes. Colours and drawing are left to the terminal
//! front end.

use vstd::prelude::*;
use crate::app::state::{ControllerTransportState, HostTransportState};
use crate::text::{decimal, push_decimal};

verus! {

/// The text of the controller box.
pub open spec fn spec_controller_text(s: ControllerTransportState) -> Seq<char> {
    match s {
        ControllerTransportState::Serial { port } => "Serial:"@ + port@,
        ControllerTransportState::Udp { port } => "UDP:"@ + decimal(port as nat),
        ControllerTransportState::WebSocket { port } => "WS:"@ + decimal(port as nat),
        ControllerTransportState::Waiting => "Waiting..."@,
        ControllerTransportState::Disconnected => "Disconnected"@,
    }
}

/// Whether the controller box shows the connected indicator.
pub open spec fn spec_controller_connected(s: ControllerTransportState) -> bool {
    !(s is Waiting || s is Disconnected)
}

fn prefixed_port(prefix: &str, port: u16) -> (s: String)
    ensures
        s@ == prefix@ + decimal(port as nat),
{
    let mut s = prefix.to_owned();
    push_decimal(&mut s, port as u64);
    s
}

/// The controller box: whether it shows the connected indicator, and its text.
pub fn controller_status(state: &ControllerTransportState) -> (r: (bool, String))
    ensures
        r.0 == spec_controller_connected(*state),
        r.1@ == spec_controller_text(*state),
{
    proof {
        reveal_strlit("Serial:");
        reveal_strlit("UDP:");
        reveal_strlit("WS:");
        reveal_strlit("Waiting...");
        reveal_strlit("Disconnected");
    }
    match state {
        ControllerTransportState::Serial { port } => {
            let mut s = String::from_str("Serial:");
            s.append(port.as_str());
            (true, s)
        },
        ControllerTransportState::Udp { port } => (true, prefixed_port("UDP:", *port)),
        ControllerTransportState::WebSocket { port } => (true, prefixed_port("WS:", *port)),
        ControllerTransportState::Waiting => (false, String::from_str("Waiting...")),
        ControllerTransportState::Disconnected => (false, String::from_str("Disconnected")),
    }
}

/// The text of the host box.
pub open spec fn spec_host_text(s: HostTransportState) -> Seq<char> {
    match s {
        HostTransportState::Udp { port } => "UDP:"@ + decimal(port as nat),
        HostTransportState::WebSocket { port } => "WS:"@ + decimal(port as nat),
        HostTransportState::Both { udp_port, ws_port } => "UDP:"@ + decimal(udp_port as nat)
            + " + WS:"@ + decimal(ws_port as nat),
    }
}

/// The host box's text; the host side always shows the connected indicator.
pub fn host_status_text(state: HostTransportState) -> (s: String)
    ensures
        s@ == spec_host_text(state),
{
    proof {
        reveal_strlit("UDP:");
        reveal_strlit("WS:");
        reveal_strlit(" + WS:");
    }
    match state {
        HostTransportState::Udp { port } => prefixed_port("UDP:", port),
        HostTransportState::WebSocket { port } => prefixed_port("WS:", port),
        HostTransportState::Both { udp_port, ws_port } => {
            let mut s = prefixed_port("UDP:", udp_port);
            s.append(" + WS:");
            push_decimal(&mut s, ws_port as u64);
            assert(s@ =~= spec_host_text(state));
            s
        },
    }
}

/// The panel's title: the status message when there is one, else a pause
/// mark when the view is paused.
pub open spec fn spec_status_title(message: Option<Seq<char>>, paused: bool) -> Seq<char> {
    match message {
        Some(m) => " OC BRIDGE │ "@ + m + " "@,
        None => if paused {
            " OC BRIDGE │ PAUSED "@
        } else {
            " OC BRIDGE "@
        },
    }
}

/// Builds the panel's title.
pub fn status_title(message: Option<&str>, paused: bool) -> (s: String)
    ensures
        s@ == spec_status_title(
            match message {
                Some(m) => Some(m@),
                None => None,
            },
            paused,
        ),
{
    proof {
        reveal_strlit(" OC BRIDGE │ ");
        reveal_strlit(" ");
        reveal_strlit(" OC BRIDGE │ PAUSED ");
        reveal_strlit(" OC BRIDGE ");
    }
    match message {
        Some(m) => {
            let mut s = String::from_str(" OC BRIDGE │ ");
            s.append(m);
            s.append(" ");
            s
        },
        None => if paused {
            String::from_str(" OC BRIDGE │ PAUSED ")
        } else {
            String::from_str(" OC BRIDGE ")
        },
    }
}

/// The bridge action offered in the key help: none without a daemon,
/// otherwise resume when paused and pause when running.
pub fn bridge_action_label(daemon_running: bool, bridge_paused: bool) -> (s: &'static str)
    ensures
        s@ == if !daemon_running {
            "–"@
        } else if bridge_paused {
            "Resume"@
        } else {
            "Pause"@
        },
{
    if !daemon_running {
        "–"
    } else if bridge_paused {
        "Resume"
    } else {
        "Pause"
    }
}

} // verus!
