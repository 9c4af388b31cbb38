//! What the mode settings popup shows: one line per field, with its label,
//! its value (or the text being typed) and how it is emphasised. Colours and
//! drawing are left to the terminal front end.

use vstd::prelude::*;
use crate::app::mode_settings::{ModeField, ModeSettings};
use crate::config::{ControllerTransport, HostTransport};
use crate::text::{decimal, push_char, push_decimal};
use crate::ui::layout::{sat_sub, spaces};

verus! {

/// Width of the label column.
pub const LABEL_WIDTH: usize = 14;

/// How a field's value is emphasised.
#[derive(Debug, Clone, Copy, PartialEq, Eq, Structural)]
pub enum FieldEmphasis {
    /// The value is being typed.
    Editing,
    /// The field is selected.
    Selected,
    /// Neither.
    Plain,
}

/// One field line of the popup.
#[derive(Debug, Clone)]
pub struct FieldLine {
    /// Whether the selection marker stands before the line.
    pub selected: bool,
    /// The label, padded to the label column's width.
    pub label: String,
    /// The value, or the typed text followed by a cursor `_`.
    pub value: String,
    pub emphasis: FieldEmphasis,
}

/// `s` padded with spaces to `width` characters; longer text is kept whole.
pub open spec fn padded(s: Seq<char>, width: nat) -> Seq<char> {
    s + spaces(sat_sub(width as int, s.len() as int) as nat)
}

/// The line for a field with `label` and `value`; while it is edited the
/// typed `input` and a cursor stand in place of the value.
pub open spec fn is_field_line(
    l: FieldLine,
    label: Seq<char>,
    value: Seq<char>,
    selected: bool,
    editing: bool,
    input: Seq<char>,
) -> bool {
    &&& l.selected == selected
    &&& l.label@ == padded(label, LABEL_WIDTH as nat)
    &&& l.value@ == if editing {
        input.push('_')
    } else {
        value
    }
    &&& l.emphasis == if editing {
        FieldEmphasis::Editing
    } else if selected {
        FieldEmphasis::Selected
    } else {
        FieldEmphasis::Plain
    }
}

fn pad_label(label: &str) -> (s: String)
    ensures
        s@ == padded(label@, LABEL_WIDTH as nat),
{
    let mut s = label.to_owned();
    let n = label.unicode_len();
    let mut i: usize = n;
    while i < LABEL_WIDTH
        invariant
            n == label@.len(),
            n <= i <= LABEL_WIDTH || (i == n && n >= LABEL_WIDTH),
            s@ == label@ + spaces((i - n) as nat),
        decreases LABEL_WIDTH - i,
    {
        push_char(&mut s, ' ');
        i = i + 1;
        assert(s@ =~= label@ + spaces((i - n) as nat));
    }
    assert(s@ =~= padded(label@, LABEL_WIDTH as nat));
    s
}

/// Builds the line for one field.
pub fn field_line(label: &str, value: &str, selected: bool, editing: bool, input: &str) -> (l:
    FieldLine)
    ensures
        is_field_line(l, label@, value@, selected, editing, input@),
{
    let value_text = if editing {
        let mut v = input.to_owned();
        push_char(&mut v, '_');
        v
    } else {
        value.to_owned()
    };
    let emphasis = if editing {
        FieldEmphasis::Editing
    } else if selected {
        FieldEmphasis::Selected
    } else {
        FieldEmphasis::Plain
    };
    FieldLine { selected, label: pad_label(label), value: value_text, emphasis }
}

pub open spec fn spec_controller_label(t: ControllerTransport) -> Seq<char> {
    match t {
        ControllerTransport::Serial => "Serial"@,
        ControllerTransport::Udp => "UDP"@,
        ControllerTransport::WebSocket => "WebSocket"@,
    }
}

pub open spec fn spec_host_label(t: HostTransport) -> Seq<char> {
    match t {
        HostTransport::Udp => "UDP"@,
        HostTransport::WebSocket => "WebSocket"@,
        HostTransport::Both => "Both"@,
    }
}

/// The controller transport's name in the popup.
pub fn controller_transport_label(t: ControllerTransport) -> (s: &'static str)
    ensures
        s@ == spec_controller_label(t),
{
    proof {
        reveal_strlit("Serial");
        reveal_strlit("UDP");
        reveal_strlit("WebSocket");
    }
    match t {
        ControllerTransport::Serial => "Serial",
        ControllerTransport::Udp => "UDP",
        ControllerTransport::WebSocket => "WebSocket",
    }
}

/// The host transport's name in the popup.
pub fn host_transport_label(t: HostTransport) -> (s: &'static str)
    ensures
        s@ == spec_host_label(t),
{
    proof {
        reveal_strlit("UDP");
        reveal_strlit("WebSocket");
        reveal_strlit("Both");
    }
    match t {
        HostTransport::Udp => "UDP",
        HostTransport::WebSocket => "WebSocket",
        HostTransport::Both => "Both",
    }
}

fn port_value(port: u16) -> (s: String)
    ensures
        s@ == decimal(port as nat),
{
    let mut s = String::new();
    push_decimal(&mut s, port as u64);
    s
}

/// The seven field lines of the popup, top to bottom: controller
/// transport, device preset, controller UDP and WebSocket ports, host
/// transport, host UDP and WebSocket ports. Only port fields are ever shown
/// as being edited.
pub fn mode_popup_fields(settings: &ModeSettings) -> (lines: Vec<FieldLine>)
    ensures
        lines.len() == 7,
        ({
            let sel = settings.selected_field;
            let ed = settings.editing;
            let inp = settings.input_buffer@;
            &&& is_field_line(
                lines[0],
                "Controller"@,
                spec_controller_label(settings.controller_transport),
                sel == ModeField::ControllerTransport,
                false,
                inp,
            )
            &&& is_field_line(
                lines[1],
                "  Device"@,
                match settings.device_preset {
                    Some(p) => p@,
                    None => "None"@,
                },
                sel == ModeField::DevicePreset,
                false,
                inp,
            )
            &&& is_field_line(
                lines[2],
                "  UDP Port"@,
                decimal(settings.controller_udp_port as nat),
                sel == ModeField::ControllerUdpPort,
                ed && sel == ModeField::ControllerUdpPort,
                inp,
            )
            &&& is_field_line(
                lines[3],
                "  WS Port"@,
                decimal(settings.controller_websocket_port as nat),
                sel == ModeField::ControllerWsPort,
                ed && sel == ModeField::ControllerWsPort,
                inp,
            )
            &&& is_field_line(
                lines[4],
                "Host"@,
                spec_host_label(settings.host_transport),
                sel == ModeField::HostTransport,
                false,
                inp,
            )
            &&& is_field_line(
                lines[5],
                "  UDP Port"@,
                decimal(settings.host_udp_port as nat),
                sel == ModeField::HostUdpPort,
                ed && sel == ModeField::HostUdpPort,
                inp,
            )
            &&& is_field_line(
                lines[6],
                "  WS Port"@,
                decimal(settings.host_websocket_port as nat),
                sel == ModeField::HostWsPort,
                ed && sel == ModeField::HostWsPort,
                inp,
            )
        }),
{
    let sel = settings.selected_field;
    let ed = settings.editing;
    let inp = settings.input_buffer.as_str();
    let ctrl_udp = port_value(settings.controller_udp_port);
    let ctrl_ws = port_value(settings.controller_websocket_port);
    let host_udp = port_value(settings.host_udp_port);
    let host_ws = port_value(settings.host_websocket_port);
    let mut lines: Vec<FieldLine> = Vec::new();
    lines.push(
        field_line(
            "Controller",
            controller_transport_label(settings.controller_transport),
            sel == ModeField::ControllerTransport,
            false,
            inp,
        ),
    );
    lines.push(
        field_line(
            "  Device",
            settings.device_preset_display(),
            sel == ModeField::DevicePreset,
            false,
            inp,
        ),
    );
    lines.push(
        field_line(
            "  UDP Port",
            ctrl_udp.as_str(),
            sel == ModeField::ControllerUdpPort,
            ed && sel == ModeField::ControllerUdpPort,
            inp,
        ),
    );
    lines.push(
        field_line(
            "  WS Port",
            ctrl_ws.as_str(),
            sel == ModeField::ControllerWsPort,
            ed && sel == ModeField::ControllerWsPort,
            inp,
        ),
    );
    lines.push(
        field_line("Host", host_transport_label(settings.host_transport), sel == ModeField::HostTransport, false, inp),
    );
    lines.push(
        field_line(
            "  UDP Port",
            host_udp.as_str(),
            sel == ModeField::HostUdpPort,
            ed && sel == ModeField::HostUdpPort,
            inp,
        ),
    );
    lines.push(
        field_line(
            "  WS Port",
            host_ws.as_str(),
            sel == ModeField::HostWsPort,
            ed && sel == ModeField::HostWsPort,
            inp,
        ),
    );
    lines
}

} // verus!
