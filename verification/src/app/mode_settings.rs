//! Mode settings popup: its state and how keys change it.

use vstd::prelude::*;
use vstd::utf8::encode_utf8;
use crate::config::{BridgeConfig, ControllerTransport, HostTransport};
use crate::input::KeyCode;
use crate::text::{decimal, lemma_encode_utf8_push, is_ascii_digit, is_digit, parse_u16, pop_char, push_char, push_decimal, spec_parse_u16};

verus! {

/// Action returned by `handle_key` for the application to carry out.
#[derive(Debug, Clone, Copy, PartialEq, Eq, Structural)]
pub enum ModeAction {
    /// Nothing to do.
    NoAction,
    /// Close the popup, discarding changes.
    Close,
    /// Save the settings and close.
    Save,
}

/// Which field is selected in the popup.
#[derive(Debug, Clone, Copy, PartialEq, Eq, Structural)]
pub enum ModeField {
    ControllerTransport,
    DevicePreset,
    ControllerUdpPort,
    ControllerWsPort,
    HostTransport,
    HostUdpPort,
    HostWsPort,
}

impl ModeField {
    /// Position of the field, top to bottom.
    pub open spec fn index(self) -> int {
        match self {
            ModeField::ControllerTransport => 0,
            ModeField::DevicePreset => 1,
            ModeField::ControllerUdpPort => 2,
            ModeField::ControllerWsPort => 3,
            ModeField::HostTransport => 4,
            ModeField::HostUdpPort => 5,
            ModeField::HostWsPort => 6,
        }
    }

    /// The field below, wrapping to the top.
    pub fn next(self) -> (f: ModeField)
        ensures
            f.index() == (self.index() + 1) % 7,
    {
        match self {
            ModeField::ControllerTransport => ModeField::DevicePreset,
            ModeField::DevicePreset => ModeField::ControllerUdpPort,
            ModeField::ControllerUdpPort => ModeField::ControllerWsPort,
            ModeField::ControllerWsPort => ModeField::HostTransport,
            ModeField::HostTransport => ModeField::HostUdpPort,
            ModeField::HostUdpPort => ModeField::HostWsPort,
            ModeField::HostWsPort => ModeField::ControllerTransport,
        }
    }

    /// The field above, wrapping to the bottom.
    pub fn prev(self) -> (f: ModeField)
        ensures
            f.index() == (self.index() + 6) % 7,
    {
        match self {
            ModeField::ControllerTransport => ModeField::HostWsPort,
            ModeField::DevicePreset => ModeField::ControllerTransport,
            ModeField::ControllerUdpPort => ModeField::DevicePreset,
            ModeField::ControllerWsPort => ModeField::ControllerUdpPort,
            ModeField::HostTransport => ModeField::ControllerWsPort,
            ModeField::HostUdpPort => ModeField::HostTransport,
            ModeField::HostWsPort => ModeField::HostUdpPort,
        }
    }
}

/// A field is known by its position.
pub proof fn lemma_mode_field_index_injective(a: ModeField, b: ModeField)
    ensures
        a.index() == b.index() ==> a == b,
        0 <= a.index() < 7,
{
}

/// Moving down then up, or up then down, returns to the same field.
pub proof fn lemma_mode_field_next_prev(f: ModeField, g: ModeField, h: ModeField)
    requires
        g.index() == (f.index() + 1) % 7,
        h.index() == (f.index() + 6) % 7,
    ensures
        (g.index() + 6) % 7 == f.index(),
        (h.index() + 1) % 7 == f.index(),
{
}

/// Controller transports in cycling order: Serial, UDP, WebSocket.
pub open spec fn next_controller_transport(t: ControllerTransport) -> ControllerTransport {
    match t {
        ControllerTransport::Serial => ControllerTransport::Udp,
        ControllerTransport::Udp => ControllerTransport::WebSocket,
        ControllerTransport::WebSocket => ControllerTransport::Serial,
    }
}

/// Host transports in cycling order: UDP, WebSocket, both.
pub open spec fn next_host_transport(t: HostTransport) -> HostTransport {
    match t {
        HostTransport::Udp => HostTransport::WebSocket,
        HostTransport::WebSocket => HostTransport::Both,
        HostTransport::Both => HostTransport::Udp,
    }
}

/// Cycling a transport three times returns to it.
pub proof fn lemma_transport_cycles(c: ControllerTransport, h: HostTransport)
    ensures
        next_controller_transport(next_controller_transport(next_controller_transport(c))) == c,
        next_host_transport(next_host_transport(next_host_transport(h))) == h,
        next_controller_transport(c) != c,
        next_host_transport(h) != h,
{
}

/// Position of the first name equal to `x`, or the length when none is.
pub open spec fn position_of(names: Seq<String>, x: Seq<char>) -> nat
    decreases names.len(),
{
    if names.len() == 0 || names[0]@ == x {
        0
    } else {
        1 + position_of(names.drop_first(), x)
    }
}

/// The preset after `current` in `presets`: the first preset after none, the
/// one after the current preset (taken as the first when it is not listed),
/// and none after the last. Nothing changes without presets.
pub open spec fn spec_next_preset(presets: Seq<String>, current: Option<String>) -> Option<
    Seq<char>,
> {
    if presets.len() == 0 {
        match current {
            Some(c) => Some(c@),
            None => None,
        }
    } else {
        match current {
            None => Some(presets[0]@),
            Some(c) => {
                let p = position_of(presets, c@);
                let idx: int = if p == presets.len() {
                    0
                } else {
                    p as int
                };
                if idx + 1 >= presets.len() {
                    None
                } else {
                    Some(presets[idx + 1]@)
                }
            },
        }
    }
}

pub open spec fn option_view(o: Option<String>) -> Option<Seq<char>> {
    match o {
        Some(s) => Some(s@),
        None => None,
    }
}

proof fn lemma_position_of(names: Seq<String>, x: Seq<char>, r: nat)
    requires
        r <= names.len(),
        forall|i: int| 0 <= i < r ==> names[i]@ != x,
        r == names.len() || names[r as int]@ == x,
    ensures
        position_of(names, x) == r,
    decreases names.len(),
{
    if r > 0 {
        assert forall|i: int| 0 <= i < r - 1 implies names.drop_first()[i]@ != x by {
            assert(names.drop_first()[i] == names[i + 1]);
        }
        if r < names.len() {
            assert(names.drop_first()[r - 1] == names[r as int]);
        }
        lemma_position_of(names.drop_first(), x, (r - 1) as nat);
    }
}

/// The preset that follows `current` in the cycle through `presets`.
pub fn next_preset(presets: &Vec<String>, current: &Option<String>) -> (r: Option<String>)
    ensures
        option_view(r) == spec_next_preset(presets@, *current),
{
    if presets.len() == 0 {
        return current.clone();
    }
    match current {
        None => Some(presets[0].clone()),
        Some(cur) => {
            let n = presets.len();
            let mut i: usize = 0;
            while i < n && presets[i] != *cur
                invariant
                    n == presets@.len(),
                    i <= n,
                    forall|j: int| 0 <= j < i ==> presets@[j]@ != cur@,
                decreases n - i,
            {
                i = i + 1;
            }
            proof {
                lemma_position_of(presets@, cur@, i as nat);
            }
            let idx = if i == n {
                0
            } else {
                i
            };
            if idx + 1 >= n {
                None
            } else {
                Some(presets[idx + 1].clone())
            }
        },
    }
}

/// The decimal text of a port number.
pub fn port_text(port: u16) -> (s: String)
    ensures
        s@ == decimal(port as nat),
{
    let mut s = String::new();
    push_decimal(&mut s, port as u64);
    s
}

/// State of the mode settings popup.
#[derive(Debug, Clone)]
pub struct ModeSettings {
    pub controller_transport: ControllerTransport,
    pub device_preset: Option<String>,
    pub available_presets: Vec<String>,
    pub controller_udp_port: u16,
    pub controller_websocket_port: u16,
    pub host_transport: HostTransport,
    pub host_udp_port: u16,
    pub host_websocket_port: u16,
    pub selected_field: ModeField,
    pub editing: bool,
    pub input_buffer: String,
}

impl ModeSettings {
    /// Every setting other than the selection, the edit state and the input.
    pub open spec fn same_settings(self, other: ModeSettings) -> bool {
        &&& self.controller_transport == other.controller_transport
        &&& option_view(self.device_preset) == option_view(other.device_preset)
        &&& self.available_presets@ == other.available_presets@
        &&& self.controller_udp_port == other.controller_udp_port
        &&& self.controller_websocket_port == other.controller_websocket_port
        &&& self.host_transport == other.host_transport
        &&& self.host_udp_port == other.host_udp_port
        &&& self.host_websocket_port == other.host_websocket_port
    }

    /// Same settings and same selection, edit state and input.
    pub open spec fn same_state(self, other: ModeSettings) -> bool {
        &&& self.same_settings(other)
        &&& self.selected_field == other.selected_field
        &&& self.editing == other.editing
        &&& self.input_buffer@ == other.input_buffer@
    }

    /// What acting on the selected field does (`start_editing`).
    pub open spec fn after_start(self, n: ModeSettings) -> bool {
        &&& n.selected_field == self.selected_field
        &&& n.available_presets == self.available_presets
        &&& n.controller_transport == if self.selected_field == ModeField::ControllerTransport {
            next_controller_transport(self.controller_transport)
        } else {
            self.controller_transport
        }
        &&& n.host_transport == if self.selected_field == ModeField::HostTransport {
            next_host_transport(self.host_transport)
        } else {
            self.host_transport
        }
        &&& option_view(n.device_preset) == if self.selected_field == ModeField::DevicePreset {
            spec_next_preset(self.available_presets@, self.device_preset)
        } else {
            option_view(self.device_preset)
        }
        &&& n.controller_udp_port == self.controller_udp_port
        &&& n.controller_websocket_port == self.controller_websocket_port
        &&& n.host_udp_port == self.host_udp_port
        &&& n.host_websocket_port == self.host_websocket_port
        &&& match self.selected_field {
            ModeField::ControllerUdpPort => n.editing && n.input_buffer@ == decimal(
                self.controller_udp_port as nat,
            ),
            ModeField::ControllerWsPort => n.editing && n.input_buffer@ == decimal(
                self.controller_websocket_port as nat,
            ),
            ModeField::HostUdpPort => n.editing && n.input_buffer@ == decimal(
                self.host_udp_port as nat,
            ),
            ModeField::HostWsPort => n.editing && n.input_buffer@ == decimal(
                self.host_websocket_port as nat,
            ),
            _ => n.editing == self.editing && n.input_buffer@ == self.input_buffer@,
        }
    }

    /// What a typed character does (`handle_char`).
    pub open spec fn after_char(self, n: ModeSettings, c: char) -> bool {
        &&& n.same_settings(self)
        &&& n.selected_field == self.selected_field
        &&& n.editing == self.editing
        &&& n.input_buffer@ == if self.editing && is_digit(c) && (encode_utf8(
            self.input_buffer@,
        ).len() as usize) < 5 {
            self.input_buffer@.push(c)
        } else {
            self.input_buffer@
        }
    }

    /// What backspace does (`handle_backspace`).
    pub open spec fn after_backspace(self, n: ModeSettings) -> bool {
        &&& n.same_settings(self)
        &&& n.selected_field == self.selected_field
        &&& n.editing == self.editing
        &&& n.input_buffer@ == if self.editing && self.input_buffer@.len() > 0 {
            self.input_buffer@.drop_last()
        } else {
            self.input_buffer@
        }
    }

    /// What ending an edit does (`confirm_edit`).
    pub open spec fn after_confirm(self, n: ModeSettings) -> bool {
        &&& n.selected_field == self.selected_field
        &&& n.controller_transport == self.controller_transport
        &&& n.host_transport == self.host_transport
        &&& n.device_preset == self.device_preset
        &&& n.available_presets == self.available_presets
        &&& !self.editing ==> n.same_state(self)
        &&& self.editing ==> {
            &&& !n.editing
            &&& n.input_buffer@ == Seq::<char>::empty()
            &&& {
                let parsed = spec_parse_u16(self.input_buffer@);
                let accepted = parsed matches Some(p) && p > 0;
                let f = self.selected_field;
                &&& n.controller_udp_port == if accepted && f == ModeField::ControllerUdpPort {
                    parsed->0
                } else {
                    self.controller_udp_port
                }
                &&& n.controller_websocket_port == if accepted && f == ModeField::ControllerWsPort {
                    parsed->0
                } else {
                    self.controller_websocket_port
                }
                &&& n.host_udp_port == if accepted && f == ModeField::HostUdpPort {
                    parsed->0
                } else {
                    self.host_udp_port
                }
                &&& n.host_websocket_port == if accepted && f == ModeField::HostWsPort {
                    parsed->0
                } else {
                    self.host_websocket_port
                }
            }
        }
    }

    /// What abandoning an edit does (`cancel_edit`).
    pub open spec fn after_cancel(self, n: ModeSettings) -> bool {
        &&& n.same_settings(self)
        &&& n.selected_field == self.selected_field
        &&& !n.editing
        &&& n.input_buffer@ == Seq::<char>::empty()
    }

    /// The popup opened on the given settings: first field selected, not editing.
    pub fn new(
        controller_transport: ControllerTransport,
        device_preset: Option<String>,
        available_presets: Vec<String>,
        controller_udp_port: u16,
        controller_websocket_port: u16,
        host_transport: HostTransport,
        host_udp_port: u16,
        host_websocket_port: u16,
    ) -> (s: ModeSettings)
        ensures
            s.controller_transport == controller_transport,
            s.device_preset == device_preset,
            s.available_presets == available_presets,
            s.controller_udp_port == controller_udp_port,
            s.controller_websocket_port == controller_websocket_port,
            s.host_transport == host_transport,
            s.host_udp_port == host_udp_port,
            s.host_websocket_port == host_websocket_port,
            s.selected_field == ModeField::ControllerTransport,
            !s.editing,
            s.input_buffer@ == Seq::<char>::empty(),
    {
        ModeSettings {
            controller_transport,
            device_preset,
            available_presets,
            controller_udp_port,
            controller_websocket_port,
            host_transport,
            host_udp_port,
            host_websocket_port,
            selected_field: ModeField::ControllerTransport,
            editing: false,
            input_buffer: String::new(),
        }
    }

    /// Writes the popup's settings into the bridge configuration: both
    /// transports, the device preset and the four ports. The serial port,
    /// the log broadcast port and the control port stay as they were.
    pub fn apply_to(&self, cfg: &mut BridgeConfig)
        ensures
            final(cfg).controller_transport == self.controller_transport,
            option_view(final(cfg).device_preset) == option_view(self.device_preset),
            final(cfg).controller_udp_port == self.controller_udp_port,
            final(cfg).controller_websocket_port == self.controller_websocket_port,
            final(cfg).host_transport == self.host_transport,
            final(cfg).host_udp_port == self.host_udp_port,
            final(cfg).host_websocket_port == self.host_websocket_port,
            final(cfg).serial_port == old(cfg).serial_port,
            final(cfg).log_broadcast_port == old(cfg).log_broadcast_port,
            final(cfg).control_port == old(cfg).control_port,
    {
        cfg.controller_transport = self.controller_transport;
        cfg.device_preset = match &self.device_preset {
            Some(p) => Some(p.clone()),
            None => None,
        };
        cfg.controller_udp_port = self.controller_udp_port;
        cfg.controller_websocket_port = self.controller_websocket_port;
        cfg.host_transport = self.host_transport;
        cfg.host_udp_port = self.host_udp_port;
        cfg.host_websocket_port = self.host_websocket_port;
    }

    /// Serial, then UDP, then WebSocket, then Serial again.
    pub fn cycle_controller_transport(&mut self)
        ensures
            final(self).controller_transport == next_controller_transport(
                old(self).controller_transport,
            ),
            final(self).device_preset == old(self).device_preset,
            final(self).available_presets == old(self).available_presets,
            final(self).controller_udp_port == old(self).controller_udp_port,
            final(self).controller_websocket_port == old(self).controller_websocket_port,
            final(self).host_transport == old(self).host_transport,
            final(self).host_udp_port == old(self).host_udp_port,
            final(self).host_websocket_port == old(self).host_websocket_port,
            final(self).selected_field == old(self).selected_field,
            final(self).editing == old(self).editing,
            final(self).input_buffer == old(self).input_buffer,
    {
        self.controller_transport = match self.controller_transport {
            ControllerTransport::Serial => ControllerTransport::Udp,
            ControllerTransport::Udp => ControllerTransport::WebSocket,
            ControllerTransport::WebSocket => ControllerTransport::Serial,
        };
    }

    /// UDP, then WebSocket, then both, then UDP again.
    pub fn cycle_host_transport(&mut self)
        ensures
            final(self).host_transport == next_host_transport(old(self).host_transport),
            final(self).controller_transport == old(self).controller_transport,
            final(self).device_preset == old(self).device_preset,
            final(self).available_presets == old(self).available_presets,
            final(self).controller_udp_port == old(self).controller_udp_port,
            final(self).controller_websocket_port == old(self).controller_websocket_port,
            final(self).host_udp_port == old(self).host_udp_port,
            final(self).host_websocket_port == old(self).host_websocket_port,
            final(self).selected_field == old(self).selected_field,
            final(self).editing == old(self).editing,
            final(self).input_buffer == old(self).input_buffer,
    {
        self.host_transport = match self.host_transport {
            HostTransport::Udp => HostTransport::WebSocket,
            HostTransport::WebSocket => HostTransport::Both,
            HostTransport::Both => HostTransport::Udp,
        };
    }

    /// None, then each available preset in turn, then none again.
    pub fn cycle_device_preset(&mut self)
        ensures
            option_view(final(self).device_preset) == spec_next_preset(
                old(self).available_presets@,
                old(self).device_preset,
            ),
            final(self).controller_transport == old(self).controller_transport,
            final(self).available_presets == old(self).available_presets,
            final(self).controller_udp_port == old(self).controller_udp_port,
            final(self).controller_websocket_port == old(self).controller_websocket_port,
            final(self).host_transport == old(self).host_transport,
            final(self).host_udp_port == old(self).host_udp_port,
            final(self).host_websocket_port == old(self).host_websocket_port,
            final(self).selected_field == old(self).selected_field,
            final(self).editing == old(self).editing,
            final(self).input_buffer == old(self).input_buffer,
    {
        if self.available_presets.len() == 0 {
            return;
        }
        self.device_preset = next_preset(&self.available_presets, &self.device_preset);
    }

    /// The preset name, or "None".
    pub fn device_preset_display(&self) -> (s: &str)
        ensures
            s@ == match self.device_preset {
                Some(p) => p@,
                None => "None"@,
            },
    {
        match &self.device_preset {
            Some(p) => p.as_str(),
            None => "None",
        }
    }

    /// Selects the next field.
    pub fn next_field(&mut self)
        ensures
            final(self).selected_field.index() == (old(self).selected_field.index() + 1) % 7,
            final(self).same_settings(*old(self)),
            final(self).editing == old(self).editing,
            final(self).input_buffer == old(self).input_buffer,
    {
        self.selected_field = self.selected_field.next();
    }

    /// Selects the previous field.
    pub fn prev_field(&mut self)
        ensures
            final(self).selected_field.index() == (old(self).selected_field.index() + 6) % 7,
            final(self).same_settings(*old(self)),
            final(self).editing == old(self).editing,
            final(self).input_buffer == old(self).input_buffer,
    {
        self.selected_field = self.selected_field.prev();
    }

    /// Acts on the selected field: transports and presets cycle; a port
    /// field starts an edit holding the port's current value.
    pub fn start_editing(&mut self)
        ensures
            old(self).after_start(*final(self)),
    {
        match self.selected_field {
            ModeField::ControllerTransport => {
                self.cycle_controller_transport();
            },
            ModeField::DevicePreset => {
                self.cycle_device_preset();
            },
            ModeField::ControllerUdpPort => {
                self.editing = true;
                self.input_buffer = port_text(self.controller_udp_port);
            },
            ModeField::ControllerWsPort => {
                self.editing = true;
                self.input_buffer = port_text(self.controller_websocket_port);
            },
            ModeField::HostTransport => {
                self.cycle_host_transport();
            },
            ModeField::HostUdpPort => {
                self.editing = true;
                self.input_buffer = port_text(self.host_udp_port);
            },
            ModeField::HostWsPort => {
                self.editing = true;
                self.input_buffer = port_text(self.host_websocket_port);
            },
        }
    }

    /// While editing, appends an ASCII digit to an input shorter than five bytes.
    pub fn handle_char(&mut self, c: char)
        ensures
            old(self).after_char(*final(self), c),
            encode_utf8(old(self).input_buffer@).len() <= 5 ==> encode_utf8(
                final(self).input_buffer@,
            ).len() <= 5,
    {
        proof {
            lemma_encode_utf8_push(self.input_buffer@, c);
        }
        if self.editing && is_ascii_digit(c) && self.input_buffer.as_str().len() < 5 {
            push_char(&mut self.input_buffer, c);
        }
    }

    /// While editing, removes the last character of the input.
    pub fn handle_backspace(&mut self)
        ensures
            old(self).after_backspace(*final(self)),
    {
        if self.editing {
            let _ = pop_char(&mut self.input_buffer);
        }
    }

    /// Ends an edit: a non-zero port that parses is stored in the selected
    /// port field; the input is cleared either way.
    pub fn confirm_edit(&mut self)
        ensures
            old(self).after_confirm(*final(self)),
    {
        if self.editing {
            match parse_u16(self.input_buffer.as_str()) {
                Some(port) => {
                    if port > 0 {
                        match self.selected_field {
                            ModeField::ControllerUdpPort => self.controller_udp_port = port,
                            ModeField::ControllerWsPort => self.controller_websocket_port = port,
                            ModeField::HostUdpPort => self.host_udp_port = port,
                            ModeField::HostWsPort => self.host_websocket_port = port,
                            _ => {},
                        }
                    }
                },
                None => {},
            }
            self.editing = false;
            self.input_buffer = String::new();
        }
    }

    /// Abandons an edit.
    pub fn cancel_edit(&mut self)
        ensures
            old(self).after_cancel(*final(self)),
    {
        self.editing = false;
        self.input_buffer = String::new();
    }

    /// Handles a key. While editing: characters, backspace, enter (confirm)
    /// and escape (cancel) go to the edit. Otherwise: up/k and down/j move the
    /// selection, enter/space act on the field, escape/m close and s saves.
    pub fn handle_key(&mut self, key: KeyCode) -> (action: ModeAction)
        ensures
            old(self).editing ==> action == ModeAction::NoAction,
            !old(self).editing ==> action == match key {
                KeyCode::Esc => ModeAction::Close,
                KeyCode::Char(c) => if c == 'm' {
                    ModeAction::Close
                } else if c == 's' {
                    ModeAction::Save
                } else {
                    ModeAction::NoAction
                },
                _ => ModeAction::NoAction,
            },
            old(self).editing ==> match key {
                KeyCode::Char(c) => old(self).after_char(*final(self), c),
                KeyCode::Backspace => old(self).after_backspace(*final(self)),
                KeyCode::Enter => old(self).after_confirm(*final(self)),
                KeyCode::Esc => old(self).after_cancel(*final(self)),
                _ => final(self).same_state(*old(self)),
            },
            !old(self).editing ==> if key == KeyCode::Up || key == KeyCode::Char('k') {
                &&& final(self).selected_field.index() == (old(self).selected_field.index() + 6) % 7
                &&& final(self).same_settings(*old(self))
                &&& final(self).editing == old(self).editing
                &&& final(self).input_buffer@ == old(self).input_buffer@
            } else if key == KeyCode::Down || key == KeyCode::Char('j') {
                &&& final(self).selected_field.index() == (old(self).selected_field.index() + 1) % 7
                &&& final(self).same_settings(*old(self))
                &&& final(self).editing == old(self).editing
                &&& final(self).input_buffer@ == old(self).input_buffer@
            } else if key == KeyCode::Enter || key == KeyCode::Char(' ') {
                old(self).after_start(*final(self))
            } else {
                final(self).same_state(*old(self))
            },
    {
        if self.editing {
            match key {
                KeyCode::Char(c) => self.handle_char(c),
                KeyCode::Backspace => self.handle_backspace(),
                KeyCode::Enter => self.confirm_edit(),
                KeyCode::Esc => self.cancel_edit(),
                _ => {},
            }
            ModeAction::NoAction
        } else {
            match key {
                KeyCode::Up => {
                    self.prev_field();
                    ModeAction::NoAction
                },
                KeyCode::Down => {
                    self.next_field();
                    ModeAction::NoAction
                },
                KeyCode::Enter => {
                    self.start_editing();
                    ModeAction::NoAction
                },
                KeyCode::Esc => ModeAction::Close,
                KeyCode::Char(c) => {
                    if c == 'k' {
                        self.prev_field();
                        ModeAction::NoAction
                    } else if c == 'j' {
                        self.next_field();
                        ModeAction::NoAction
                    } else if c == ' ' {
                        self.start_editing();
                        ModeAction::NoAction
                    } else if c == 'm' {
                        ModeAction::Close
                    } else if c == 's' {
                        ModeAction::Save
                    } else {
                        ModeAction::NoAction
                    }
                },
                _ => ModeAction::NoAction,
            }
        }
    }
}

} // verus!
