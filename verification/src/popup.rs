//! Single-transport mode popup: transport mode, device preset, UDP port and
//! virtual port.

use vstd::prelude::*;
use vstd::utf8::encode_utf8;
use crate::app::mode_settings::{next_preset, option_view, port_text, spec_next_preset};
use crate::input::KeyCode;
use crate::text::{decimal, lemma_encode_utf8_push, is_ascii_digit, is_digit, parse_u16, pop_char, push_char, spec_parse_u16};

verus! {

/// How the bridge reaches the controller.
#[derive(Debug, Clone, Copy, PartialEq, Eq, Structural)]
pub enum TransportMode {
    Auto,
    Serial,
    Virtual,
}

/// Transport modes in cycling order: auto, serial, virtual.
pub open spec fn next_transport_mode(m: TransportMode) -> TransportMode {
    match m {
        TransportMode::Auto => TransportMode::Serial,
        TransportMode::Serial => TransportMode::Virtual,
        TransportMode::Virtual => TransportMode::Auto,
    }
}

/// Action returned by `handle_key` for the application to carry out.
#[derive(Debug, Clone, Copy, PartialEq, Eq, Structural)]
pub enum ModeAction {
    /// Nothing to do.
    NoAction,
    /// Close the popup, discarding changes.
    Close,
    /// Save the settings and close.
    Save,
}

/// Which field is selected in the popup.
#[derive(Debug, Clone, Copy, PartialEq, Eq, Structural)]
pub enum ModeField {
    Mode,
    DevicePreset,
    UdpPort,
    VirtualPort,
}

impl ModeField {
    /// Position of the field, top to bottom.
    pub open spec fn index(self) -> int {
        match self {
            ModeField::Mode => 0,
            ModeField::DevicePreset => 1,
            ModeField::UdpPort => 2,
            ModeField::VirtualPort => 3,
        }
    }

    /// The field below, wrapping to the top.
    pub fn next(self) -> (f: ModeField)
        ensures
            f.index() == (self.index() + 1) % 4,
    {
        match self {
            ModeField::Mode => ModeField::DevicePreset,
            ModeField::DevicePreset => ModeField::UdpPort,
            ModeField::UdpPort => ModeField::VirtualPort,
            ModeField::VirtualPort => ModeField::Mode,
        }
    }

    /// The field above, wrapping to the bottom.
    pub fn prev(self) -> (f: ModeField)
        ensures
            f.index() == (self.index() + 3) % 4,
    {
        match self {
            ModeField::Mode => ModeField::VirtualPort,
            ModeField::DevicePreset => ModeField::Mode,
            ModeField::UdpPort => ModeField::DevicePreset,
            ModeField::VirtualPort => ModeField::UdpPort,
        }
    }
}

/// Moving down then up, or up then down, returns to the same field, and
/// cycling the transport mode three times returns to it.
pub proof fn lemma_popup_cycles(f: ModeField, m: TransportMode)
    ensures
        ((f.index() + 1) % 4 + 3) % 4 == f.index(),
        ((f.index() + 3) % 4 + 1) % 4 == f.index(),
        next_transport_mode(next_transport_mode(next_transport_mode(m))) == m,
{
}

/// State of the mode popup.
#[derive(Debug, Clone)]
pub struct ModeSettings {
    pub transport_mode: TransportMode,
    pub device_preset: Option<String>,
    pub available_presets: Vec<String>,
    pub udp_port: u16,
    pub virtual_port: u16,
    pub selected_field: ModeField,
    pub editing: bool,
    pub input_buffer: String,
}

impl ModeSettings {
    /// Every setting other than the selection, the edit state and the input.
    pub open spec fn same_settings(self, other: ModeSettings) -> bool {
        &&& self.transport_mode == other.transport_mode
        &&& option_view(self.device_preset) == option_view(other.device_preset)
        &&& self.available_presets@ == other.available_presets@
        &&& self.udp_port == other.udp_port
        &&& self.virtual_port == other.virtual_port
    }

    pub open spec fn same_state(self, other: ModeSettings) -> bool {
        &&& self.same_settings(other)
        &&& self.selected_field == other.selected_field
        &&& self.editing == other.editing
        &&& self.input_buffer@ == other.input_buffer@
    }

    /// What acting on the selected field does (`start_editing`).
    pub open spec fn after_start(self, n: ModeSettings) -> bool {
        &&& n.selected_field == self.selected_field
        &&& n.available_presets == self.available_presets
        &&& n.transport_mode == if self.selected_field == ModeField::Mode {
            next_transport_mode(self.transport_mode)
        } else {
            self.transport_mode
        }
        &&& option_view(n.device_preset) == if self.selected_field == ModeField::DevicePreset {
            spec_next_preset(self.available_presets@, self.device_preset)
        } else {
            option_view(self.device_preset)
        }
        &&& n.udp_port == self.udp_port
        &&& n.virtual_port == self.virtual_port
        &&& match self.selected_field {
            ModeField::UdpPort => n.editing && n.input_buffer@ == decimal(self.udp_port as nat),
            ModeField::VirtualPort => n.editing && n.input_buffer@ == decimal(
                self.virtual_port as nat,
            ),
            _ => n.editing == self.editing && n.input_buffer@ == self.input_buffer@,
        }
    }

    /// What a typed character does (`handle_char`).
    pub open spec fn after_char(self, n: ModeSettings, c: char) -> bool {
        &&& n.same_settings(self)
        &&& n.selected_field == self.selected_field
        &&& n.editing == self.editing
        &&& n.input_buffer@ == if self.editing && is_digit(c) && (encode_utf8(
            self.input_buffer@,
        ).len() as usize) < 5 {
            self.input_buffer@.push(c)
        } else {
            self.input_buffer@
        }
    }

    /// What backspace does (`handle_backspace`).
    pub open spec fn after_backspace(self, n: ModeSettings) -> bool {
        &&& n.same_settings(self)
        &&& n.selected_field == self.selected_field
        &&& n.editing == self.editing
        &&& n.input_buffer@ == if self.editing && self.input_buffer@.len() > 0 {
            self.input_buffer@.drop_last()
        } else {
            self.input_buffer@
        }
    }

    /// What ending an edit does (`confirm_edit`).
    pub open spec fn after_confirm(self, n: ModeSettings) -> bool {
        &&& n.selected_field == self.selected_field
        &&& n.transport_mode == self.transport_mode
        &&& n.device_preset == self.device_preset
        &&& n.available_presets == self.available_presets
        &&& !self.editing ==> n.same_state(self)
        &&& self.editing ==> {
            &&& !n.editing
            &&& n.input_buffer@ == Seq::<char>::empty()
            &&& {
                let parsed = spec_parse_u16(self.input_buffer@);
                let accepted = parsed matches Some(p) && p > 0;
                let f = self.selected_field;
                &&& n.udp_port == if accepted && f == ModeField::UdpPort {
                    parsed->0
                } else {
                    self.udp_port
                }
                &&& n.virtual_port == if accepted && f == ModeField::VirtualPort {
                    parsed->0
                } else {
                    self.virtual_port
                }
            }
        }
    }

    /// What abandoning an edit does (`cancel_edit`).
    pub open spec fn after_cancel(self, n: ModeSettings) -> bool {
        &&& n.same_settings(self)
        &&& n.selected_field == self.selected_field
        &&& !n.editing
        &&& n.input_buffer@ == Seq::<char>::empty()
    }

    /// The popup opened on the given settings: first field selected, not editing.
    pub fn new(
        transport_mode: TransportMode,
        device_preset: Option<String>,
        available_presets: Vec<String>,
        udp_port: u16,
        virtual_port: u16,
    ) -> (s: ModeSettings)
        ensures
            s.transport_mode == transport_mode,
            s.device_preset == device_preset,
            s.available_presets == available_presets,
            s.udp_port == udp_port,
            s.virtual_port == virtual_port,
            s.selected_field == ModeField::Mode,
            !s.editing,
            s.input_buffer@ == Seq::<char>::empty(),
    {
        ModeSettings {
            transport_mode,
            device_preset,
            available_presets,
            udp_port,
            virtual_port,
            selected_field: ModeField::Mode,
            editing: false,
            input_buffer: String::new(),
        }
    }

    /// Auto, then serial, then virtual, then auto again.
    pub fn cycle_transport_mode(&mut self)
        ensures
            final(self).transport_mode == next_transport_mode(old(self).transport_mode),
            final(self).device_preset == old(self).device_preset,
            final(self).available_presets == old(self).available_presets,
            final(self).udp_port == old(self).udp_port,
            final(self).virtual_port == old(self).virtual_port,
            final(self).selected_field == old(self).selected_field,
            final(self).editing == old(self).editing,
            final(self).input_buffer == old(self).input_buffer,
    {
        self.transport_mode = match self.transport_mode {
            TransportMode::Auto => TransportMode::Serial,
            TransportMode::Serial => TransportMode::Virtual,
            TransportMode::Virtual => TransportMode::Auto,
        };
    }

    /// None, then each available preset in turn, then none again.
    pub fn cycle_device_preset(&mut self)
        ensures
            option_view(final(self).device_preset) == spec_next_preset(
                old(self).available_presets@,
                old(self).device_preset,
            ),
            final(self).transport_mode == old(self).transport_mode,
            final(self).available_presets == old(self).available_presets,
            final(self).udp_port == old(self).udp_port,
            final(self).virtual_port == old(self).virtual_port,
            final(self).selected_field == old(self).selected_field,
            final(self).editing == old(self).editing,
            final(self).input_buffer == old(self).input_buffer,
    {
        if self.available_presets.len() == 0 {
            return;
        }
        self.device_preset = next_preset(&self.available_presets, &self.device_preset);
    }

    /// The preset name, or "None".
    pub fn device_preset_display(&self) -> (s: &str)
        ensures
            s@ == match self.device_preset {
                Some(p) => p@,
                None => "None"@,
            },
    {
        match &self.device_preset {
            Some(p) => p.as_str(),
            None => "None",
        }
    }

    /// Selects the next field.
    pub fn next_field(&mut self)
        ensures
            final(self).selected_field.index() == (old(self).selected_field.index() + 1) % 4,
            final(self).same_settings(*old(self)),
            final(self).editing == old(self).editing,
            final(self).input_buffer == old(self).input_buffer,
    {
        self.selected_field = self.selected_field.next();
    }

    /// Selects the previous field.
    pub fn prev_field(&mut self)
        ensures
            final(self).selected_field.index() == (old(self).selected_field.index() + 3) % 4,
            final(self).same_settings(*old(self)),
            final(self).editing == old(self).editing,
            final(self).input_buffer == old(self).input_buffer,
    {
        self.selected_field = self.selected_field.prev();
    }

    /// Acts on the selected field: the mode and the preset cycle; a port
    /// field starts an edit holding the port's current value.
    pub fn start_editing(&mut self)
        ensures
            old(self).after_start(*final(self)),
    {
        match self.selected_field {
            ModeField::Mode => {
                self.cycle_transport_mode();
            },
            ModeField::DevicePreset => {
                self.cycle_device_preset();
            },
            ModeField::UdpPort => {
                self.editing = true;
                self.input_buffer = port_text(self.udp_port);
            },
            ModeField::VirtualPort => {
                self.editing = true;
                self.input_buffer = port_text(self.virtual_port);
            },
        }
    }

    /// While editing, appends an ASCII digit to an input shorter than five bytes.
    pub fn handle_char(&mut self, c: char)
        ensures
            old(self).after_char(*final(self), c),
            encode_utf8(old(self).input_buffer@).len() <= 5 ==> encode_utf8(
                final(self).input_buffer@,
            ).len() <= 5,
    {
        proof {
            lemma_encode_utf8_push(self.input_buffer@, c);
        }
        if self.editing && is_ascii_digit(c) && self.input_buffer.as_str().len() < 5 {
            push_char(&mut self.input_buffer, c);
        }
    }

    /// While editing, removes the last character of the input.
    pub fn handle_backspace(&mut self)
        ensures
            old(self).after_backspace(*final(self)),
    {
        if self.editing {
            let _ = pop_char(&mut self.input_buffer);
        }
    }

    /// Ends an edit: a non-zero port that parses is stored in the selected
    /// port field; the input is cleared either way.
    pub fn confirm_edit(&mut self)
        ensures
            old(self).after_confirm(*final(self)),
    {
        if self.editing {
            match parse_u16(self.input_buffer.as_str()) {
                Some(port) => {
                    if port > 0 {
                        match self.selected_field {
                            ModeField::UdpPort => self.udp_port = port,
                            ModeField::VirtualPort => self.virtual_port = port,
                            _ => {},
                        }
                    }
                },
                None => {},
            }
            self.editing = false;
            self.input_buffer = String::new();
        }
    }

    /// Abandons an edit.
    pub fn cancel_edit(&mut self)
        ensures
            old(self).after_cancel(*final(self)),
    {
        self.editing = false;
        self.input_buffer = String::new();
    }

    /// The transport mode.
    pub fn get_transport_mode(&self) -> (m: TransportMode)
        ensures
            m == self.transport_mode,
    {
        self.transport_mode
    }

    /// The virtual port.
    pub fn get_virtual_port(&self) -> (p: u16)
        ensures
            p == self.virtual_port,
    {
        self.virtual_port
    }

    /// Handles a key. While editing: characters, backspace, enter (confirm)
    /// and escape (cancel) go to the edit. Otherwise: up/k and down/j move the
    /// selection, enter/space act on the field, escape/m close and s saves.
    pub fn handle_key(&mut self, key: KeyCode) -> (action: ModeAction)
        ensures
            old(self).editing ==> action == ModeAction::NoAction,
            !old(self).editing ==> action == match key {
                KeyCode::Esc => ModeAction::Close,
                KeyCode::Char(c) => if c == 'm' {
                    ModeAction::Close
                } else if c == 's' {
                    ModeAction::Save
                } else {
                    ModeAction::NoAction
                },
                _ => ModeAction::NoAction,
            },
            old(self).editing ==> match key {
                KeyCode::Char(c) => old(self).after_char(*final(self), c),
                KeyCode::Backspace => old(self).after_backspace(*final(self)),
                KeyCode::Enter => old(self).after_confirm(*final(self)),
                KeyCode::Esc => old(self).after_cancel(*final(self)),
                _ => final(self).same_state(*old(self)),
            },
            !old(self).editing ==> if key == KeyCode::Up || key == KeyCode::Char('k') {
                &&& final(self).selected_field.index() == (old(self).selected_field.index() + 3) % 4
                &&& final(self).same_settings(*old(self))
                &&& final(self).editing == old(self).editing
                &&& final(self).input_buffer@ == old(self).input_buffer@
            } else if key == KeyCode::Down || key == KeyCode::Char('j') {
                &&& final(self).selected_field.index() == (old(self).selected_field.index() + 1) % 4
                &&& final(self).same_settings(*old(self))
                &&& final(self).editing == old(self).editing
                &&& final(self).input_buffer@ == old(self).input_buffer@
            } else if key == KeyCode::Enter || key == KeyCode::Char(' ') {
                old(self).after_start(*final(self))
            } else {
                final(self).same_state(*old(self))
            },
    {
        if self.editing {
            match key {
                KeyCode::Char(c) => self.handle_char(c),
                KeyCode::Backspace => self.handle_backspace(),
                KeyCode::Enter => self.confirm_edit(),
                KeyCode::Esc => self.cancel_edit(),
                _ => {},
            }
            ModeAction::NoAction
        } else {
            match key {
                KeyCode::Up => {
                    self.prev_field();
                    ModeAction::NoAction
                },
                KeyCode::Down => {
                    self.next_field();
                    ModeAction::NoAction
                },
                KeyCode::Enter => {
                    self.start_editing();
                    ModeAction::NoAction
                },
                KeyCode::Esc => ModeAction::Close,
                KeyCode::Char(c) => {
                    if c == 'k' {
                        self.prev_field();
                        ModeAction::NoAction
                    } else if c == 'j' {
                        self.next_field();
                        ModeAction::NoAction
                    } else if c == ' ' {
                        self.start_editing();
                        ModeAction::NoAction
                    } else if c == 'm' {
                        ModeAction::Close
                    } else if c == 's' {
                        ModeAction::Save
                    } else {
                        ModeAction::NoAction
                    }
                },
                _ => ModeAction::NoAction,
            }
        }
    }
}

} // verus!
