//! Verified core of the Open Control bridge: wire codecs, framing,
//! log storage and the small state machines behind the terminal UI.

pub mod app;
pub mod bridge;
pub mod bridge_state;
pub mod codec;
pub mod config;
pub mod buffers;
pub mod cli;
pub mod constants;
pub mod control;
pub mod control_binary;
pub mod elevation;
pub mod error;
pub mod input;
pub mod instance_lock;
pub mod logging;
pub mod popup;
pub mod serial;
pub mod service;
pub mod text;
pub mod transport;
pub mod ui;
pub mod wire;
