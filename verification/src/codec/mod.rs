//! Codecs: how messages are framed on the wire.
//!
//! A codec turns incoming bytes into frames (protocol messages with their
//! decoded payload, or firmware debug logs) and payloads into wire bytes.

pub mod cobs_debug;
pub mod frame;
pub mod oc_log;
pub mod raw;

pub use cobs_debug::CobsDebugCodec;
pub use frame::Frame;
pub use raw::RawCodec;
