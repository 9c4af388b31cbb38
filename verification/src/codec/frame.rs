//! Frames produced by the codecs.

use vstd::prelude::*;
use bytes::Bytes;
use vstd::utf8::{decode_utf8, valid_utf8};
use crate::bridge::protocol::{message_name_bytes, parse_message_name};
use crate::buffers::bytes_contents;
use crate::logging::entry::LogLevel;

verus! {

/// Decoded frame from a codec.
#[derive(Debug)]
pub enum Frame {
    /// Protocol message with its decoded payload.
    Message {
        /// Message name read from the payload, or "unknown".
        name: String,
        payload: Bytes,
    },
    /// Debug log from firmware.
    DebugLog {
        /// Log level, when the line follows the OC_LOG format.
        level: Option<LogLevel>,
        message: String,
    },
}

/// What a frame carries, as plain values.
pub enum FrameView {
    Message(Seq<char>, Seq<u8>),
    DebugLog(Option<LogLevel>, Seq<char>),
}

impl Frame {
    pub open spec fn view(self) -> FrameView {
        match self {
            Frame::Message { name, payload } => FrameView::Message(name@, bytes_contents(payload)),
            Frame::DebugLog { level, message } => FrameView::DebugLog(level, message@),
        }
    }
}

pub open spec fn frames_view(frames: Seq<Frame>) -> Seq<FrameView> {
    frames.map_values(|f: Frame| f.view())
}

pub open spec fn unknown_name() -> Seq<char> {
    seq!['u', 'n', 'k', 'n', 'o', 'w', 'n']
}

/// The name a codec gives a payload: its message name when it has a valid
/// one, "unknown" otherwise.
pub open spec fn frame_name(payload: Seq<u8>) -> Seq<char> {
    match message_name_bytes(payload) {
        Some(b) => if valid_utf8(b) {
            decode_utf8(b)
        } else {
            unknown_name()
        },
        None => unknown_name(),
    }
}

/// The name of a payload, or "unknown".
pub fn name_or_unknown(payload: &[u8]) -> (name: String)
    ensures
        name@ == frame_name(payload@),
{
    match parse_message_name(payload) {
        Some(name) => name,
        None => {
            let s = ['u', 'n', 'k', 'n', 'o', 'w', 'n'];
            assert(s@ =~= unknown_name());
            crate::text::string_from_chars(s.as_slice())
        },
    }
}

} // verus!
