//! Raw pass-through codec: each input chunk is one message, and encoding
//! copies the payload. Suited to datagram transports where each datagram is
//! one message.
//!
//! A raw datagram names its message right after the message id:
//! `[MessageID, name_len, name_bytes..., fields...]`.

use vstd::prelude::*;
use vstd::utf8::{decode_utf8, valid_utf8};
use crate::buffers::bytes_copy_from_slice;
use crate::codec::frame::{frames_view, unknown_name, Frame, FrameView};
use crate::text::{string_from_chars, string_from_utf8};

verus! {

/// The name bytes of a raw datagram, when it is long enough to hold the name
/// length byte and the name it announces.
pub open spec fn raw_name_bytes(payload: Seq<u8>) -> Option<Seq<u8>> {
    if payload.len() < 2 || payload.len() < 2 + payload[1] {
        None
    } else {
        Some(payload.subrange(2, 2 + payload[1]))
    }
}

/// The name the raw codec gives a datagram: its announced name when that is
/// UTF-8, "unknown" otherwise.
pub open spec fn raw_frame_name(payload: Seq<u8>) -> Seq<char> {
    match raw_name_bytes(payload) {
        Some(b) => if valid_utf8(b) {
            decode_utf8(b)
        } else {
            unknown_name()
        },
        None => unknown_name(),
    }
}

/// The name of a raw datagram, or "unknown".
pub fn raw_name_or_unknown(payload: &[u8]) -> (name: String)
    ensures
        name@ == raw_frame_name(payload@),
{
    if payload.len() >= 2 {
        let name_len = payload[1] as usize;
        if payload.len() >= 2 + name_len {
            let name_bytes = &payload[2..2 + name_len];
            assert(name_bytes@ =~= payload@.subrange(2, 2 + payload@[1]));
            match string_from_utf8(name_bytes) {
                Some(name) => return name,
                None => {},
            }
        }
    }
    let s = ['u', 'n', 'k', 'n', 'o', 'w', 'n'];
    assert(s@ =~= unknown_name());
    string_from_chars(s.as_slice())
}

/// Pass-through codec for raw datagram protocols.
pub struct RawCodec;

impl RawCodec {
    pub fn new() -> (c: RawCodec) {
        RawCodec
    }

    /// One message frame for a non-empty chunk, named as `raw_frame_name`
    /// says; none for an empty chunk.
    pub fn decode(&mut self, data: &[u8]) -> (frames: Vec<Frame>)
        ensures
            frames_view(frames@) == if data@.len() == 0 {
                Seq::<FrameView>::empty()
            } else {
                seq![FrameView::Message(raw_frame_name(data@), data@)]
            },
    {
        let mut frames: Vec<Frame> = Vec::new();
        if data.len() != 0 {
            let name = raw_name_or_unknown(data);
            frames.push(Frame::Message { name, payload: bytes_copy_from_slice(data) });
        }
        assert(frames_view(frames@) =~= if data@.len() == 0 {
            Seq::<FrameView>::empty()
        } else {
            seq![FrameView::Message(raw_frame_name(data@), data@)]
        });
        frames
    }

    /// Appends the payload to `output` unchanged.
    pub fn encode(&self, payload: &[u8], output: &mut Vec<u8>)
        ensures
            final(output)@ == old(output)@ + payload@,
    {
        output.extend_from_slice(payload);
    }
}

impl Default for RawCodec {
    fn default() -> (c: Self) {
        RawCodec::new()
    }
}

} // verus!
