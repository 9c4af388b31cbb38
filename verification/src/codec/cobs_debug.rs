//! COBS+debug codec for serial USB communication.
//!
//! Handles two kinds of data on the same stream:
//! - protocol messages: COBS-encoded frames terminated by 0x00;
//! - debug logs: text terminated by '\n' (OC_LOG or Serial.print).

use vstd::prelude::*;
use bytes::BytesMut;
use vstd::utf8::{decode_utf8, valid_utf8};
use crate::buffers::{
    bytes_mut_as_slice, bytes_mut_clear, bytes_mut_clone, bytes_mut_contents, bytes_mut_freeze,
    bytes_mut_with_capacity,
};
use crate::bridge::stream_parser::without_cr;
use crate::codec::frame::{frame_name, frames_view, name_or_unknown, Frame, FrameView};
use crate::codec::oc_log::{parse, spec_parse};
use crate::serial::cobs::{cobs_decode, cobs_encode, decode_into_bytes, encode_into, CobsError};
use crate::text::string_from_utf8;

verus! {

/// Default buffer limit.
pub const DEFAULT_MAX_SIZE: usize = 4096;

/// One byte of input: the new buffer and the frame it completes, if any.
/// A 0x00 ends a COBS frame, which becomes a message when it decodes; a
/// newline ends a text line, which becomes a debug log when it is non-empty
/// UTF-8; any other byte is buffered, and a buffer past `max` bytes is dropped.
pub open spec fn codec_step(buf: Seq<u8>, max: nat, b: u8) -> (Seq<u8>, Option<FrameView>) {
    if b == 0x00u8 {
        (Seq::empty(), if buf.len() > 0 && cobs_decode(buf).1 {
            let data = cobs_decode(buf).0;
            Some(FrameView::Message(frame_name(data), data))
        } else {
            None
        })
    } else if b == 0x0Au8 {
        let line = without_cr(buf);
        (Seq::empty(), if line.len() > 0 && valid_utf8(line) {
            let parsed = spec_parse(decode_utf8(line));
            Some(FrameView::DebugLog(parsed.0, parsed.1))
        } else {
            None
        })
    } else if buf.len() + 1 > max {
        (Seq::empty(), None)
    } else {
        (buf.push(b), None)
    }
}

/// Decoding `data` from a codec holding `buf`: the buffer left and the
/// frames completed, in order.
pub open spec fn codec_feed(buf: Seq<u8>, max: nat, data: Seq<u8>) -> (Seq<u8>, Seq<FrameView>)
    decreases data.len(),
{
    if data.len() == 0 {
        (buf, Seq::empty())
    } else {
        let before = codec_feed(buf, max, data.drop_last());
        let (next, frame) = codec_step(before.0, max, data.last());
        (next, match frame {
            Some(f) => before.1.push(f),
            None => before.1,
        })
    }
}

/// Bytes that neither end a frame nor a line are buffered as they come,
/// while the buffer stays within the limit.
pub proof fn lemma_feed_plain_bytes(buf: Seq<u8>, max: nat, data: Seq<u8>)
    requires
        forall|i: int| 0 <= i < data.len() ==> data[i] != 0x00u8 && data[i] != 0x0Au8,
        buf.len() + data.len() <= max,
    ensures
        codec_feed(buf, max, data) == (buf + data, Seq::<FrameView>::empty()),
    decreases data.len(),
{
    if data.len() > 0 {
        lemma_feed_plain_bytes(buf, max, data.drop_last());
        assert(buf + data.drop_last() + seq![data.last()] =~= buf + data);
        assert((buf + data.drop_last()).push(data.last()) =~= buf + data);
    } else {
        assert(buf + data =~= buf);
    }
}

/// Chunking does not matter: decoding `a + b` in one call leaves the buffer
/// and yields the frames that decoding `a`, then `b`, gives over two calls.
pub proof fn lemma_codec_chunking(buf: Seq<u8>, max: nat, a: Seq<u8>, b: Seq<u8>)
    ensures
        codec_feed(buf, max, a + b) == (
            codec_feed(codec_feed(buf, max, a).0, max, b).0,
            codec_feed(buf, max, a).1 + codec_feed(codec_feed(buf, max, a).0, max, b).1,
        ),
    decreases b.len(),
{
    let first = codec_feed(buf, max, a);
    if b.len() == 0 {
        assert(a + b =~= a);
        assert(first.1 + Seq::<FrameView>::empty() =~= first.1);
    } else {
        assert((a + b).drop_last() =~= a + b.drop_last());
        assert((a + b).last() == b.last());
        lemma_codec_chunking(buf, max, a, b.drop_last());
        let mid = codec_feed(first.0, max, b.drop_last());
        let (next, frame) = codec_step(mid.0, max, b.last());
        match frame {
            Some(f) => {
                assert((first.1 + mid.1).push(f) =~= first.1 + mid.1.push(f));
            },
            None => {},
        }
    }
}

/// Codec round trip: from an empty buffer, decoding the encoding of a
/// payload yields exactly one message, that payload under its name. This
/// holds when the encoding carries no newline byte (a newline inside a frame
/// ends a text line instead) and fits the buffer limit.
pub proof fn lemma_codec_roundtrip(p: Seq<u8>, max: nat)
    requires
        forall|i: int| 0 <= i < cobs_encode(p).len() ==> cobs_encode(p)[i] != 0x0Au8,
        cobs_encode(p).len() <= max,
    ensures
        codec_feed(Seq::empty(), max, cobs_encode(p).push(0x00u8)) == (
            Seq::<u8>::empty(),
            seq![FrameView::Message(frame_name(p), p)],
        ),
{
    let e = cobs_encode(p);
    crate::serial::cobs::lemma_cobs_encoding_has_no_zero(p);
    crate::serial::cobs::lemma_cobs_roundtrip(p);
    lemma_feed_plain_bytes(Seq::empty(), max, e);
    assert(Seq::<u8>::empty() + e =~= e);
    assert(e.push(0x00u8).drop_last() =~= e);
    assert(seq![FrameView::Message(frame_name(p), p)] =~= Seq::<FrameView>::empty().push(
        FrameView::Message(frame_name(p), p),
    ));
}

/// Codec for serial USB communication with mixed protocol and debug data.
pub struct CobsDebugCodec {
    buffer: Vec<u8>,
    decode_buf: BytesMut,
    max_size: usize,
}

impl CobsDebugCodec {
    /// The bytes of the frame in progress.
    pub closed spec fn spec_buffer(&self) -> Seq<u8> {
        self.buffer@
    }

    pub closed spec fn spec_max(&self) -> nat {
        self.max_size as nat
    }

    /// The buffer never outgrows the limit, and the limit is one a vector can
    /// hold.
    pub closed spec fn wf(&self) -> bool {
        &&& self.max_size < isize::MAX
        &&& self.buffer@.len() <= self.max_size
    }

    /// A codec with empty buffers and the given limit. Reserving that much
    /// memory fails past `isize::MAX` bytes, so larger limits are left out.
    pub fn new(max_size: usize) -> (c: CobsDebugCodec)
        requires
            max_size < isize::MAX,
        ensures
            c.wf(),
            c.spec_buffer() == Seq::<u8>::empty(),
            c.spec_max() == max_size,
    {
        CobsDebugCodec {
            buffer: Vec::with_capacity(max_size),
            decode_buf: bytes_mut_with_capacity(max_size),
            max_size,
        }
    }

    /// Feeds bytes and returns the frames they complete, in order.
    pub fn decode(&mut self, data: &[u8]) -> (frames: Vec<Frame>)
        requires
            old(self).wf(),
        ensures
            final(self).wf(),
            final(self).spec_max() == old(self).spec_max(),
            (final(self).spec_buffer(), frames_view(frames@)) == codec_feed(
                old(self).spec_buffer(),
                old(self).spec_max(),
                data@,
            ),
    {
        let mut frames: Vec<Frame> = Vec::new();
        let n = data.len();
        let mut i: usize = 0;
        assert(data@.take(0) =~= Seq::<u8>::empty());
        assert(frames_view(frames@) =~= Seq::<FrameView>::empty());
        while i < n
            invariant
                n == data@.len(),
                i <= n,
                self.max_size == old(self).max_size,
                self.wf(),
                (self.buffer@, frames_view(frames@)) == codec_feed(
                    old(self).buffer@,
                    old(self).max_size as nat,
                    data@.take(i as int),
                ),
            decreases n - i,
        {
            let byte = data[i];
            let ghost buf = self.buffer@;
            let ghost old_frames = frames_view(frames@);
            assert(data@.take(i + 1).drop_last() =~= data@.take(i as int));
            assert(data@.take(i + 1).last() == byte);
            if byte == 0x00 {
                if self.buffer.len() > 0 {
                    bytes_mut_clear(&mut self.decode_buf);
                    let decoded = decode_into_bytes(self.buffer.as_slice(), &mut self.decode_buf);
                    if decoded.is_ok() {
                        assert(bytes_mut_contents(self.decode_buf) =~= cobs_decode(buf).0);
                        let name = name_or_unknown(bytes_mut_as_slice(&self.decode_buf));
                        let payload = bytes_mut_freeze(bytes_mut_clone(&self.decode_buf));
                        frames.push(Frame::Message { name, payload });
                        assert(frames_view(frames@) =~= old_frames.push(
                            FrameView::Message(frame_name(cobs_decode(buf).0), cobs_decode(buf).0),
                        ));
                    }
                }
                self.buffer.clear();
            } else if byte == 0x0A {
                if self.buffer.len() > 0 && self.buffer[self.buffer.len() - 1] == 0x0D {
                    let _ = self.buffer.pop();
                }
                assert(self.buffer@ =~= without_cr(buf));
                if self.buffer.len() > 0 {
                    match string_from_utf8(self.buffer.as_slice()) {
                        Some(text) => {
                            let (level, message) = parse(text.as_str());
                            frames.push(Frame::DebugLog { level, message });
                            assert(frames_view(frames@) =~= old_frames.push(
                                FrameView::DebugLog(level, message@),
                            ));
                        },
                        None => {},
                    }
                }
                self.buffer.clear();
            } else {
                self.buffer.push(byte);
                if self.buffer.len() > self.max_size {
                    self.buffer.clear();
                }
            }
            assert(self.buffer@ =~= codec_step(buf, self.max_size as nat, byte).0);
            i = i + 1;
        }
        assert(data@.take(n as int) =~= data@);
        frames
    }

    /// Writes the COBS encoding of `payload` and its delimiter into `output`
    /// (cleared first). A payload too large to frame leaves `output` as it was.
    pub fn encode(&self, payload: &[u8], output: &mut Vec<u8>)
        ensures
            payload@.len() <= crate::serial::cobs::MAX_FRAME_SIZE - 2 ==> final(output)@ == cobs_encode(
                payload@,
            ).push(crate::serial::cobs::DELIMITER),
            payload@.len() > crate::serial::cobs::MAX_FRAME_SIZE - 2 ==> final(output)@ == old(output)@,
    {
        let _ = encode_into(payload, output);
    }
}

impl Default for CobsDebugCodec {
    fn default() -> (c: Self)
        ensures
            c.wf(),
            c.spec_buffer() == Seq::<u8>::empty(),
            c.spec_max() == DEFAULT_MAX_SIZE,
    {
        CobsDebugCodec::new(DEFAULT_MAX_SIZE)
    }
}

} // verus!
