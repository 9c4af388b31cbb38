//! Stream parser for telling protocol messages from debug logs.
//!
//! The controller sends two kinds of data on the same serial link:
//! - protocol messages: COBS-encoded frames terminated by 0x00;
//! - debug logs: text lines terminated by '\n' (OC_LOG_* or Serial.print).
//!
//! The parser accumulates bytes and emits each complete frame of either kind.

use vstd::prelude::*;
use vstd::utf8::{decode_utf8, valid_utf8};
use crate::codec::oc_log::{lacks, lemma_parse_lacks, spec_parse};
use vstd::utf8::{encode_scalar, encode_utf8, leading_byte_width_1};
use crate::logging::entry::LogLevel;
use crate::text::string_from_utf8;

pub use crate::codec::oc_log::parse as parse_oc_log;
pub use crate::codec::oc_log::strip_ansi_codes;

verus! {

/// Buffer size beyond which a partial frame is dropped.
pub const MAX_BUFFER_SIZE: usize = 16384;

/// A parsed frame from the serial stream.
#[derive(Debug, Clone)]
pub enum ParsedFrame {
    /// Debug log from firmware (OC_LOG_* or Serial.print).
    DebugLog { level: Option<LogLevel>, message: String },
    /// Protocol message: the raw COBS frame, without the 0x00 delimiter.
    ProtocolMessage { payload: Vec<u8> },
}

/// What a parsed frame carries, as plain values.
pub enum FrameView {
    DebugLog(Option<LogLevel>, Seq<char>),
    ProtocolMessage(Seq<u8>),
}

impl ParsedFrame {
    pub open spec fn view(self) -> FrameView {
        match self {
            ParsedFrame::DebugLog { level, message } => FrameView::DebugLog(level, message@),
            ParsedFrame::ProtocolMessage { payload } => FrameView::ProtocolMessage(payload@),
        }
    }
}

pub open spec fn frames_view(frames: Seq<ParsedFrame>) -> Seq<FrameView> {
    frames.map_values(|f: ParsedFrame| f.view())
}

/// A text line without its trailing carriage return, if any.
pub open spec fn without_cr(line: Seq<u8>) -> Seq<u8> {
    if line.len() > 0 && line.last() == 0x0Du8 {
        line.drop_last()
    } else {
        line
    }
}

/// One byte of input: the new buffer and the frame it completes, if any.
/// A 0x00 ends a protocol frame (an empty one is dropped); a newline ends a
/// text line, which becomes a debug log when it is non-empty UTF-8; any other
/// byte is buffered, and a buffer past `max` bytes is dropped.
pub open spec fn step(buf: Seq<u8>, max: nat, b: u8) -> (Seq<u8>, Option<FrameView>) {
    if b == 0x00u8 {
        (Seq::empty(), if buf.len() > 0 {
            Some(FrameView::ProtocolMessage(buf))
        } else {
            None
        })
    } else if b == 0x0Au8 {
        let line = without_cr(buf);
        (Seq::empty(), if line.len() > 0 && valid_utf8(line) {
            let parsed = spec_parse(decode_utf8(line));
            Some(FrameView::DebugLog(parsed.0, parsed.1))
        } else {
            None
        })
    } else if buf.len() + 1 > max {
        (Seq::empty(), None)
    } else {
        (buf.push(b), None)
    }
}

/// Feeding `data` to a parser holding `buf`: the buffer left and the frames
/// completed, in order.
pub open spec fn feed_all(buf: Seq<u8>, max: nat, data: Seq<u8>) -> (Seq<u8>, Seq<FrameView>)
    decreases data.len(),
{
    if data.len() == 0 {
        (buf, Seq::empty())
    } else {
        let before = feed_all(buf, max, data.drop_last());
        let (next, frame) = step(before.0, max, data.last());
        (next, match frame {
            Some(f) => before.1.push(f),
            None => before.1,
        })
    }
}

/// Feeding in pieces: feeding `a + b` gives the frames of `a` then those of
/// `b`, fed to the buffer `a` left.
pub proof fn lemma_feed_split(buf: Seq<u8>, max: nat, a: Seq<u8>, b: Seq<u8>)
    ensures
        feed_all(buf, max, a + b) == (
            feed_all(feed_all(buf, max, a).0, max, b).0,
            feed_all(buf, max, a).1 + feed_all(feed_all(buf, max, a).0, max, b).1,
        ),
    decreases b.len(),
{
    let first = feed_all(buf, max, a);
    if b.len() == 0 {
        assert(a + b =~= a);
        assert(first.1 + Seq::<FrameView>::empty() =~= first.1);
    } else {
        assert((a + b).drop_last() =~= a + b.drop_last());
        assert((a + b).last() == b.last());
        lemma_feed_split(buf, max, a, b.drop_last());
        let mid = feed_all(first.0, max, b.drop_last());
        let (next, frame) = step(mid.0, max, b.last());
        match frame {
            Some(f) => {
                assert((first.1 + mid.1).push(f) =~= first.1 + mid.1.push(f));
            },
            None => {},
        }
    }
}

/// Chunking does not matter: for any size limit, feeding the bytes in two
/// calls leaves the same buffer and yields the same frames, in the same order,
/// as one call.
pub proof fn lemma_feed_chunking(buf: Seq<u8>, max: nat, a: Seq<u8>, b: Seq<u8>)
    ensures
        feed_all(buf, max, a + b).0 == feed_all(feed_all(buf, max, a).0, max, b).0,
        feed_all(buf, max, a + b).1 == feed_all(buf, max, a).1 + feed_all(
            feed_all(buf, max, a).0,
            max,
            b,
        ).1,
{
    lemma_feed_split(buf, max, a, b);
}

/// No byte of `s` ends a frame: neither 0x00 nor a newline.
pub open spec fn delimiter_free(s: Seq<u8>) -> bool {
    forall|i: int| 0 <= i < s.len() ==> s[i] != 0x00u8 && s[i] != 0x0Au8
}

/// A buffer that feeding can leave: no delimiter, within the limit.
pub open spec fn pending_ok(buf: Seq<u8>, max: nat) -> bool {
    delimiter_free(buf) && buf.len() <= max
}

/// A frame as the parser emits it: a protocol payload is non-empty, within
/// the limit and free of delimiters; a debug message holds no newline.
pub open spec fn frame_ok(f: FrameView, max: nat) -> bool {
    match f {
        FrameView::ProtocolMessage(p) => p.len() > 0 && p.len() <= max && delimiter_free(p),
        FrameView::DebugLog(_, m) => lacks(m, '\n'),
    }
}

/// A newline character encodes to a newline byte.
proof fn lemma_encoded_newline(chars: Seq<char>, i: int)
    requires
        0 <= i < chars.len(),
        chars[i] == '\n',
    ensures
        exists|j: int| 0 <= j < encode_utf8(chars).len() && encode_utf8(chars)[j] == 0x0Au8,
    decreases i,
{
    let head = encode_scalar(chars[0] as u32);
    let tail = encode_utf8(chars.drop_first());
    assert(encode_utf8(chars) == head + tail);
    if i == 0 {
        assert(leading_byte_width_1(10u32) == 10u8) by (bit_vector);
        assert(head == seq![10u8]);
        assert(encode_utf8(chars)[0] == 0x0Au8);
    } else {
        lemma_encoded_newline(chars.drop_first(), i - 1);
        let j = choose|j: int| 0 <= j < tail.len() && tail[j] == 0x0Au8;
        assert(encode_utf8(chars)[head.len() + j] == tail[j]);
    }
}

/// Text decoded from bytes without a newline byte holds no newline.
proof fn lemma_decoded_lacks_newline(line: Seq<u8>)
    requires
        valid_utf8(line),
        forall|i: int| 0 <= i < line.len() ==> line[i] != 0x0Au8,
    ensures
        lacks(decode_utf8(line), '\n'),
{
    broadcast use vstd::utf8::decode_utf8_encode_utf8;

    let chars = decode_utf8(line);
    assert(encode_utf8(chars) == line);
    assert forall|i: int| 0 <= i < chars.len() implies chars[i] != '\n' by {
        if chars[i] == '\n' {
            lemma_encoded_newline(chars, i);
        }
    }
}

/// One byte keeps the buffer well formed, and any frame it completes is
/// well formed.
proof fn lemma_step_ok(buf: Seq<u8>, max: nat, b: u8)
    requires
        pending_ok(buf, max),
    ensures
        pending_ok(step(buf, max, b).0, max),
        step(buf, max, b).1 matches Some(f) ==> frame_ok(f, max),
{
    if b == 0x0Au8 {
        let line = without_cr(buf);
        assert forall|i: int| 0 <= i < line.len() implies line[i] != 0x0Au8 by {
            assert(line[i] == buf[i]);
        }
        if line.len() > 0 && valid_utf8(line) {
            lemma_decoded_lacks_newline(line);
            lemma_parse_lacks(decode_utf8(line), '\n');
        }
    } else if b != 0x00u8 && buf.len() + 1 <= max {
        assert forall|i: int| 0 <= i < buf.push(b).len() implies buf.push(b)[i] != 0x00u8
            && buf.push(b)[i] != 0x0Au8 by {
            if i < buf.len() {
                assert(buf.push(b)[i] == buf[i]);
            }
        }
    }
}

/// Whatever the bytes, a well-formed buffer stays well formed, every
/// protocol payload emitted is non-empty, within the limit and holds neither
/// 0x00 nor a newline, and no debug message holds a newline.
pub proof fn lemma_feed_frames_ok(buf: Seq<u8>, max: nat, data: Seq<u8>)
    requires
        pending_ok(buf, max),
    ensures
        pending_ok(feed_all(buf, max, data).0, max),
        forall|i: int|
            0 <= i < feed_all(buf, max, data).1.len() ==> frame_ok(
                #[trigger] feed_all(buf, max, data).1[i],
                max,
            ),
    decreases data.len(),
{
    if data.len() > 0 {
        lemma_feed_frames_ok(buf, max, data.drop_last());
        let before = feed_all(buf, max, data.drop_last());
        lemma_step_ok(before.0, max, data.last());
        let (next, frame) = step(before.0, max, data.last());
        match frame {
            Some(f) => {
                assert forall|i: int| 0 <= i < before.1.push(f).len() implies frame_ok(
                    #[trigger] before.1.push(f)[i],
                    max,
                ) by {
                    if i < before.1.len() {
                        assert(before.1.push(f)[i] == before.1[i]);
                    }
                }
            },
            None => {},
        }
    }
}

/// Clearing forgets the frame in progress: a well-formed parser with an
/// empty buffer, as `clear` leaves it, turns any bytes into what a new parser
/// makes of them, so a dropped partial frame is never emitted.
pub proof fn lemma_cleared_parser_is_fresh(p: StreamParser, data: Seq<u8>)
    requires
        p.wf(),
        p.spec_buffer() == Seq::<u8>::empty(),
    ensures
        feed_all(p.spec_buffer(), p.spec_max(), data) == feed_all(
            Seq::<u8>::empty(),
            MAX_BUFFER_SIZE as nat,
            data,
        ),
{
}

/// Parser state for the serial stream.
pub struct StreamParser {
    buffer: Vec<u8>,
    /// Buffer size beyond which a partial frame is dropped.
    max_buffer_size: usize,
}

impl StreamParser {
    /// The bytes of the frame in progress.
    pub closed spec fn spec_buffer(&self) -> Seq<u8> {
        self.buffer@
    }

    pub closed spec fn spec_max(&self) -> nat {
        self.max_buffer_size as nat
    }

    /// A parser as `new` makes it and `feed` and `clear` keep it: the
    /// default size limit, and a pending frame without delimiters within it.
    pub open spec fn wf(&self) -> bool {
        &&& self.spec_max() == MAX_BUFFER_SIZE
        &&& pending_ok(self.spec_buffer(), self.spec_max())
    }

    /// A parser with an empty buffer and the default size limit.
    pub fn new() -> (p: StreamParser)
        ensures
            p.wf(),
            p.spec_buffer() == Seq::<u8>::empty(),
            p.spec_max() == MAX_BUFFER_SIZE,
    {
        StreamParser { buffer: Vec::new(), max_buffer_size: MAX_BUFFER_SIZE }
    }

    /// Feeds bytes and returns the frames they complete, in order.
    pub fn feed(&mut self, data: &[u8]) -> (frames: Vec<ParsedFrame>)
        ensures
            final(self).spec_max() == old(self).spec_max(),
            (final(self).spec_buffer(), frames_view(frames@)) == feed_all(
                old(self).spec_buffer(),
                old(self).spec_max(),
                data@,
            ),
            old(self).wf() ==> final(self).wf(),
            old(self).wf() ==> forall|i: int|
                0 <= i < frames_view(frames@).len() ==> frame_ok(
                    #[trigger] frames_view(frames@)[i],
                    MAX_BUFFER_SIZE as nat,
                ),
    {
        let mut frames: Vec<ParsedFrame> = Vec::new();
        let n = data.len();
        let mut i: usize = 0;
        assert(data@.take(0) =~= Seq::<u8>::empty());
        assert(frames_view(frames@) =~= Seq::<FrameView>::empty());
        while i < n
            invariant
                n == data@.len(),
                i <= n,
                self.max_buffer_size == old(self).max_buffer_size,
                (self.buffer@, frames_view(frames@)) == feed_all(
                    old(self).buffer@,
                    old(self).max_buffer_size as nat,
                    data@.take(i as int),
                ),
            decreases n - i,
        {
            let byte = data[i];
            let ghost buf = self.buffer@;
            let ghost old_frames = frames_view(frames@);
            assert(data@.take(i + 1).drop_last() =~= data@.take(i as int));
            assert(data@.take(i + 1).last() == byte);
            if byte == 0x00 {
                if self.buffer.len() > 0 {
                    let mut payload: Vec<u8> = Vec::new();
                    std::mem::swap(&mut payload, &mut self.buffer);
                    frames.push(ParsedFrame::ProtocolMessage { payload });
                    assert(frames_view(frames@) =~= old_frames.push(FrameView::ProtocolMessage(buf)));
                } else {
                    self.buffer.clear();
                }
            } else if byte == 0x0A {
                if self.buffer.len() > 0 && self.buffer[self.buffer.len() - 1] == 0x0D {
                    let _ = self.buffer.pop();
                }
                assert(self.buffer@ =~= without_cr(buf));
                if self.buffer.len() > 0 {
                    match string_from_utf8(self.buffer.as_slice()) {
                        Some(text) => {
                            let (level, message) = parse_oc_log(text.as_str());
                            frames.push(ParsedFrame::DebugLog { level, message });
                            assert(frames_view(frames@) =~= old_frames.push(
                                FrameView::DebugLog(level, message@),
                            ));
                        },
                        None => {},
                    }
                }
                self.buffer.clear();
            } else {
                self.buffer.push(byte);
                if self.buffer.len() > self.max_buffer_size {
                    self.buffer.clear();
                }
            }
            assert(self.buffer@ =~= step(buf, self.max_buffer_size as nat, byte).0);
            i = i + 1;
        }
        assert(data@.take(n as int) =~= data@);
        proof {
            if old(self).wf() {
                lemma_feed_frames_ok(old(self).buffer@, old(self).max_buffer_size as nat, data@);
                let fed = feed_all(old(self).buffer@, old(self).max_buffer_size as nat, data@);
                assert(frames_view(frames@) == fed.1);
                assert forall|i: int| 0 <= i < frames_view(frames@).len() implies frame_ok(
                    #[trigger] frames_view(frames@)[i],
                    MAX_BUFFER_SIZE as nat,
                ) by {
                    assert(frame_ok(fed.1[i], MAX_BUFFER_SIZE as nat));
                }
            }
        }
        frames
    }

    /// Drops the frame in progress.
    pub fn clear(&mut self)
        ensures
            final(self).spec_buffer() == Seq::<u8>::empty(),
            final(self).spec_max() == old(self).spec_max(),
            old(self).wf() ==> final(self).wf(),
    {
        self.buffer.clear();
    }
}

impl Default for StreamParser {
    fn default() -> (p: Self)
        ensures
            p.wf(),
            p.spec_buffer() == Seq::<u8>::empty(),
            p.spec_max() == MAX_BUFFER_SIZE,
    {
        StreamParser::new()
    }
}

} // verus!
