//! Bridge session relay: what happens to data between the controller and the
//! host.
//!
//! Controller data is decoded with the controller's codec; each message goes
//! to the host as its raw payload and is logged as incoming, and each debug
//! line from the firmware is logged. Host data is logged as outgoing and
//! encoded for the controller. The channels, statistics counters and the
//! event loop that carry these effects out live outside the library.

use vstd::prelude::*;
use bytes::Bytes;
use crate::buffers::{bytes_clone, bytes_contents, bytes_len};
use crate::codec::cobs_debug::codec_feed;
use crate::codec::frame::{frame_name, frames_view, name_or_unknown, Frame, FrameView};
use crate::codec::{CobsDebugCodec, RawCodec};
use crate::codec::raw::raw_frame_name;
use crate::logging::entry::{Direction, LogEntry, LogKind, LogLevel};
use crate::serial::cobs::{cobs_encode, DELIMITER, MAX_FRAME_SIZE};

verus! {

/// The codec on the controller side: COBS with debug lines on serial links,
/// raw datagrams otherwise.
pub enum ControllerCodec {
    Raw(RawCodec),
    CobsDebug(CobsDebugCodec),
}

impl ControllerCodec {
    pub open spec fn wf(&self) -> bool {
        match self {
            ControllerCodec::Raw(_) => true,
            ControllerCodec::CobsDebug(c) => c.wf(),
        }
    }

    /// Whether the codec is the raw one.
    pub open spec fn is_raw(&self) -> bool {
        self is Raw
    }

    /// What decoding `data` yields: for the raw codec, one message per
    /// non-empty chunk; for the COBS codec, the frames `codec_feed` completes.
    pub open spec fn decoded(&self, data: Seq<u8>) -> Seq<FrameView> {
        match self {
            ControllerCodec::Raw(_) => if data.len() == 0 {
                Seq::empty()
            } else {
                seq![FrameView::Message(raw_frame_name(data), data)]
            },
            ControllerCodec::CobsDebug(c) => codec_feed(c.spec_buffer(), c.spec_max(), data).1,
        }
    }

    /// `next` is this codec after decoding `data`: the raw codec keeps no
    /// state; the COBS codec keeps its limit and holds what `codec_feed` left
    /// buffered, the start of a frame split across reads.
    pub open spec fn fed(&self, next: ControllerCodec, data: Seq<u8>) -> bool {
        match (*self, next) {
            (ControllerCodec::Raw(_), ControllerCodec::Raw(_)) => true,
            (ControllerCodec::CobsDebug(c), ControllerCodec::CobsDebug(d)) => {
                &&& d.spec_buffer() == codec_feed(c.spec_buffer(), c.spec_max(), data).0
                &&& d.spec_max() == c.spec_max()
            },
            _ => false,
        }
    }

    /// The name this codec gives a decoded message.
    pub open spec fn message_name(&self, payload: Seq<u8>) -> Seq<char> {
        match self {
            ControllerCodec::Raw(_) => raw_frame_name(payload),
            ControllerCodec::CobsDebug(_) => frame_name(payload),
        }
    }

    /// What encoding `payload` for the controller gives.
    pub open spec fn encoded(&self, payload: Seq<u8>) -> Seq<u8> {
        match self {
            ControllerCodec::Raw(_) => payload,
            ControllerCodec::CobsDebug(_) => if payload.len() <= MAX_FRAME_SIZE - 2 {
                cobs_encode(payload).push(DELIMITER)
            } else {
                Seq::empty()
            },
        }
    }
}

/// One effect of controller data.
pub enum RelayAction {
    /// Send the payload to the host, count it as received, and log it.
    ToHost { payload: Bytes, log: LogEntry },
    /// Log a firmware debug line.
    Log(LogEntry),
}

/// The log entry of an incoming message: its name and size.
pub open spec fn is_protocol_log(e: LogEntry, direction: Direction, name: Seq<char>, size: nat) -> bool {
    e.kind matches LogKind::Protocol { direction: d, message_name, size: s } && d == direction
        && message_name@ == name && s == size
}

/// The log entry of a firmware debug line.
pub open spec fn is_debug_log(e: LogEntry, level: Option<LogLevel>, message: Seq<char>) -> bool {
    e.kind matches LogKind::Debug { level: l, message: m } && l == level && m@ == message
}

/// The effect of one decoded frame.
pub open spec fn action_for(a: RelayAction, f: FrameView) -> bool {
    match f {
        FrameView::Message(name, payload) => a matches RelayAction::ToHost { payload: p, log }
            && bytes_contents(p) == payload && is_protocol_log(log, Direction::In, name, payload.len()),
        FrameView::DebugLog(level, message) => a matches RelayAction::Log(log) && is_debug_log(
            log,
            level,
            message,
        ),
    }
}

/// Relay state between a controller and a host.
pub struct SessionRelay {
    pub codec: ControllerCodec,
}

impl SessionRelay {
    pub fn new(codec: ControllerCodec) -> (r: SessionRelay)
        ensures
            r.codec == codec,
    {
        SessionRelay { codec }
    }

    /// The effects of data from the controller, one per decoded frame, in order.
    pub fn relay_controller_to_host(&mut self, data: &[u8]) -> (actions: Vec<RelayAction>)
        requires
            old(self).codec.wf(),
        ensures
            final(self).codec.wf(),
            final(self).codec.is_raw() == old(self).codec.is_raw(),
            old(self).codec.fed(final(self).codec, data@),
            actions@.len() == old(self).codec.decoded(data@).len(),
            forall|i: int|
                0 <= i < actions@.len() ==> action_for(
                    #[trigger] actions@[i],
                    old(self).codec.decoded(data@)[i],
                ),
    {
        let frames = match &mut self.codec {
            ControllerCodec::Raw(c) => c.decode(data),
            ControllerCodec::CobsDebug(c) => c.decode(data),
        };
        let ghost fv = frames_view(frames@);
        let mut actions: Vec<RelayAction> = Vec::new();
        let n = frames.len();
        let mut k: usize = 0;
        while k < n
            invariant
                k <= n,
                n == frames@.len(),
                fv == frames_view(frames@),
                actions@.len() == k,
                forall|j: int| 0 <= j < k ==> action_for(#[trigger] actions@[j], fv[j]),
            decreases n - k,
        {
            match &frames[k] {
                Frame::Message { name, payload } => {
                    let size = bytes_len(payload);
                    let log = LogEntry::protocol_in(name.as_str(), size);
                    actions.push(RelayAction::ToHost { payload: bytes_clone(payload), log });
                },
                Frame::DebugLog { level, message } => {
                    let log = LogEntry::debug_log(*level, message.as_str());
                    actions.push(RelayAction::Log(log));
                },
            }
            assert(fv[k as int] == frames@[k as int].view());
            k = k + 1;
        }
        actions
    }

    /// The bytes to send to the controller for host data, and the outgoing
    /// log entry (the message name, or "unknown", and the size).
    pub fn relay_host_to_controller(&self, data: &[u8]) -> (r: (Vec<u8>, LogEntry))
        ensures
            r.0@ == self.codec.encoded(data@),
            is_protocol_log(r.1, Direction::Out, frame_name(data@), data@.len()),
    {
        let name = name_or_unknown(data);
        let log = LogEntry::protocol_out(name.as_str(), data.len());
        let mut encoded: Vec<u8> = Vec::new();
        match &self.codec {
            ControllerCodec::Raw(c) => c.encode(data, &mut encoded),
            ControllerCodec::CobsDebug(c) => c.encode(data, &mut encoded),
        }
        assert(encoded@ =~= self.codec.encoded(data@));
        (encoded, log)
    }
}

/// Echo through the relay: a payload the host sends, encoded for the
/// controller and echoed back unchanged, is decoded as that one message. For
/// the raw codec this holds of any non-empty payload; for the COBS codec,
/// from an empty buffer, of a payload that fits a frame and whose encoding
/// holds no newline byte and fits the codec's limit.
pub proof fn lemma_relay_echo(codec: ControllerCodec, p: Seq<u8>)
    requires
        codec.wf(),
        codec.is_raw() ==> p.len() > 0,
        codec matches ControllerCodec::CobsDebug(c) ==> {
            &&& c.spec_buffer() == Seq::<u8>::empty()
            &&& p.len() <= MAX_FRAME_SIZE - 2
            &&& forall|i: int| 0 <= i < cobs_encode(p).len() ==> cobs_encode(p)[i] != 0x0Au8
            &&& cobs_encode(p).len() <= c.spec_max()
        },
    ensures
        codec.decoded(codec.encoded(p)) == seq![FrameView::Message(codec.message_name(p), p)],
{
    match codec {
        ControllerCodec::Raw(_) => {},
        ControllerCodec::CobsDebug(c) => {
            crate::codec::cobs_debug::lemma_codec_roundtrip(p, c.spec_max());
        },
    }
}

} // verus!
