//! Binary local control protocol for high-throughput controller RPC.
//!
//! This framing stays on the local TCP control socket. It is small so desktop
//! clients can implement it without the human-oriented JSON control path.

use vstd::prelude::*;
use vstd::bytes::{
    spec_u16_from_le_bytes, spec_u16_to_le_bytes, spec_u32_from_le_bytes, spec_u32_to_le_bytes,
    u16_from_le_bytes, u16_to_le_bytes, u32_from_le_bytes, u32_to_le_bytes,
};
use vstd::string::StringSliceAdditionalSpecFns;
use crate::text::{decimal, push_decimal};

verus! {

/// "OCRQ" in ASCII.
pub const REQUEST_MAGIC: [u8; 4] = [0x4F, 0x43, 0x52, 0x51];
/// "OCRS" in ASCII.
pub const RESPONSE_MAGIC: [u8; 4] = [0x4F, 0x43, 0x52, 0x53];
pub const VERSION: u8 = 1;
pub const HEADER_BYTES: usize = 16;

#[derive(Debug, Clone, Copy, PartialEq, Eq, Structural)]
pub enum Status {
    Success,
    ProtocolError,
    Unavailable,
    Busy,
    Timeout,
    SendFailed,
}

impl Status {
    pub open spec fn spec_code(self) -> u8 {
        match self {
            Status::Success => 0,
            Status::ProtocolError => 1,
            Status::Unavailable => 2,
            Status::Busy => 3,
            Status::Timeout => 4,
            Status::SendFailed => 5,
        }
    }

    /// Wire value of the status.
    pub fn code(self) -> (c: u8)
        ensures
            c == self.spec_code(),
    {
        match self {
            Status::Success => 0,
            Status::ProtocolError => 1,
            Status::Unavailable => 2,
            Status::Busy => 3,
            Status::Timeout => 4,
            Status::SendFailed => 5,
        }
    }
}

#[derive(Debug, Clone, Copy, PartialEq, Eq, Structural)]
pub struct RequestHeader {
    pub token: u16,
    pub expected_response_id: Option<u8>,
    pub timeout_ms: u64,
    pub payload_len: usize,
}

/// The error text for a header whose magic is not `REQUEST_MAGIC`.
pub open spec fn bad_magic_message() -> Seq<char> {
    "invalid binary rpc magic"@
}

/// The error text for a header of another version.
pub open spec fn bad_version_message(version: u8) -> Seq<char> {
    "unsupported binary rpc version: "@ + decimal(version as nat)
}

/// Decoding of a request header: magic, version, expected response id (0 for
/// none), then little-endian token, timeout and payload length.
pub open spec fn spec_decode_header(h: Seq<u8>) -> Result<RequestHeader, Seq<char>> {
    if h.subrange(0, 4) != REQUEST_MAGIC@ {
        Err(bad_magic_message())
    } else if h[4] != VERSION {
        Err(bad_version_message(h[4]))
    } else {
        Ok(
            RequestHeader {
                token: spec_u16_from_le_bytes(h.subrange(6, 8)),
                expected_response_id: if h[5] == 0 {
                    None
                } else {
                    Some(h[5])
                },
                timeout_ms: spec_u32_from_le_bytes(h.subrange(8, 12)) as u64,
                payload_len: spec_u32_from_le_bytes(h.subrange(12, 16)) as usize,
            },
        )
    }
}

impl RequestHeader {
    pub fn decode(header: &[u8; HEADER_BYTES]) -> (res: Result<Self, String>)
        ensures
            match (res, spec_decode_header(header@)) {
                (Ok(a), Ok(b)) => a == b,
                (Err(a), Err(b)) => a@ == b,
                _ => false,
            },
    {
        let h: &[u8] = header.as_slice();
        let magic = REQUEST_MAGIC;
        if h[0] != magic[0] || h[1] != magic[1] || h[2] != magic[2] || h[3] != magic[3] {
            proof {
                if h@.subrange(0, 4) == REQUEST_MAGIC@ {
                    assert(h@.subrange(0, 4)[0] == h@[0]);
                    assert(h@.subrange(0, 4)[1] == h@[1]);
                    assert(h@.subrange(0, 4)[2] == h@[2]);
                    assert(h@.subrange(0, 4)[3] == h@[3]);
                }
            }
            return Err(String::from_str("invalid binary rpc magic"));
        }
        assert(h@.subrange(0, 4) =~= REQUEST_MAGIC@);
        if h[4] != VERSION {
            let mut msg = String::from_str("unsupported binary rpc version: ");
            push_decimal(&mut msg, h[4] as u64);
            return Err(msg);
        }
        let expected_response_id = if h[5] == 0 {
            None
        } else {
            Some(h[5])
        };
        let token = u16_from_le_bytes(&h[6..8]);
        let timeout_ms = u32_from_le_bytes(&h[8..12]) as u64;
        let payload_len = u32_from_le_bytes(&h[12..16]) as usize;
        Ok(RequestHeader { token, expected_response_id, timeout_ms, payload_len })
    }
}

pub struct ResponseFrame<'a> {
    pub token: u16,
    pub status: Status,
    pub payload: &'a [u8],
    pub message: &'a str,
}

/// `n` capped at `cap`.
pub open spec fn capped(n: nat, cap: nat) -> nat {
    if n < cap {
        n
    } else {
        cap
    }
}

impl<'a> ResponseFrame<'a> {
    /// The encoded frame: a 16-byte header (magic, version, status, token,
    /// payload length, message length, two zero bytes) then the payload and the
    /// UTF-8 message, each cut to what its length field can count.
    pub open spec fn spec_encode(&self) -> Seq<u8> {
        let message = self.message.spec_bytes();
        let payload_len = capped(self.payload@.len(), 0xFFFF_FFFF);
        let message_len = capped(message.len(), 0xFFFF);
        RESPONSE_MAGIC@ + seq![VERSION, self.status.spec_code()] + spec_u16_to_le_bytes(self.token)
            + spec_u32_to_le_bytes(payload_len as u32) + spec_u16_to_le_bytes(message_len as u16)
            + spec_u16_to_le_bytes(0) + self.payload@.take(payload_len as int) + message.take(
            message_len as int,
        )
    }

    pub fn encode(&self) -> (out: Vec<u8>)
        ensures
            out@ == self.spec_encode(),
    {
        let message = self.message.as_bytes();
        let payload_len: u32 = if self.payload.len() < 0xFFFF_FFFF {
            self.payload.len() as u32
        } else {
            0xFFFF_FFFF
        };
        let message_len: u16 = if message.len() < 0xFFFF {
            message.len() as u16
        } else {
            0xFFFF
        };
        let mut out: Vec<u8> = Vec::new();
        let magic = RESPONSE_MAGIC;
        out.extend_from_slice(magic.as_slice());
        out.push(VERSION);
        out.push(self.status.code());
        out.extend_from_slice(u16_to_le_bytes(self.token).as_slice());
        out.extend_from_slice(u32_to_le_bytes(payload_len).as_slice());
        out.extend_from_slice(u16_to_le_bytes(message_len).as_slice());
        out.extend_from_slice(u16_to_le_bytes(0).as_slice());
        out.extend_from_slice(&self.payload[0..payload_len as usize]);
        out.extend_from_slice(&message[0..message_len as usize]);
        assert(out@ =~= self.spec_encode());
        out
    }
}

} // verus!
