//! Controller-side RPC requests routed through the active bridge session.
//!
//! The control plane uses this channel for maintenance operations that need the
//! already-open controller serial link.

use vstd::prelude::*;
use vstd::bytes::{spec_u16_from_le_bytes, u16_from_le_bytes};

verus! {

#[derive(Debug, Clone, Copy, PartialEq, Eq, Structural)]
pub enum ControllerRpcError {
    Busy,
    Disconnected,
    Timeout,
    SendFailed,
}

impl ControllerRpcError {
    /// Human-readable description of the error.
    pub fn message(&self) -> (s: &'static str)
        ensures
            s@ == self.spec_message(),
    {
        match self {
            ControllerRpcError::Busy => "controller rpc busy",
            ControllerRpcError::Disconnected => "controller rpc disconnected",
            ControllerRpcError::Timeout => "controller rpc timeout",
            ControllerRpcError::SendFailed => "controller rpc send failed",
        }
    }

    pub open spec fn spec_message(&self) -> Seq<char> {
        match self {
            ControllerRpcError::Busy => "controller rpc busy"@,
            ControllerRpcError::Disconnected => "controller rpc disconnected"@,
            ControllerRpcError::Timeout => "controller rpc timeout"@,
            ControllerRpcError::SendFailed => "controller rpc send failed"@,
        }
    }
}

/// Offset of the request id in a protocol frame: `[id, name_len, name..., flag, request_id_le]`.
pub open spec fn request_id_offset(payload: Seq<u8>) -> int {
    3 + payload[1]
}

/// The little-endian request id that follows the name of a protocol frame,
/// when the frame has at least five bytes and reaches past it.
pub open spec fn spec_frame_request_id(payload: Seq<u8>) -> Option<u16> {
    if payload.len() < 5 || payload.len() < request_id_offset(payload) + 2 {
        None
    } else {
        Some(
            spec_u16_from_le_bytes(
                payload.subrange(request_id_offset(payload), request_id_offset(payload) + 2),
            ),
        )
    }
}

pub fn protocol_frame_request_id(payload: &[u8]) -> (res: Option<u16>)
    ensures
        res == spec_frame_request_id(payload@),
{
    if payload.len() < 5 {
        return None;
    }
    let name_len = payload[1] as usize;
    let offset = 3 + name_len;
    if payload.len() < offset + 2 {
        return None;
    }
    Some(u16_from_le_bytes(&payload[offset..offset + 2]))
}

} // verus!
