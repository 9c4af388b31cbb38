//! Protocol message parsing.
//!
//! Payload format: `[MessageID, fromHost, name_len, name_bytes..., fields...]`
//! - MessageID: 1 byte identifying the message type
//! - fromHost: 1 byte flag (1 if from host, 0 if from controller)
//! - name_len: 1 byte length of the message name
//! - name_bytes: UTF-8 encoded message name
//! - fields: remaining payload data

use vstd::prelude::*;
use vstd::utf8::{decode_utf8, valid_utf8};
use crate::text::string_from_utf8;

verus! {

/// Bytes before the name length: MessageID and fromHost.
pub const MESSAGE_HEADER_SIZE: usize = 2;

/// The name bytes of a payload, when the payload is long enough to hold the
/// name length byte and the name it announces.
pub open spec fn message_name_bytes(payload: Seq<u8>) -> Option<Seq<u8>> {
    if payload.len() < 3 || payload.len() < 3 + payload[2] {
        None
    } else {
        Some(payload.subrange(3, 3 + payload[2]))
    }
}

/// The message name of a Serial8 payload: the announced name bytes decoded as
/// UTF-8. `None` when the payload is too short or the name is not UTF-8.
pub fn parse_message_name(payload: &[u8]) -> (res: Option<String>)
    ensures
        match res {
            Some(name) => message_name_bytes(payload@) matches Some(b) && valid_utf8(b) && name@
                == decode_utf8(b),
            None => match message_name_bytes(payload@) {
                Some(b) => !valid_utf8(b),
                None => true,
            },
        },
{
    if payload.len() < MESSAGE_HEADER_SIZE + 1 {
        return None;
    }
    let name_len = payload[MESSAGE_HEADER_SIZE] as usize;
    if payload.len() < MESSAGE_HEADER_SIZE + 1 + name_len {
        return None;
    }
    let name_bytes = &payload[MESSAGE_HEADER_SIZE + 1..MESSAGE_HEADER_SIZE + 1 + name_len];
    string_from_utf8(name_bytes)
}

} // verus!
