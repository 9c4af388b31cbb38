use oc_bridge::control_binary::{RequestHeader, ResponseFrame, Status, HEADER_BYTES, REQUEST_MAGIC, RESPONSE_MAGIC, VERSION};

#[test]
fn request_header_roundtrip() {
    let mut header = [0u8; HEADER_BYTES];
    header[0..4].copy_from_slice(&REQUEST_MAGIC);
    header[4] = VERSION;
    header[5] = 0xE1;
    header[6..8].copy_from_slice(&42u16.to_le_bytes());
    header[8..12].copy_from_slice(&2_000u32.to_le_bytes());
    header[12..16].copy_from_slice(&15360u32.to_le_bytes());

    let parsed = RequestHeader::decode(&header).unwrap();

    assert_eq!(parsed.token, 42);
    assert_eq!(parsed.expected_response_id, Some(0xE1));
    assert_eq!(parsed.timeout_ms, 2_000);
    assert_eq!(parsed.payload_len, 15360);
}

#[test]
fn response_frame_encodes_header_and_payload() {
    let payload = b"payload";
    let response = ResponseFrame { token: 7, status: Status::Success, payload, message: "" }.encode();

    assert_eq!(&response[0..4], &RESPONSE_MAGIC);
    assert_eq!(response[4], VERSION);
    assert_eq!(response[5], Status::Success.code());
    assert_eq!(u16::from_le_bytes([response[6], response[7]]), 7);
    assert_eq!(
        u32::from_le_bytes([response[8], response[9], response[10], response[11]]),
        payload.len() as u32
    );
    assert_eq!(u16::from_le_bytes([response[12], response[13]]), 0);
    assert_eq!(&response[HEADER_BYTES..], payload);
}

#[test]
fn request_header_reports_bad_magic_and_version() {
    let mut header = [0u8; HEADER_BYTES];
    header[0..4].copy_from_slice(&REQUEST_MAGIC);
    header[4] = 7;
    assert_eq!(RequestHeader::decode(&header).unwrap_err(), "unsupported binary rpc version: 7");
    header[4] = VERSION;
    header[5] = 0;
    assert_eq!(RequestHeader::decode(&header).unwrap().expected_response_id, None);
    header[1] = b'X';
    assert_eq!(RequestHeader::decode(&header).unwrap_err(), "invalid binary rpc magic");
}

#[test]
fn response_frame_carries_status_codes_and_message() {
    let frame = ResponseFrame { token: 0x0102, status: Status::Timeout, payload: &[], message: "late" };
    let bytes = frame.encode();
    assert_eq!(bytes, vec![b'O', b'C', b'R', b'S', 1, 4, 0x02, 0x01, 0, 0, 0, 0, 4, 0, 0, 0, b'l', b'a', b't', b'e']);
    assert_eq!(Status::ProtocolError.code(), 1);
    assert_eq!(Status::Unavailable.code(), 2);
    assert_eq!(Status::Busy.code(), 3);
    assert_eq!(Status::SendFailed.code(), 5);
}
