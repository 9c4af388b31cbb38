use oc_bridge::bridge::controller_rpc::protocol_frame_request_id;
use oc_bridge::bridge::protocol::parse_message_name;

#[test]
fn test_parse_message_name_valid() {
    let mut payload = vec![0x49, 0x01, 13];
    payload.extend_from_slice(b"TransportPlay");
    payload.push(0x01);
    assert_eq!(parse_message_name(&payload), Some("TransportPlay".to_string()));
}

#[test]
fn test_parse_message_name_empty() {
    assert_eq!(parse_message_name(&[]), None);
}

#[test]
fn test_parse_message_name_too_short() {
    let payload = vec![0x49, 0x01];
    assert_eq!(parse_message_name(&payload), None);
}

#[test]
fn test_parse_message_name_name_too_short() {
    let payload = vec![0x49, 0x01, 10, b'H', b'e', b'l', b'l', b'o'];
    assert_eq!(parse_message_name(&payload), None);
}

#[test]
fn test_parse_message_name_exact_length() {
    let mut payload = vec![0x01, 0x00, 5];
    payload.extend_from_slice(b"Hello");
    assert_eq!(parse_message_name(&payload), Some("Hello".to_string()));
}

#[test]
fn test_parse_message_name_invalid_utf8() {
    let payload = vec![0x01, 0x00, 3, 0xFF, 0xFE, 0xFD];
    assert_eq!(parse_message_name(&payload), None);
}

#[test]
fn parse_message_name_accepts_empty_name_and_multibyte_utf8() {
    assert_eq!(parse_message_name(&[0x01, 0x00, 0]), Some(String::new()));
    let mut payload = vec![0x01, 0x00, 2];
    payload.extend_from_slice("é".as_bytes());
    assert_eq!(parse_message_name(&payload), Some("é".to_string()));
}

#[test]
fn protocol_frame_request_id_reads_named_frame_layout() {
    assert_eq!(
        protocol_frame_request_id(&[0xE8, 0x02, b'f', b's', 0x01, 0x34, 0x12]),
        Some(0x1234)
    );
}

#[test]
fn protocol_frame_request_id_reads_empty_name_layout() {
    assert_eq!(protocol_frame_request_id(&[0xE8, 0x00, 0x01, 0x78, 0x56]), Some(0x5678));
}

#[test]
fn protocol_frame_request_id_rejects_truncated_frames() {
    assert_eq!(protocol_frame_request_id(&[]), None);
    assert_eq!(protocol_frame_request_id(&[0xE8, 0x02, b'f']), None);
    assert_eq!(protocol_frame_request_id(&[0xE8, 0x02, b'f', b's', 0x01, 0x34]), None);
}
