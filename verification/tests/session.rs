use oc_bridge::bridge::session::{ControllerCodec, RelayAction, SessionRelay};
use oc_bridge::codec::{CobsDebugCodec, RawCodec};
use oc_bridge::logging::{Direction, LogKind, LogLevel};

#[test]
fn controller_messages_go_to_host_and_are_logged() {
    let mut relay = SessionRelay::new(ControllerCodec::CobsDebug(CobsDebugCodec::new(4096)));
    let mut data = b"[5ms] INFO: up\n".to_vec();
    data.extend_from_slice(&[0x07, 0x49, 0x01, 0x02, b'O', b'k', 0x09, 0x00]);
    let actions = relay.relay_controller_to_host(&data);
    assert_eq!(actions.len(), 2);
    match &actions[0] {
        RelayAction::Log(entry) => match &entry.kind {
            LogKind::Debug { level, message } => {
                assert_eq!(*level, Some(LogLevel::Info));
                assert_eq!(message, "up");
            }
            _ => panic!("expected a debug log"),
        },
        _ => panic!("expected a log action"),
    }
    match &actions[1] {
        RelayAction::ToHost { payload, log } => {
            assert_eq!(payload.as_ref(), &[0x49, 0x01, 0x02, b'O', b'k', 0x09]);
            match &log.kind {
                LogKind::Protocol { direction, message_name, size } => {
                    assert_eq!(*direction, Direction::In);
                    assert_eq!(message_name, "Ok");
                    assert_eq!(*size, 6);
                }
                _ => panic!("expected a protocol log"),
            }
        }
        _ => panic!("expected a host action"),
    }
}

#[test]
fn host_messages_are_encoded_for_the_controller() {
    let relay = SessionRelay::new(ControllerCodec::CobsDebug(CobsDebugCodec::new(4096)));
    let (encoded, log) = relay.relay_host_to_controller(&[0x11, 0x00, 0x22]);
    assert_eq!(encoded, vec![0x02, 0x11, 0x02, 0x22, 0x00]);
    match &log.kind {
        LogKind::Protocol { direction, message_name, size } => {
            assert_eq!(*direction, Direction::Out);
            assert_eq!(message_name, "unknown");
            assert_eq!(*size, 3);
        }
        _ => panic!("expected a protocol log"),
    }
    let raw = SessionRelay::new(ControllerCodec::Raw(RawCodec::new()));
    let (encoded, _) = raw.relay_host_to_controller(&[1, 2]);
    assert_eq!(encoded, vec![1, 2]);
}

#[test]
fn echoed_host_message_comes_back_unchanged() {
    let payload = vec![0x49, 0x01, 0x02, b'O', b'k', 0x00, 0x05, 0x00, 0x07];
    let sender = SessionRelay::new(ControllerCodec::CobsDebug(CobsDebugCodec::new(4096)));
    let (wire, _) = sender.relay_host_to_controller(&payload);
    let mut receiver = SessionRelay::new(ControllerCodec::CobsDebug(CobsDebugCodec::new(4096)));
    let actions = receiver.relay_controller_to_host(&wire);
    assert_eq!(actions.len(), 1);
    match &actions[0] {
        RelayAction::ToHost { payload: p, .. } => assert_eq!(p.as_ref(), payload.as_slice()),
        _ => panic!("expected a host action"),
    }

    let raw = SessionRelay::new(ControllerCodec::Raw(RawCodec::new()));
    let (wire, _) = raw.relay_host_to_controller(&payload);
    let mut raw_back = SessionRelay::new(ControllerCodec::Raw(RawCodec::new()));
    let actions = raw_back.relay_controller_to_host(&wire);
    assert_eq!(actions.len(), 1);
    match &actions[0] {
        RelayAction::ToHost { payload: p, .. } => assert_eq!(p.as_ref(), payload.as_slice()),
        _ => panic!("expected a host action"),
    }
}

#[test]
fn newline_inside_an_encoded_frame_splits_it() {
    // The encoding of [0x0A] holds a newline byte, so the echo law does not
    // cover it: the codec ends a text line there.
    let payload = vec![0x0A];
    let sender = SessionRelay::new(ControllerCodec::CobsDebug(CobsDebugCodec::new(4096)));
    let (wire, _) = sender.relay_host_to_controller(&payload);
    assert_eq!(wire, vec![0x02, 0x0A, 0x00]);
    let mut receiver = SessionRelay::new(ControllerCodec::CobsDebug(CobsDebugCodec::new(4096)));
    let actions = receiver.relay_controller_to_host(&wire);
    assert!(actions.iter().all(|a| !matches!(a, RelayAction::ToHost { .. })));
}

#[test]
fn frame_split_across_reads_is_kept_for_the_next_read() {
    let sender = SessionRelay::new(ControllerCodec::CobsDebug(CobsDebugCodec::new(4096)));
    let payload = vec![0x49, 0x01, 0x02, b'O', b'k', 0x00, 0x05];
    let (wire, _) = sender.relay_host_to_controller(&payload);
    let mut receiver = SessionRelay::new(ControllerCodec::CobsDebug(CobsDebugCodec::new(4096)));
    let first = receiver.relay_controller_to_host(&wire[..3]);
    assert!(first.is_empty());
    let second = receiver.relay_controller_to_host(&wire[3..]);
    assert_eq!(second.len(), 1);
    match &second[0] {
        RelayAction::ToHost { payload: p, log } => {
            assert_eq!(p.as_ref(), payload.as_slice());
            match &log.kind {
                LogKind::Protocol { message_name, .. } => assert_eq!(message_name, "Ok"),
                _ => panic!("expected a protocol log"),
            }
        }
        _ => panic!("expected a host action"),
    }
}
