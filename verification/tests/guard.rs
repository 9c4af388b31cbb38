use bytes::Bytes;
use oc_bridge::bridge::guard::{GuardAction, RelayGuard};

fn forwarded(a: GuardAction) -> Option<Bytes> {
    match a {
        GuardAction::Forward(b) => Some(b),
        GuardAction::DropDuplicate => None,
    }
}

#[test]
fn repeats_within_the_window_are_dropped_per_direction() {
    let mut guard = RelayGuard::new(true, 100);
    let p = Bytes::from_static(&[1, 2, 3]);
    assert_eq!(forwarded(guard.on_controller_message(p.clone(), 1_000)), Some(p.clone()));
    assert_eq!(forwarded(guard.on_controller_message(p.clone(), 1_050)), None);
    assert_eq!(forwarded(guard.on_host_message(p.clone(), 1_050)), Some(p.clone()));
    assert_eq!(forwarded(guard.on_controller_message(p.clone(), 1_100)), Some(p.clone()));
    let q = Bytes::from_static(&[9]);
    assert_eq!(forwarded(guard.on_controller_message(q.clone(), 1_101)), Some(q));
    assert_eq!(forwarded(guard.on_controller_message(p.clone(), 1_102)), Some(p));
}

#[test]
fn disabled_guard_forwards_everything() {
    let mut guard = RelayGuard::new(false, 100);
    let p = Bytes::from_static(&[7]);
    assert!(forwarded(guard.on_host_message(p.clone(), 5)).is_some());
    assert!(forwarded(guard.on_host_message(p, 5)).is_some());
}
