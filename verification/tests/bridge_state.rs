use oc_bridge::bridge_state::{
    plan_poll, poll_step_message, BridgePhase, BridgeState, PollStep, ServiceStatusCache,
    SERVICE_STATUS_POLL_INTERVAL,
};

#[test]
fn test_service_status_new_and_getters() {
    let status = ServiceStatusCache::new(false, false);
    assert!(!status.is_installed());
    assert!(!status.is_running());
    let status = ServiceStatusCache::new(true, false);
    assert!(status.is_installed());
    assert!(!status.is_running());
}

#[test]
fn test_service_status_poll_and_refresh() {
    let mut status = ServiceStatusCache::new(false, false);
    let mut refreshes = 0;
    for _ in 0..SERVICE_STATUS_POLL_INTERVAL + 10 {
        if status.poll() {
            refreshes += 1;
            status.refresh(true, true);
        }
    }
    assert_eq!(refreshes, 1);
    status.refresh(false, true);
    assert!(!status.is_installed());
    assert!(status.is_running());
}

#[test]
fn test_bridge_state_enum_variants() {
    assert_ne!(BridgeState::Stopped, BridgeState::Running);
    assert_ne!(BridgeState::Stopped, BridgeState::Starting);
    assert_ne!(BridgeState::Stopped, BridgeState::Stopping);
    assert_ne!(BridgeState::Stopped, BridgeState::Error);
}

#[test]
fn service_status_refresh_is_due_every_interval() {
    let mut status = ServiceStatusCache::new(false, false);
    for _ in 0..SERVICE_STATUS_POLL_INTERVAL - 1 {
        assert!(!status.poll());
    }
    assert!(status.poll());
    assert!(!status.poll());
}

#[test]
fn poll_follows_the_service_and_the_local_bridge() {
    assert_eq!(
        plan_poll(BridgePhase::Stopped, BridgeState::Stopped, true, true),
        (PollStep::StartMonitoring, BridgePhase::Monitoring)
    );
    assert_eq!(
        plan_poll(BridgePhase::Stopped, BridgeState::Stopped, false, false),
        (PollStep::DetectSerial, BridgePhase::Stopped)
    );
    assert_eq!(
        plan_poll(BridgePhase::Monitoring, BridgeState::Running, false, true),
        (PollStep::ServiceStopped, BridgePhase::Stopped)
    );
    assert_eq!(
        plan_poll(BridgePhase::Running, BridgeState::Error, false, true),
        (PollStep::LocalBridgeEnded, BridgePhase::Stopped)
    );
    assert_eq!(
        plan_poll(BridgePhase::Running, BridgeState::Running, true, true),
        (PollStep::Stay, BridgePhase::Running)
    );
    assert_eq!(poll_step_message(PollStep::ServiceStopped), Some("Service stopped"));
    assert_eq!(poll_step_message(PollStep::Stay), None);
}
