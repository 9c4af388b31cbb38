use oc_bridge::bridge::controller_rpc::ControllerRpcError;
use oc_bridge::control::{
    binary_status_from_controller_error, bounded_rpc_timeout, build_response, check_request_line, check_rpc_request,
    controller_rpc_error_message, plan_command, ControlAction, ControlInfo, SerialRunState, CONTROL_SCHEMA,
};
use oc_bridge::control_binary::Status;

fn info() -> ControlInfo {
    ControlInfo {
        pid: 42,
        version: "1.2.3".to_string(),
        config_path: "C:/config.toml".to_string(),
        instance_id: "bitwig-hw-17081760".to_string(),
        controller_serial: Some("17081760".to_string()),
        host_udp_port: 9000,
        log_broadcast_port: 9999,
        control_port: 7999,
        serial_supported: true,
    }
}

#[test]
fn test_control_info_status_includes_instance_identity() {
    let response = build_response("info", SerialRunState::Running, true, Some("COM3".to_string()), &info(), true, None);
    assert_eq!(response.instance_id, Some("bitwig-hw-17081760".to_string()));
    assert_eq!(response.controller_serial, Some("17081760".to_string()));
    assert_eq!(response.resolved_serial_port, Some("COM3".to_string()));
}

#[test]
fn plain_responses_leave_identity_out() {
    let response = build_response("ping", SerialRunState::Paused, false, Some("COM3".to_string()), &info(), true, None);
    assert_eq!(response.schema, Some(CONTROL_SCHEMA));
    assert!(response.paused);
    assert!(!response.serial_open);
    assert_eq!(response.pid, None);
    assert_eq!(response.resolved_serial_port, None);
}

#[test]
fn commands_are_planned_case_insensitively() {
    let plan = plan_command("PAUSE", true);
    assert_eq!(plan.cmd, "pause");
    assert_eq!(plan.action, ControlAction::Pause);
    assert!(plan.ok);
    let plan = plan_command("Resume", false);
    assert_eq!(plan.action, ControlAction::Report);
    assert!(!plan.ok);
    assert_eq!(plan.message.unwrap(), "resume not supported (controller transport is not Serial)");
    assert_eq!(plan_command("shutdown", false).action, ControlAction::Shutdown);
    assert!(plan_command("Info", false).ok);
    let plan = plan_command("Reboot", true);
    assert!(!plan.ok);
    assert_eq!(plan.message.unwrap(), "unknown cmd: reboot");
}

#[test]
fn request_lines_are_trimmed_and_bounded() {
    assert_eq!(check_request_line("  {\"cmd\":\"ping\"}\r\n").unwrap(), "{\"cmd\":\"ping\"}");
    assert_eq!(check_request_line(" \n").unwrap_err(), "empty request");
    assert_eq!(check_request_line(&"x".repeat(128 * 1024 + 1)).unwrap_err(), "control request too large");
}

#[test]
fn rpc_requests_need_open_serial_and_payload() {
    let (s, m) = check_rpc_request(false, true, &[1]).unwrap_err();
    assert_eq!(s, Status::Unavailable);
    assert_eq!(m, "controller rpc not supported (controller transport is not Serial)");
    let (s, m) = check_rpc_request(true, false, &[1]).unwrap_err();
    assert_eq!(s, Status::Unavailable);
    assert_eq!(m, "controller rpc unavailable (serial is not open)");
    let (s, m) = check_rpc_request(true, true, &[]).unwrap_err();
    assert_eq!(s, Status::ProtocolError);
    assert_eq!(m, "controller rpc payload is empty");
    assert!(check_rpc_request(true, true, &[1]).is_ok());
}

#[test]
fn rpc_timeouts_are_clamped() {
    assert_eq!(bounded_rpc_timeout(None), 1_000);
    assert_eq!(bounded_rpc_timeout(Some(1)), 50);
    assert_eq!(bounded_rpc_timeout(Some(60_000)), 5_000);
    assert_eq!(bounded_rpc_timeout(Some(2_000)), 2_000);
}

#[test]
fn rpc_errors_map_to_status_and_text() {
    assert_eq!(binary_status_from_controller_error(ControllerRpcError::Busy), Status::Busy);
    assert_eq!(binary_status_from_controller_error(ControllerRpcError::Disconnected), Status::Unavailable);
    assert_eq!(binary_status_from_controller_error(ControllerRpcError::Timeout), Status::Timeout);
    assert_eq!(binary_status_from_controller_error(ControllerRpcError::SendFailed), Status::SendFailed);
    assert_eq!(controller_rpc_error_message(ControllerRpcError::SendFailed), "controller rpc send failed");
    assert!(SerialRunState::Paused.is_paused());
    assert!(!SerialRunState::Running.is_paused());
}
