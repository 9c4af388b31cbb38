use oc_bridge::error::BridgeError;

#[test]
fn error_messages() {
    assert_eq!(
        BridgeError::ConfigValidation { field: "service-name", reason: "too long".to_string() }.message(),
        "Invalid service-name: too long"
    );
    assert_eq!(BridgeError::NoDeviceFound.message(), "No device found");
    assert_eq!(BridgeError::MultipleDevicesFound { count: 3 }.message(), "Multiple devices found (3)");
    assert_eq!(
        BridgeError::PlatformNotSupported { feature: "service" }.message(),
        "service not supported on this platform"
    );
    assert_eq!(
        BridgeError::ControlProtocol { message: "empty request".to_string() }.message(),
        "Control protocol error: empty request"
    );
}
