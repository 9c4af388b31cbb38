use oc_bridge::config::HostPlatform;
use oc_bridge::error::BridgeError;
use oc_bridge::service::windows::{build_service_sddl, dacl};
use oc_bridge::service::{resolve_service_exec, resolve_service_name, validate_service_name, PathFacts};

#[test]
fn validate_service_name_rejects_empty() {
    assert!(validate_service_name("", HostPlatform::Linux).is_err());
}

#[test]
fn validate_service_name_rejects_spaces() {
    assert!(validate_service_name("open control", HostPlatform::Linux).is_err());
}

#[test]
fn validate_service_name_accepts_common_names() {
    assert!(validate_service_name("open-control-bridge", HostPlatform::Linux).is_ok());
    assert!(validate_service_name("OpenControlBridge", HostPlatform::Linux).is_ok());
    assert!(validate_service_name("oc_bridge.1", HostPlatform::Linux).is_ok());
}

#[test]
fn validate_service_name_rejects_service_suffix() {
    assert!(validate_service_name("open-control-bridge.service", HostPlatform::Linux).is_err());
}

#[test]
fn service_name_errors_carry_reasons() {
    let reason = |r: Result<(), BridgeError>| match r {
        Err(BridgeError::ConfigValidation { field, reason }) => {
            assert_eq!(field, "service-name");
            reason
        }
        _ => panic!("expected a validation error"),
    };
    assert_eq!(reason(validate_service_name("", HostPlatform::Windows)), "must not be empty");
    assert_eq!(reason(validate_service_name(&"a".repeat(129), HostPlatform::Windows)), "too long");
    assert!(validate_service_name(&"a".repeat(128), HostPlatform::Windows).is_ok());
    assert!(validate_service_name("x.service", HostPlatform::Windows).is_ok());
    assert_eq!(
        reason(validate_service_name("x.service", HostPlatform::Linux)),
        "do not include the '.service' suffix"
    );
    assert_eq!(
        reason(validate_service_name("é", HostPlatform::Linux)),
        "invalid characters (allowed: A-Z a-z 0-9 - _ .)"
    );
}

#[test]
fn resolve_service_name_uses_platform_default() {
    assert_eq!(resolve_service_name(None, HostPlatform::Windows).unwrap(), "OpenControlBridge");
    assert_eq!(resolve_service_name(None, HostPlatform::Linux).unwrap(), "open-control-bridge");
    assert_eq!(resolve_service_name(Some("mine"), HostPlatform::Linux).unwrap(), "mine");
    assert!(resolve_service_name(Some("bad name"), HostPlatform::Linux).is_err());
}

#[test]
fn test_sddl_builder_produces_valid_sddl() {
    let sddl = build_service_sddl();
    assert!(sddl.starts_with("D:"), "SDDL must start with 'D:'");
    let ace_count = sddl.matches("(A;;").count();
    assert_eq!(ace_count, 4, "Expected 4 ACEs (SYSTEM, Admins, Interactive, Service)");
    assert!(sddl.contains(";;;SY)"), "Missing SYSTEM trustee");
    assert!(sddl.contains(";;;BA)"), "Missing Administrators trustee");
    assert!(sddl.contains(";;;IU)"), "Missing Interactive Users trustee");
    assert!(sddl.contains(";;;SU)"), "Missing Service Users trustee");
    let iu_section = sddl.split(";;;IU)").next().expect("IU section must exist");
    assert!(iu_section.contains("RP"), "Interactive users must have START (RP) right");
    assert!(iu_section.contains("WP"), "Interactive users must have STOP (WP) right");
}

#[test]
fn test_sddl_allow_ace_format() {
    let ace = oc_bridge::service::windows::allow(&["CC", "LC", "RP"], "SY");
    assert_eq!(ace, "(A;;CCLCRP;;;SY)");
}

#[test]
fn test_sddl_dacl_format() {
    let aces = vec!["(A;;CC;;;SY)".to_string(), "(A;;LC;;;BA)".to_string()];
    let dacl = dacl(&aces);
    assert_eq!(dacl, "D:(A;;CC;;;SY)(A;;LC;;;BA)");
}

#[test]
fn sddl_has_exact_text() {
    assert_eq!(
        build_service_sddl(),
        "D:(A;;CCLCSWRPWPDTLOCRRC;;;SY)(A;;CCSDLCSWRPWPDTLOCRRCWDWO;;;BA)(A;;CCLCSWRPWPLORC;;;IU)(A;;CCLCSWRPWPLORC;;;SU)"
    );
}

#[test]
fn resolve_service_exec_validates_path() {
    let file = PathFacts { is_absolute: true, exists: true, is_file: true };
    let relative = PathFacts { is_absolute: false, exists: true, is_file: true };
    let missing = PathFacts { is_absolute: true, exists: false, is_file: false };
    let directory = PathFacts { is_absolute: true, exists: true, is_file: false };

    assert!(resolve_service_exec(Some("relative.exe"), relative).is_err());
    assert!(resolve_service_exec(Some("/tmp/oc/missing.exe"), missing).is_err());
    assert!(resolve_service_exec(Some("/tmp/oc"), directory).is_err());
    assert_eq!(
        resolve_service_exec(Some("/tmp/oc/oc-bridge.exe"), file).unwrap(),
        Some("/tmp/oc/oc-bridge.exe".to_string())
    );
    assert_eq!(resolve_service_exec(None, relative).unwrap(), None);
}

#[test]
fn resolve_service_exec_reasons() {
    let reason = |r: Result<Option<String>, BridgeError>| match r {
        Err(BridgeError::ConfigValidation { field, reason }) => (field, reason),
        other => panic!("unexpected {:?}", other),
    };
    assert_eq!(
        reason(resolve_service_exec(Some("a"), PathFacts { is_absolute: false, exists: false, is_file: false })),
        ("service-exec", "must be an absolute path".to_string())
    );
    assert_eq!(
        reason(resolve_service_exec(Some("/a"), PathFacts { is_absolute: true, exists: false, is_file: false })),
        ("service-exec", "path does not exist".to_string())
    );
    assert_eq!(
        reason(resolve_service_exec(Some("/a"), PathFacts { is_absolute: true, exists: true, is_file: false })),
        ("service-exec", "must point to a file".to_string())
    );
}
