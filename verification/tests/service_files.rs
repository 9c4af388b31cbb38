use oc_bridge::config::{DeviceConfig, PlatformNameHint};
use oc_bridge::service::linux::{
    desired_udev_rules, desktop_entry, desktop_file_path, escape_rules, in_dialout_group, needs_udev_update,
    serial_access_script, service_file_path, service_unit, udev_rules_path,
};
use oc_bridge::service::windows::{elevated_install_args, service_command_line};

fn device(rules: Option<&str>, filename: Option<&str>) -> DeviceConfig {
    DeviceConfig {
        name: "Teensy".to_string(),
        vid: 0x16C0,
        pid_list: vec![0x0489],
        name_hint: PlatformNameHint::default(),
        udev_rules: rules.map(|r| r.to_string()),
        udev_rules_filename: filename.map(|f| f.to_string()),
    }
}

#[test]
fn unit_file_runs_daemon_with_ports() {
    let unit = service_unit("/usr/bin/oc-bridge", Some("/dev/ttyACM0"), 9000);
    assert!(unit.starts_with("[Unit]\nDescription=Open Control Bridge\n"));
    assert!(unit.contains("ExecStart=/usr/bin/oc-bridge --daemon --port /dev/ttyACM0 --udp-port 9000\n"));
    assert!(unit.ends_with("[Install]\nWantedBy=default.target\n"));
    let unit = service_unit("/usr/bin/oc-bridge", None, 9001);
    assert!(unit.contains("ExecStart=/usr/bin/oc-bridge --daemon  --udp-port 9001\n"));
}

#[test]
fn desktop_entry_launches_in_terminal() {
    let entry = desktop_entry("/opt/oc/oc-bridge");
    assert!(entry.starts_with("[Desktop Entry]\nName=OC Bridge\n"));
    assert!(entry.contains("\nExec=/opt/oc/oc-bridge\n"));
    assert!(entry.contains("\nTerminal=true\n"));
}

#[test]
fn service_and_desktop_paths_under_home() {
    assert_eq!(service_file_path("/home/u"), "/home/u/.config/systemd/user/open-control-bridge.service");
    assert_eq!(desktop_file_path("/home/u"), "/home/u/.local/share/applications/open-control-bridge.desktop");
}

#[test]
fn udev_rules_from_vendor_id_or_preset() {
    let generated = desired_udev_rules(&device(None, None));
    assert_eq!(
        generated,
        "# OC Bridge - Teensy\nSUBSYSTEM==\"usb\", ATTR{idVendor}==\"16c0\", MODE=\"0666\"\nSUBSYSTEM==\"tty\", ATTRS{idVendor}==\"16c0\", MODE=\"0666\""
    );
    let custom = desired_udev_rules(&device(Some("  RULE A\nRULE B \n"), None));
    assert_eq!(custom, "RULE A\nRULE B");
    assert_eq!(udev_rules_path(None), "/etc/udev/rules.d/49-oc-bridge.rules");
    assert_eq!(udev_rules_path(Some(&device(None, Some("00-teensy.rules")))), "/etc/udev/rules.d/00-teensy.rules");
    assert_eq!(udev_rules_path(Some(&device(None, None))), "/etc/udev/rules.d/49-oc-bridge.rules");
}

#[test]
fn udev_update_only_when_content_differs() {
    assert!(needs_udev_update("A\nB", None));
    assert!(!needs_udev_update("A\nB", Some("A\nB\n\n")));
    assert!(needs_udev_update("A\nB", Some("A\nC\n")));
}

#[test]
fn dialout_membership_and_access_script() {
    assert!(in_dialout_group("user adm dialout sudo"));
    assert!(!in_dialout_group("user adm sudo"));
    assert_eq!(escape_rules("it's\nnext"), "it'\\''s' 'next");
    assert_eq!(serial_access_script("bob", true, None), "usermod -aG dialout bob ; ");
    assert_eq!(
        serial_access_script("bob", false, Some(("R1\nR2", "/etc/udev/rules.d/x.rules"))),
        "printf '%s\\n' 'R1' 'R2' > '/etc/udev/rules.d/x.rules' && udevadm control --reload-rules && udevadm trigger"
    );
}

#[test]
fn windows_install_arguments() {
    assert_eq!(elevated_install_args(Some("COM3"), 9000), "install-service --port COM3 --udp-port 9000");
    assert_eq!(elevated_install_args(None, 9000), "install-service --udp-port 9000");
    assert_eq!(
        service_command_line("C:\\oc\\oc-bridge.exe", Some("COM3"), 9000),
        "\"C:\\oc\\oc-bridge.exe\" service --port COM3 --udp-port 9000"
    );
    assert_eq!(service_command_line("C:\\oc.exe", None, 9001), "\"C:\\oc.exe\" service --udp-port 9001");
}
