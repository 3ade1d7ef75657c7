use tap_windows::error::TapError;
use tap_windows::ioctl::{ctl_code, media_status_value, TAP_IOCTL_GET_MAC, TAP_IOCTL_GET_MTU,
    TAP_IOCTL_GET_VERSION, TAP_IOCTL_SET_MEDIA_STATUS};
use tap_windows::netsh::{set_interface_ip, set_interface_name};
use tap_windows::path::device_path;
use tap_windows::HARDWARE_ID;

#[test]
fn hardware_id_names_the_driver_family() {
    assert_eq!(HARDWARE_ID, "tap0901");
}

#[test]
fn control_codes_have_the_documented_values() {
    assert_eq!(ctl_code(0x22, 1, 0, 0), 0x0022_0004);
    assert_eq!(TAP_IOCTL_GET_MAC, 0x0022_0004);
    assert_eq!(TAP_IOCTL_GET_VERSION, 0x0022_0008);
    assert_eq!(TAP_IOCTL_GET_MTU, 0x0022_000C);
    assert_eq!(TAP_IOCTL_SET_MEDIA_STATUS, 0x0022_0018);
}

#[test]
fn control_code_packs_all_four_fields() {
    assert_eq!(ctl_code(0x22, 10, 0, 1), (0x22 << 16) | (1 << 14) | (10 << 2));
    assert_eq!(ctl_code(0, 0, 3, 0), 3);
}

#[test]
fn media_status_payload() {
    assert_eq!(media_status_value(true), 1);
    assert_eq!(media_status_value(false), 0);
}

#[test]
fn rename_arguments_are_exact() {
    let args = set_interface_name("Ethernet 2", "MyIf");
    assert_eq!(
        args,
        vec!["int", "set", "int", "name=", "Ethernet 2", "newname=", "MyIf"]
    );
}

#[test]
fn address_arguments_are_exact() {
    let args = set_interface_ip("MyIf", "192.168.60.1", "255.255.255.0");
    assert_eq!(
        args,
        vec![
            "int",
            "ipv4",
            "set",
            "address",
            "name=",
            "MyIf",
            "source=static",
            "address=",
            "192.168.60.1",
            "mask=",
            "255.255.255.0",
        ]
    );
}

#[test]
fn device_path_is_derived_from_the_guid() {
    let p = device_path("{11112222-3333-4444-5555-666677778888}");
    assert_eq!(p, "\\\\.\\Global\\{11112222-3333-4444-5555-666677778888}.tap");
}

#[test]
fn error_kinds_are_distinguished() {
    assert_ne!(TapError::NotFound, TapError::TimedOut);
    assert_ne!(TapError::OsError(1), TapError::OsError(2));
    assert_eq!(TapError::OsError(31).os_code(), Some(31));
    assert_eq!(TapError::NotFound.os_code(), None);
    assert_eq!(TapError::TimedOut.describe(), "operation timed out");
    assert_eq!(TapError::SubprocessError.describe(), "configuration utility failed");
}
