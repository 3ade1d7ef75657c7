use tap_windows::error::TapError;
use tap_windows::ident::AdapterIdentifier;
use tap_windows::scan::{check_interface, delete_interface, find_interface, interface_exists,
    DeviceRecord};

fn record(hardware_id: &str, if_type: u32, index: u32) -> DeviceRecord {
    DeviceRecord {
        hardware_id: Some(String::from(hardware_id)),
        if_type: Some(if_type),
        net_luid_index: Some(index),
    }
}

#[test]
fn matching_device_is_found() {
    let records = vec![
        record("othervendor0001", 6, 7),
        record("tap0901", 6, 42),
    ];
    let ident = AdapterIdentifier::combine(6, 42);
    assert_eq!(find_interface(&records, "tap0901", &ident), Ok(1));
    assert!(check_interface(&records, "tap0901", &ident).is_ok());
    assert!(interface_exists(&records, "tap0901", &ident));
}

#[test]
fn unresolved_identifier_is_not_found() {
    // the name resolved to an identifier that no present device of the
    // component carries
    let records = vec![record("tap0901", 6, 7)];
    let ident = AdapterIdentifier::combine(6, 42);
    assert_eq!(check_interface(&records, "tap0901", &ident), Err(TapError::NotFound));
    assert!(!interface_exists(&records, "tap0901", &ident));
}

#[test]
fn foreign_hardware_id_is_not_found() {
    // an adapter by the wanted name exists, but its hardware id belongs to
    // another vendor
    let ident = AdapterIdentifier::combine(6, 42);
    let records = vec![record("othervendor0001", 6, 42)];
    assert_eq!(check_interface(&records, "tap0901", &ident), Err(TapError::NotFound));
}

#[test]
fn hardware_id_match_ignores_ascii_case() {
    let ident = AdapterIdentifier::combine(6, 42);
    let records = vec![record("TAP0901", 6, 42)];
    assert_eq!(check_interface(&records, "tap0901", &ident), Ok(()));
}

#[test]
fn devices_with_missing_values_are_skipped() {
    let ident = AdapterIdentifier::combine(6, 42);
    let records = vec![
        DeviceRecord { hardware_id: None, if_type: Some(6), net_luid_index: Some(42) },
        DeviceRecord {
            hardware_id: Some(String::from("tap0901")),
            if_type: None,
            net_luid_index: Some(42),
        },
        DeviceRecord {
            hardware_id: Some(String::from("tap0901")),
            if_type: Some(6),
            net_luid_index: None,
        },
    ];
    assert_eq!(check_interface(&records, "tap0901", &ident), Err(TapError::NotFound));
}

#[test]
fn empty_enumeration_is_not_found() {
    let ident = AdapterIdentifier::combine(6, 42);
    let records: Vec<DeviceRecord> = Vec::new();
    assert_eq!(delete_interface(&records, "tap0901", &ident), Err(TapError::NotFound));
}

#[test]
fn delete_then_exists_reports_absent() {
    let ident = AdapterIdentifier::combine(6, 42);
    let mut records = vec![
        record("othervendor0001", 6, 42),
        record("tap0901", 6, 42),
        record("tap0901", 6, 43),
    ];
    let deleted = delete_interface(&records, "tap0901", &ident).unwrap();
    assert_eq!(deleted, 1);
    // the removal step ran on that device; it no longer enumerates
    records.remove(deleted);
    assert!(!interface_exists(&records, "tap0901", &ident));
    assert_eq!(delete_interface(&records, "tap0901", &ident), Err(TapError::NotFound));
}
