use usb_guard::control::select_device_instance;
use usb_guard::device::{classify_devices, should_query_string_descriptor, DeviceRecord};
use usb_guard::identity::DeviceIdentity;
use usb_guard::matching::str_contains;
use usb_guard::registry::TrustRegistry;

fn record(vendor_id: u16, product_id: u16, manufacturer: Option<&str>) -> DeviceRecord {
    DeviceRecord {
        vendor_id,
        product_id,
        manufacturer: manufacturer.map(|s| s.to_string()),
        product: None,
        serial_number: None,
    }
}

#[test]
fn classification_matches_registry_membership() {
    let mut reg = TrustRegistry::new();
    reg.add(DeviceIdentity::new(0x046D, 0x0001));
    let records = vec![
        record(0x046D, 0x0001, Some("Logitech")),
        record(0x5678, 0xBBBB, None),
    ];
    let infos = classify_devices(records, &reg);
    assert_eq!(infos.len(), 2);
    for info in &infos {
        let member = reg.contains(DeviceIdentity::new(info.vendor_id, info.product_id));
        assert_eq!(info.trusted, member);
        assert!(info.connected);
        assert!(info.port_number.is_none());
    }
    assert!(infos[0].trusted);
    assert_eq!(infos[0].manufacturer.as_deref(), Some("Logitech"));
    assert!(!infos[1].trusted);
    assert!(infos[1].manufacturer.is_none());
}

#[test]
fn string_descriptor_index_zero_means_absent() {
    assert!(!should_query_string_descriptor(None));
    assert!(!should_query_string_descriptor(Some(0)));
    assert!(should_query_string_descriptor(Some(3)));
}

#[test]
fn substring_matching_is_loose() {
    assert!(str_contains(
        "USB\\VID_046D&PID_0001\\6&2C54D2F&0&2",
        "USB\\VID_046D&PID_0001"
    ));
    assert!(!str_contains("USB\\VID_046D&PID_0002\\6", "USB\\VID_046D&PID_0001"));
    assert!(str_contains("anything", ""));
    assert!(!str_contains("short", "much longer needle"));
    assert!(str_contains("abcabc", "cab"));
}

#[test]
fn first_matching_instance_wins() {
    let ids = vec![
        "USB\\VID_1111&PID_2222\\A".to_string(),
        "USB\\VID_046D&PID_0001\\FIRST".to_string(),
        "USB\\VID_046D&PID_0001\\SECOND".to_string(),
    ];
    assert_eq!(select_device_instance(&ids, "USB\\VID_046D&PID_0001"), Some(1));
}

#[test]
fn no_matching_instance_is_none() {
    let ids = vec!["USB\\VID_1111&PID_2222\\A".to_string()];
    assert_eq!(select_device_instance(&ids, "USB\\VID_046D&PID_0001"), None);
}
