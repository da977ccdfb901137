use gvm_led::scanner::{find_service_index, is_target_device_name, DeviceRegistry, SERVICE_UUID};

#[test]
fn target_name_matches_exactly() {
    assert!(is_target_device_name(&String::from("BT_LED")));
    assert!(!is_target_device_name(&String::from("BT_LED ")));
    assert!(!is_target_device_name(&String::from("bt_led")));
    assert!(!is_target_device_name(&String::from("")));
    assert!(!is_target_device_name(&String::from("Speaker")));
}

#[test]
fn service_uuid_value_matches_big_endian_bytes() {
    assert_eq!(SERVICE_UUID, u128::from_be_bytes([
        0x00, 0x01, 0x02, 0x03, 0x04, 0x05, 0x06, 0x07, 0x08, 0x09, 0x0a, 0x0b, 0x0c, 0x0d, 0x19,
        0x10,
    ]));
}

#[test]
fn first_matching_service_is_selected() {
    let uuids = vec![0x1234u128, SERVICE_UUID, SERVICE_UUID];
    assert_eq!(find_service_index(&uuids), Some(1));
}

#[test]
fn missing_service_yields_none() {
    let uuids = vec![0x1234u128, 0x5678u128];
    assert_eq!(find_service_index(&uuids), None);
    assert_eq!(find_service_index(&Vec::new()), None);
}

#[test]
fn same_transport_id_is_fresh_only_once() {
    let mut registry = DeviceRegistry::new();
    let id = String::from("hci0/dev_aa_bb_cc_dd_ee_ff");
    assert!(registry.mark_seen(&id));
    assert!(!registry.mark_seen(&id));
    assert!(!registry.mark_seen(&id));
}

#[test]
fn distinct_transport_ids_are_each_fresh() {
    let mut registry = DeviceRegistry::new();
    let first = String::from("device-1");
    let second = String::from("device-2");
    assert!(registry.mark_seen(&first));
    assert!(registry.mark_seen(&second));
    assert!(!registry.mark_seen(&first));
    assert!(!registry.mark_seen(&second));
}
