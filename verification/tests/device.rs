use bluetooth_engine::address::{Address, AddressType};
use bluetooth_engine::device::{decode_class, Device, DeviceInfo, DeviceProperty};

fn headset_properties() -> Vec<DeviceProperty> {
    vec![
        DeviceProperty::Name("WH-1000".to_string()),
        DeviceProperty::Alias("My headset".to_string()),
        DeviceProperty::AddressType(AddressType::LePublic),
        DeviceProperty::Class(0x240404),
        DeviceProperty::Uuids(vec![0x0000110B_0000_1000_8000_00805F9B34FB]),
        DeviceProperty::Paired(true),
        DeviceProperty::Connected(true),
        DeviceProperty::Trusted(true),
        DeviceProperty::Blocked(false),
        DeviceProperty::WakeAllowed(true),
        DeviceProperty::LegacyPairing(false),
        DeviceProperty::BatteryPercentage(80),
    ]
}

#[test]
fn default_snapshot_is_empty() {
    let info = DeviceInfo::default();
    assert_eq!(info.discovered_adapter_name, "");
    assert_eq!(info.name, "");
    assert_eq!(info.alias, "");
    assert_eq!(info.address, [0u8; 6]);
    assert_eq!(info.address_string, "");
    assert_eq!(info.address_type, "");
    assert_eq!(info.class, 0);
    assert_eq!(info.device_major_name, "");
    assert_eq!(info.device_minor_name, "");
    assert!(info.service_categories.is_empty());
    assert!(info.uuids.is_empty());
    assert!(!info.is_paired);
    assert!(!info.is_connected);
    assert!(!info.is_trusted);
    assert!(!info.is_blocked);
    assert!(!info.is_wake_allowed);
    assert!(!info.is_legacy_pairing);
    assert_eq!(info.battery_percentage, 0);
}

#[test]
fn snapshot_is_built_from_properties() {
    let info = DeviceInfo::from_properties(headset_properties());
    assert_eq!(info.name, "WH-1000");
    assert_eq!(info.alias, "My headset");
    assert_eq!(info.address_type, "public");
    assert_eq!(info.class, 0x240404);
    assert_eq!(info.device_major_name, "AUDIO_VIDEO");
    assert_eq!(info.device_minor_name, "AUDIO_VIDEO_WEARABLE_HEADSET");
    assert_eq!(info.service_categories, vec!["RENDER".to_string(), "AUDIO".to_string()]);
    assert_eq!(
        info.uuids,
        vec![("0000110b-0000-1000-8000-00805f9b34fb".to_string(), "Audio Sink".to_string())]
    );
    assert!(info.is_paired);
    assert!(info.is_connected);
    assert!(info.is_trusted);
    assert!(!info.is_blocked);
    assert!(info.is_wake_allowed);
    assert!(!info.is_legacy_pairing);
    assert_eq!(info.battery_percentage, 80);
    // What no property speaks of stays empty.
    assert_eq!(info.discovered_adapter_name, "");
    assert_eq!(info.address, [0u8; 6]);
    assert_eq!(info.address_string, "");
}

#[test]
fn later_property_overwrites_earlier_one() {
    let info = DeviceInfo::from_properties(vec![
        DeviceProperty::Name("first".to_string()),
        DeviceProperty::Connected(true),
        DeviceProperty::Name("second".to_string()),
        DeviceProperty::Connected(false),
    ]);
    assert_eq!(info.name, "second");
    assert!(!info.is_connected);
}

#[test]
fn each_property_changes_only_its_field() {
    let mut info = DeviceInfo::from_properties(headset_properties());
    info.update_property(DeviceProperty::Blocked(true));
    assert!(info.is_blocked);
    info.update_property(DeviceProperty::LegacyPairing(true));
    assert!(info.is_legacy_pairing);
    info.update_property(DeviceProperty::BatteryPercentage(15));
    assert_eq!(info.battery_percentage, 15);
    info.update_property(DeviceProperty::Paired(false));
    info.update_property(DeviceProperty::Trusted(false));
    info.update_property(DeviceProperty::WakeAllowed(false));
    assert!(!info.is_paired && !info.is_trusted && !info.is_wake_allowed);
    assert_eq!(info.name, "WH-1000");
    assert_eq!(info.alias, "My headset");
    assert_eq!(info.class, 0x240404);
    assert!(info.is_connected);
    assert_eq!(info.uuids.len(), 1);
}

#[test]
fn other_property_changes_nothing() {
    let mut info = DeviceInfo::from_properties(headset_properties());
    info.update_property(DeviceProperty::Other);
    assert_eq!(info.name, "WH-1000");
    assert_eq!(info.alias, "My headset");
    assert_eq!(info.address_type, "public");
    assert_eq!(info.class, 0x240404);
    assert_eq!(info.device_major_name, "AUDIO_VIDEO");
    assert_eq!(info.service_categories.len(), 2);
    assert_eq!(info.uuids.len(), 1);
    assert!(info.is_connected);
    assert_eq!(info.battery_percentage, 80);
}

#[test]
fn address_types_are_written_as_the_stack_writes_them() {
    let mut info = DeviceInfo::default();
    info.update_property(DeviceProperty::AddressType(AddressType::BrEdr));
    assert_eq!(info.address_type, "br/edr");
    info.update_property(DeviceProperty::AddressType(AddressType::LePublic));
    assert_eq!(info.address_type, "public");
    info.update_property(DeviceProperty::AddressType(AddressType::LeRandom));
    assert_eq!(info.address_type, "random");
}

#[test]
fn class_that_cannot_be_decoded_is_unknown() {
    let mut info = DeviceInfo::from_properties(headset_properties());
    info.update_property(DeviceProperty::Class(0));
    assert_eq!(info.class, 0);
    assert_eq!(info.device_major_name, "UNKNOWN");
    assert_eq!(info.device_minor_name, "UNKNOWN");
    assert!(info.service_categories.is_empty());
    info.update_property(DeviceProperty::Class(0xFF00_0000));
    assert_eq!(info.class, 0xFF00_0000);
    assert_eq!(info.device_major_name, "UNKNOWN");
    assert_eq!(info.device_minor_name, "UNKNOWN");
    assert!(info.service_categories.is_empty());
}

#[test]
fn class_names_are_decoded_together() {
    let (major, minor, categories) = decode_class(0x5A020C);
    assert_eq!(major, "PHONE");
    assert_eq!(minor, "PHONE_SMART");
    assert_eq!(categories, vec!["NETWORKING", "CAPTURE", "OBJECT_TRANSFER", "TELEPHONY"]);
    let (major, minor, categories) = decode_class(0x040C);
    assert_eq!(major, "AUDIO_VIDEO");
    assert_eq!(minor, "UNKNOWN");
    assert!(categories.is_empty());
}

#[test]
fn uuids_replace_the_service_listing() {
    let mut info = DeviceInfo::from_properties(headset_properties());
    info.update_property(DeviceProperty::Uuids(vec![
        0x00001108_0000_1000_8000_00805F9B34FB,
        0x0000111E_0000_1000_8000_00805F9B34FB,
    ]));
    assert_eq!(
        info.uuids,
        vec![
            ("00001108-0000-1000-8000-00805f9b34fb".to_string(), "Headset".to_string()),
            ("0000111e-0000-1000-8000-00805f9b34fb".to_string(), "Handsfree".to_string()),
        ]
    );
    info.update_property(DeviceProperty::Uuids(vec![]));
    assert!(info.uuids.is_empty());
}

#[test]
fn copy_of_snapshot_has_the_same_fields() {
    let info = DeviceInfo::from_properties(headset_properties());
    let copy = info.clone();
    assert_eq!(copy.name, info.name);
    assert_eq!(copy.alias, info.alias);
    assert_eq!(copy.address_type, info.address_type);
    assert_eq!(copy.class, info.class);
    assert_eq!(copy.device_major_name, info.device_major_name);
    assert_eq!(copy.device_minor_name, info.device_minor_name);
    assert_eq!(copy.service_categories, info.service_categories);
    assert_eq!(copy.uuids, info.uuids);
    assert_eq!(copy.is_connected, info.is_connected);
    assert_eq!(copy.battery_percentage, info.battery_percentage);
}

#[test]
fn new_device_carries_adapter_and_address() {
    let address = Address::new([0xAA, 0xBB, 0x0C, 0x00, 0x1E, 0xFF]);
    let device = Device::new("hci0", address, headset_properties());
    assert_eq!(device.address().0, [0xAA, 0xBB, 0x0C, 0x00, 0x1E, 0xFF]);
    let info = device.device_info();
    assert_eq!(info.discovered_adapter_name, "hci0");
    assert_eq!(info.address, [0xAA, 0xBB, 0x0C, 0x00, 0x1E, 0xFF]);
    assert_eq!(info.address_string, "AA:BB:0C:00:1E:FF");
    assert_eq!(info.name, "WH-1000");
    assert!(info.is_connected);
}

#[test]
fn address_text_is_upper_case_with_colons() {
    let device = Device::new("hci1", Address([0x00, 0x01, 0x9A, 0xAF, 0x10, 0x0F]), vec![]);
    assert_eq!(device.device_info().address_string, "00:01:9A:AF:10:0F");
    assert_eq!(device.device_info().discovered_adapter_name, "hci1");
    assert_eq!(device.device_info().name, "");
}

#[test]
fn device_property_update_returns_new_snapshot() {
    let mut device = Device::new("hci0", Address([1, 2, 3, 4, 5, 6]), headset_properties());
    let info = device.update_device_property(DeviceProperty::Connected(false));
    assert!(!info.is_connected);
    assert!(!device.device_info().is_connected);
    assert_eq!(info.address, [1, 2, 3, 4, 5, 6]);
    assert_eq!(info.address_string, "01:02:03:04:05:06");
    assert_eq!(info.discovered_adapter_name, "hci0");
    assert_eq!(info.name, "WH-1000");
}

#[test]
fn refresh_applies_properties_over_the_old_snapshot() {
    let mut device = Device::new("hci0", Address([1, 2, 3, 4, 5, 6]), headset_properties());
    let info = device.refresh_properties(vec![
        DeviceProperty::Name("renamed".to_string()),
        DeviceProperty::BatteryPercentage(42),
    ]);
    assert_eq!(info.name, "renamed");
    assert_eq!(info.battery_percentage, 42);
    // What the refresh does not speak of stays.
    assert_eq!(info.alias, "My headset");
    assert!(info.is_connected);
    assert_eq!(info.address_string, "01:02:03:04:05:06");
    assert_eq!(device.address().0, [1, 2, 3, 4, 5, 6]);
}

#[test]
fn address_key_reads_the_bytes_as_one_number() {
    assert_eq!(Address([0, 0, 0, 0, 0, 0]).key(), 0);
    assert_eq!(Address([0, 0, 0, 0, 0, 1]).key(), 1);
    assert_eq!(Address([1, 0, 0, 0, 0, 0]).key(), 0x0100_0000_0000);
    assert_eq!(Address([0xAA, 0xBB, 0xCC, 0xDD, 0xEE, 0xFF]).key(), 0xAABB_CCDD_EEFF);
    assert_eq!(Address([0xFF; 6]).key(), 0xFFFF_FFFF_FFFF);
}
