use bluetooth_engine::address::Address;
use bluetooth_engine::device::{DeviceInfo, DeviceProperty};
use bluetooth_engine::device_list::{may_stand_before, DeviceList};

const A1: Address = Address([0xA1, 0, 0, 0, 0, 1]);
const A2: Address = Address([0xA2, 0, 0, 0, 0, 2]);
const A3: Address = Address([0xA3, 0, 0, 0, 0, 3]);
const A4: Address = Address([0xA4, 0, 0, 0, 0, 4]);

fn named(name: &str, connected: bool) -> Vec<DeviceProperty> {
    vec![DeviceProperty::Name(name.to_string()), DeviceProperty::Connected(connected)]
}

fn names(listing: &[DeviceInfo]) -> Vec<String> {
    listing.iter().map(|info| info.name.clone()).collect()
}

fn assert_sorted_and_distinct(listing: &[DeviceInfo]) {
    for i in 0..listing.len() {
        for j in (i + 1)..listing.len() {
            assert_ne!(listing[i].address, listing[j].address);
            if listing[i].is_connected {
                assert!(listing[j].is_connected);
            }
            if listing[i].is_connected == listing[j].is_connected {
                assert!(listing[i].name <= listing[j].name);
            }
        }
    }
}

#[test]
fn empty_registry_lists_nothing() {
    let list = DeviceList::new("hci0".to_string(), vec![]);
    assert!(list.list().is_empty());
    assert!(list.get(&A1).is_none());
}

#[test]
fn registry_is_built_from_enumeration() {
    let list = DeviceList::new(
        "hci0".to_string(),
        vec![(A1, named("speaker", false)), (A2, named("keyboard", true))],
    );
    let listing = list.list();
    assert_eq!(names(&listing), vec!["speaker", "keyboard"]);
    assert_eq!(listing[0].address_string, "A1:00:00:00:00:01");
    assert_eq!(listing[0].discovered_adapter_name, "hci0");
    assert_eq!(listing[1].address, [0xA2, 0, 0, 0, 0, 2]);
    assert_eq!(list.get(&A2).unwrap().device_info().name, "keyboard");
    assert_eq!(list.get(&A2).unwrap().address().0, A2.0);
    assert!(list.get(&A3).is_none());
}

#[test]
fn later_entry_for_an_address_replaces_the_earlier_one() {
    let list = DeviceList::new(
        "hci0".to_string(),
        vec![
            (A1, vec![DeviceProperty::Name("old".to_string()), DeviceProperty::Paired(true)]),
            (A1, vec![DeviceProperty::Name("new".to_string())]),
        ],
    );
    let listing = list.list();
    assert_eq!(listing.len(), 1);
    assert_eq!(listing[0].name, "new");
    assert!(!listing[0].is_paired);
}

#[test]
fn adding_an_unknown_device_enters_it() {
    let mut list = DeviceList::new("hci0".to_string(), vec![]);
    let info = list.add_device(A1, named("mouse", false));
    assert_eq!(info.name, "mouse");
    assert_eq!(info.address, A1.0);
    assert_eq!(info.address_string, "A1:00:00:00:00:01");
    assert_eq!(info.discovered_adapter_name, "hci0");
    assert_eq!(names(&list.list()), vec!["mouse"]);
}

#[test]
fn adding_a_known_device_refreshes_it() {
    let mut list = DeviceList::new(
        "hci0".to_string(),
        vec![(A1, vec![DeviceProperty::Name("mouse".to_string()), DeviceProperty::Paired(true)])],
    );
    let info = list.add_device(A1, vec![DeviceProperty::Connected(true)]);
    assert_eq!(info.name, "mouse");
    assert!(info.is_paired);
    assert!(info.is_connected);
    let listing = list.list();
    assert_eq!(listing.len(), 1);
    assert!(listing[0].is_connected);
    assert!(listing[0].is_paired);
}

#[test]
fn removing_returns_the_last_snapshot() {
    let mut list = DeviceList::new(
        "hci0".to_string(),
        vec![(A1, named("mouse", true)), (A2, named("keyboard", false))],
    );
    let removed = list.remove_device(A1).unwrap();
    assert_eq!(removed.name, "mouse");
    assert!(removed.is_connected);
    assert_eq!(removed.address, A1.0);
    assert_eq!(names(&list.list()), vec!["keyboard"]);
    assert!(list.get(&A1).is_none());
    assert!(list.remove_device(A1).is_none());
    assert_eq!(names(&list.list()), vec!["keyboard"]);
}

#[test]
fn removing_an_unknown_device_changes_nothing() {
    let mut list = DeviceList::new("hci0".to_string(), vec![(A1, named("mouse", false))]);
    assert!(list.remove_device(A2).is_none());
    assert_eq!(names(&list.list()), vec!["mouse"]);
}

#[test]
fn updating_changes_one_property() {
    let mut list = DeviceList::new(
        "hci0".to_string(),
        vec![(A1, named("mouse", false)), (A2, named("keyboard", false))],
    );
    let info = list.update_device(A1, DeviceProperty::Connected(true)).unwrap();
    assert_eq!(info.name, "mouse");
    assert!(info.is_connected);
    assert_eq!(names(&list.list()), vec!["keyboard", "mouse"]);
    assert!(!list.get(&A2).unwrap().device_info().is_connected);
}

#[test]
fn updating_an_unknown_device_does_nothing() {
    let mut list = DeviceList::new("hci0".to_string(), vec![(A1, named("mouse", false))]);
    assert!(list.update_device(A2, DeviceProperty::Connected(true)).is_none());
    let listing = list.list();
    assert_eq!(listing.len(), 1);
    assert!(!listing[0].is_connected);
}

#[test]
fn listing_puts_unconnected_devices_first_and_orders_by_name() {
    let list = DeviceList::new(
        "hci0".to_string(),
        vec![
            (A1, named("zebra", true)),
            (A2, named("mouse", false)),
            (A3, named("alpha", true)),
            (A4, named("bravo", false)),
        ],
    );
    let listing = list.list();
    assert_eq!(names(&listing), vec!["bravo", "mouse", "alpha", "zebra"]);
    assert_sorted_and_distinct(&listing);
}

#[test]
fn listing_orders_names_by_code_point() {
    let list = DeviceList::new(
        "hci0".to_string(),
        vec![
            (A1, named("b", false)),
            (A2, named("B", false)),
            (A3, named("", false)),
            (A4, named("ab", false)),
        ],
    );
    assert_eq!(names(&list.list()), vec!["", "B", "ab", "b"]);
}

#[test]
fn listing_keeps_devices_with_equal_names() {
    let list = DeviceList::new(
        "hci0".to_string(),
        vec![(A1, named("same", false)), (A2, named("same", false)), (A3, named("same", true))],
    );
    let listing = list.list();
    assert_eq!(names(&listing), vec!["same", "same", "same"]);
    assert_sorted_and_distinct(&listing);
    assert!(listing[2].is_connected);
}

#[test]
fn registry_holds_one_entry_for_each_address() {
    let mut list = DeviceList::new("hci0".to_string(), vec![]);
    let addresses = [A1, A2, A3, A4];
    for round in 0u8..6 {
        for (index, address) in addresses.iter().enumerate() {
            match (round as usize + index) % 3 {
                0 => {
                    list.add_device(*address, named("device", round % 2 == 0));
                }
                1 => {
                    list.update_device(*address, DeviceProperty::Name(format!("n{}", round)));
                }
                _ => {
                    if round % 2 == 1 {
                        list.remove_device(*address);
                    } else {
                        list.add_device(*address, vec![]);
                    }
                }
            }
            let listing = list.list();
            assert!(listing.len() <= addresses.len());
            assert_sorted_and_distinct(&listing);
            for info in &listing {
                assert_eq!(list.get(&Address(info.address)).unwrap().device_info().name, info.name);
            }
        }
    }
}

#[test]
fn addresses_that_differ_in_one_byte_are_kept_apart() {
    let mut list = DeviceList::new("hci0".to_string(), vec![]);
    list.add_device(Address([0, 0, 0, 0, 1, 0]), named("high", false));
    list.add_device(Address([0, 0, 0, 0, 0, 1]), named("low", false));
    list.add_device(Address([1, 0, 0, 0, 0, 0]), named("top", false));
    assert_eq!(names(&list.list()), vec!["high", "low", "top"]);
    assert_eq!(list.get(&Address([0, 0, 0, 0, 0, 1])).unwrap().device_info().name, "low");
    assert!(list.get(&Address([0, 0, 0, 1, 0, 0])).is_none());
}

#[test]
fn order_of_two_snapshots() {
    let mut a = DeviceInfo::default();
    let mut b = DeviceInfo::default();
    a.name = "a".to_string();
    b.name = "b".to_string();
    assert!(may_stand_before(&a, &b));
    assert!(!may_stand_before(&b, &a));
    assert!(may_stand_before(&a, &a));
    a.is_connected = true;
    assert!(!may_stand_before(&a, &b));
    assert!(may_stand_before(&b, &a));
    b.is_connected = true;
    assert!(may_stand_before(&a, &b));
    assert!(!may_stand_before(&b, &a));
}
