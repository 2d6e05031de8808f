use bluetooth_engine::adapter::{Adapter, AdapterErrors};
use bluetooth_engine::adapter_info::AdapterProperty;
use bluetooth_engine::client::{default_adapter_name, sort_names, Client};

fn strings(names: &[&str]) -> Vec<String> {
    names.iter().map(|name| name.to_string()).collect()
}

#[test]
fn no_adapter_is_an_error() {
    assert!(matches!(default_adapter_name(&vec![]), Err(AdapterErrors::AdapterNotFound)));
}

#[test]
fn hci0_is_preferred() {
    assert_eq!(default_adapter_name(&strings(&["hci2", "hci0", "hci1"])).unwrap(), "hci0");
    assert_eq!(default_adapter_name(&strings(&["adapter", "hci0"])).unwrap(), "hci0");
    assert_eq!(default_adapter_name(&strings(&["hci0"])).unwrap(), "hci0");
}

#[test]
fn first_name_is_taken_without_hci0() {
    assert_eq!(default_adapter_name(&strings(&["hci2", "hci10", "hci1"])).unwrap(), "hci1");
    assert_eq!(default_adapter_name(&strings(&["usb", "Internal"])).unwrap(), "Internal");
    assert_eq!(default_adapter_name(&strings(&["hci00"])).unwrap(), "hci00");
}

#[test]
fn names_are_sorted() {
    assert_eq!(
        sort_names(strings(&["hci2", "hci10", "hci0", "hci1", "hci2"])),
        strings(&["hci0", "hci1", "hci10", "hci2", "hci2"])
    );
    assert_eq!(sort_names(vec![]), Vec::<String>::new());
}

#[test]
fn client_keeps_names_in_order() {
    let adapter = Adapter::new("hci0".to_string(), vec![AdapterProperty::Powered(true)], vec![]);
    let mut client = Client::new(strings(&["hci1", "hci0"]), adapter);
    assert_eq!(client.adapter_names(), &strings(&["hci0", "hci1"]));
    assert_eq!(client.adapter().name(), "hci0");
    assert!(!client.adapter().is_discovering());
    client.adapter_mut().discover_devices(5).unwrap();
    assert!(client.adapter().is_discovering());
    assert_eq!(client.adapter_names(), &strings(&["hci0", "hci1"]));
}
