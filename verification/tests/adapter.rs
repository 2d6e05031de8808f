use bluetooth_engine::adapter::{
    Adapter, AdapterErrors, AdapterEvent, DeviceEvent, DiscoverySession, DriverEvent, PumpAction,
    SessionAction, SessionEvent, SessionState, EVENT_CHANNEL_CAPACITY,
};
use bluetooth_engine::adapter_info::{AdapterInfo, AdapterProperty, Capabilities};
use bluetooth_engine::address::{Address, AddressType};
use bluetooth_engine::device::{DeviceInfo, DeviceProperty};

const A1: Address = Address([0xA1, 0x02, 0x03, 0x04, 0x05, 0x06]);
const A2: Address = Address([0xA2, 0x02, 0x03, 0x04, 0x05, 0x06]);

fn powered(on: bool) -> Adapter {
    Adapter::new("hci0".to_string(), vec![AdapterProperty::Powered(on)], vec![])
}

fn named(name: &str, connected: bool) -> Vec<DeviceProperty> {
    vec![DeviceProperty::Name(name.to_string()), DeviceProperty::Connected(connected)]
}

fn names(listing: &[DeviceInfo]) -> Vec<String> {
    listing.iter().map(|info| info.name.clone()).collect()
}

fn devices_updated(event: AdapterEvent) -> (Vec<DeviceInfo>, DeviceEvent) {
    match event {
        AdapterEvent::DevicesUpdated(listing, change) => (listing, change),
        AdapterEvent::AdapterPropertyChanged(_) => panic!("a notification about devices was expected"),
    }
}

fn published(action: SessionAction) -> AdapterEvent {
    match action {
        SessionAction::Publish(event) => event,
        other => panic!("a notification was expected, not {:?}", other),
    }
}

fn active_session(adapter: &mut Adapter, timeout: u64) -> DiscoverySession {
    adapter.adaptor_event_stream().unwrap();
    adapter.discover_devices(timeout).unwrap().unwrap()
}

#[test]
fn adapter_snapshot_is_built_from_properties() {
    let info = AdapterInfo::from_properties(vec![
        AdapterProperty::Address(Address([0x00, 0x1A, 0x7D, 0xDA, 0x71, 0x13])),
        AdapterProperty::AddressType(AddressType::LePublic),
        AdapterProperty::SystemName("host".to_string()),
        AdapterProperty::Alias("desk".to_string()),
        AdapterProperty::Class(0x7C010C),
        AdapterProperty::Powered(true),
        AdapterProperty::Discoverable(true),
        AdapterProperty::Pairable(true),
        AdapterProperty::PairableTimeout(30),
        AdapterProperty::DiscoverableTimeout(180),
        AdapterProperty::Discovering(true),
        AdapterProperty::Uuids(vec![0x00001800_0000_1000_8000_00805F9B34FB]),
        AdapterProperty::ActiveAdvertisingInstances(1),
        AdapterProperty::SupportedAdvertisingInstances(5),
        AdapterProperty::SupportedAdvertisingSystemIncludes(vec![
            "tx-power".to_string(),
            "local-name".to_string(),
        ]),
        AdapterProperty::SupportedAdvertisingCapabilities(Capabilities {
            max_advertisement_length: 31,
            max_scan_response_length: 29,
            min_tx_power: -34,
            max_tx_power: 7,
        }),
        AdapterProperty::SupportedAdvertisingFeatures(vec!["CanSetTxPower".to_string()]),
        AdapterProperty::Other,
    ]);
    assert!(!info.not_found);
    assert_eq!(info.address, "00:1A:7D:DA:71:13");
    assert_eq!(info.address_type, "public");
    assert_eq!(info.system_name, "host");
    assert_eq!(info.alias, "desk");
    assert_eq!(info.name, "");
    assert_eq!(info.icon, "");
    assert_eq!(info.class, 0x7C010C);
    assert_eq!(info.device_major_name, "COMPUTER");
    assert_eq!(info.device_minor_name, "COMPUTER_LAPTOP");
    assert_eq!(
        info.service_categories,
        vec!["RENDER", "CAPTURE", "OBJECT_TRANSFER", "AUDIO", "TELEPHONY"]
    );
    assert!(info.is_powered);
    assert!(info.is_discoverable);
    assert!(info.pairable);
    assert_eq!(info.pairable_timeout, 30);
    assert_eq!(info.discoverable_timeout, 180);
    assert!(info.discovering);
    assert_eq!(
        info.uuids,
        vec![(
            "00001800-0000-1000-8000-00805f9b34fb".to_string(),
            "Generic Access Profile".to_string()
        )]
    );
    assert_eq!(info.active_advertising_instances, 1);
    assert_eq!(info.supported_advertising_instances, 5);
    assert_eq!(info.supported_advertising_system_includes, vec!["tx-power", "local-name"]);
    assert_eq!(info.supported_advertising_features, vec!["CanSetTxPower"]);
    assert_eq!(info.max_advertisement_length, 31);
    assert_eq!(info.max_scan_response_length, 29);
    assert_eq!(info.min_tx_power, -34);
    assert_eq!(info.max_tx_power, 7);
}

#[test]
fn adapter_property_changes_only_its_field() {
    let mut info = AdapterInfo::from_properties(vec![
        AdapterProperty::Alias("desk".to_string()),
        AdapterProperty::Powered(true),
    ]);
    info.update_property(AdapterProperty::Discoverable(true));
    assert!(info.is_discoverable);
    assert!(info.is_powered);
    assert_eq!(info.alias, "desk");
    info.update_property(AdapterProperty::Powered(false));
    assert!(!info.is_powered);
    assert!(info.is_discoverable);
    info.update_property(AdapterProperty::Other);
    assert!(!info.is_powered);
    assert!(info.is_discoverable);
    assert_eq!(info.alias, "desk");
    info.update_property(AdapterProperty::Class(0));
    assert_eq!(info.device_major_name, "UNKNOWN");
    assert_eq!(info.device_minor_name, "UNKNOWN");
    assert!(info.service_categories.is_empty());
}

#[test]
fn default_adapter_snapshot_is_empty() {
    let info = AdapterInfo::default();
    assert!(!info.not_found && !info.discovering && !info.is_powered);
    assert_eq!(info.address, "");
    assert_eq!(info.name, "");
    assert_eq!(info.class, 0);
    assert!(info.uuids.is_empty());
    assert_eq!(info.min_tx_power, 0);
}

#[test]
fn engine_starts_from_properties_and_devices() {
    let adapter = Adapter::new(
        "hci0".to_string(),
        vec![AdapterProperty::Alias("desk".to_string()), AdapterProperty::Powered(true)],
        vec![(A1, named("speaker", false))],
    );
    assert_eq!(adapter.name(), "hci0");
    assert!(!adapter.is_discovering());
    assert!(!adapter.has_consumer());
    let info = adapter.adapter_info();
    assert_eq!(info.name, "hci0");
    assert_eq!(info.alias, "desk");
    assert!(info.is_powered);
    let listing = adapter.known_devices();
    assert_eq!(names(&listing), vec!["speaker"]);
    assert_eq!(listing[0].discovered_adapter_name, "hci0");
}

#[test]
fn discovery_flag_starts_as_the_adapter_reports() {
    let adapter =
        Adapter::new("hci0".to_string(), vec![AdapterProperty::Discovering(true)], vec![]);
    assert!(adapter.is_discovering());
    assert!(adapter.adapter_info().discovering);
}

#[test]
fn one_notification_may_wait() {
    assert_eq!(EVENT_CHANNEL_CAPACITY, 1);
}

#[test]
fn second_subscription_is_refused() {
    let mut adapter = powered(true);
    assert!(adapter.adaptor_event_stream().is_ok());
    assert!(adapter.has_consumer());
    assert!(matches!(adapter.adaptor_event_stream(), Err(AdapterErrors::EventConsumerExist)));
    assert!(adapter.has_consumer());
    assert!(matches!(adapter.adaptor_event_stream(), Err(AdapterErrors::EventConsumerExist)));
    // The first subscription still gets its notifications.
    let event = adapter.handle_event(DriverEvent::PropertyChanged(AdapterProperty::Pairable(true)));
    assert!(matches!(event, AdapterEvent::AdapterPropertyChanged(info) if info.pairable));
}

#[test]
fn discovery_is_refused_while_discovering() {
    let mut adapter = powered(true);
    let session = active_session(&mut adapter, 5);
    assert!(adapter.is_discovering());
    match adapter.discover_devices(9) {
        Err(AdapterErrors::AdapterIsDiscovering(name)) => assert_eq!(name, "hci0"),
        other => panic!("unexpected answer {:?}", other),
    }
    assert!(adapter.is_discovering());
    assert_eq!(session.state, SessionState::Active);
    assert_eq!(session.timeout_in_seconds, 5);
}

#[test]
fn discovery_is_refused_while_powered_off() {
    let mut adapter = powered(false);
    match adapter.discover_devices(5) {
        Err(AdapterErrors::AdapterNotPoweredOn(name)) => assert_eq!(name, "hci0"),
        other => panic!("unexpected answer {:?}", other),
    }
    assert!(!adapter.is_discovering());
}

#[test]
fn discovering_is_reported_before_powered_off() {
    let mut adapter = Adapter::new(
        "hci0".to_string(),
        vec![AdapterProperty::Discovering(true), AdapterProperty::Powered(false)],
        vec![],
    );
    assert!(matches!(adapter.discover_devices(5), Err(AdapterErrors::AdapterIsDiscovering(_))));
    assert!(adapter.is_discovering());
}

#[test]
fn discovery_without_consumer_runs_no_session() {
    let mut adapter = powered(true);
    assert!(matches!(adapter.discover_devices(5), Ok(None)));
    assert!(adapter.is_discovering());
}

#[test]
fn discovery_with_consumer_runs_a_session() {
    let mut adapter = powered(true);
    adapter.adaptor_event_stream().unwrap();
    let session = adapter.discover_devices(7).unwrap().unwrap();
    assert_eq!(session.timeout_in_seconds, 7);
    assert_eq!(session.state, SessionState::Active);
    assert!(adapter.is_discovering());
}

#[test]
fn powering_on_allows_discovery() {
    let mut adapter = powered(false);
    assert!(adapter.discover_devices(5).is_err());
    adapter.handle_event(DriverEvent::PropertyChanged(AdapterProperty::Powered(true)));
    assert!(matches!(adapter.discover_devices(5), Ok(None)));
    assert!(adapter.is_discovering());
}

#[test]
fn cancelling_clears_the_flag() {
    let mut adapter = powered(true);
    adapter.cancel_discovering();
    assert!(!adapter.is_discovering());
    adapter.discover_devices(5).unwrap();
    assert!(adapter.is_discovering());
    adapter.cancel_discovering();
    assert!(!adapter.is_discovering());
    assert!(adapter.adapter_info().is_powered);
    assert!(matches!(adapter.discover_devices(5), Ok(None)));
}

#[test]
fn reported_discovery_does_not_move_the_flag() {
    let mut adapter = powered(true);
    adapter.handle_event(DriverEvent::PropertyChanged(AdapterProperty::Discovering(true)));
    assert!(adapter.adapter_info().discovering);
    assert!(!adapter.is_discovering());
}

#[test]
fn connecting_needs_a_known_device() {
    let mut adapter = powered(true);
    assert!(matches!(adapter.connect_device(A1), Err(AdapterErrors::DeviceNotFound)));
    assert!(matches!(adapter.disconnect_device(A1), Err(AdapterErrors::DeviceNotFound)));
    adapter.handle_event(DriverEvent::DeviceAdded(A1, Some(named("speaker", false))));
    assert!(adapter.connect_device(A1).is_ok());
    assert!(adapter.disconnect_device(A1).is_ok());
    assert!(matches!(adapter.connect_device(A2), Err(AdapterErrors::DeviceNotFound)));
    adapter.handle_event(DriverEvent::DeviceRemoved(A1));
    assert!(matches!(adapter.connect_device(A1), Err(AdapterErrors::DeviceNotFound)));
}

#[test]
fn device_added_then_removed() {
    let mut adapter = powered(true);
    adapter.adaptor_event_stream().unwrap();
    let (listing, change) = devices_updated(
        adapter.handle_event(DriverEvent::DeviceAdded(A1, Some(named("speaker", false)))),
    );
    assert_eq!(names(&listing), vec!["speaker"]);
    assert_eq!(listing[0].address, A1.0);
    match change {
        DeviceEvent::DeviceAdded(info) => {
            assert_eq!(info.name, "speaker");
            assert_eq!(info.address, A1.0);
            assert_eq!(info.address_string, "A1:02:03:04:05:06");
            assert_eq!(info.discovered_adapter_name, "hci0");
        }
        other => panic!("unexpected change {:?}", other),
    }
    assert_eq!(names(&adapter.known_devices()), vec!["speaker"]);

    let (listing, change) = devices_updated(adapter.handle_event(DriverEvent::DeviceRemoved(A1)));
    assert!(listing.is_empty());
    match change {
        DeviceEvent::DeviceRemoved(info) => {
            assert_eq!(info.name, "speaker");
            assert_eq!(info.address, A1.0);
            assert_eq!(info.address_string, "A1:02:03:04:05:06");
        }
        other => panic!("unexpected change {:?}", other),
    }
    assert!(adapter.known_devices().is_empty());
}

#[test]
fn removal_of_an_unknown_device_carries_an_empty_snapshot() {
    let mut adapter =
        Adapter::new("hci0".to_string(), vec![], vec![(A2, named("keyboard", false))]);
    let (listing, change) = devices_updated(adapter.handle_event(DriverEvent::DeviceRemoved(A1)));
    assert_eq!(names(&listing), vec!["keyboard"]);
    match change {
        DeviceEvent::DeviceRemoved(info) => {
            assert_eq!(info.name, "");
            assert_eq!(info.address, [0u8; 6]);
            assert_eq!(info.address_string, "");
        }
        other => panic!("unexpected change {:?}", other),
    }
}

#[test]
fn device_whose_properties_cannot_be_read_is_not_entered() {
    let mut adapter =
        Adapter::new("hci0".to_string(), vec![], vec![(A2, named("keyboard", false))]);
    let (listing, change) =
        devices_updated(adapter.handle_event(DriverEvent::DeviceAdded(A1, None)));
    assert_eq!(names(&listing), vec!["keyboard"]);
    match change {
        DeviceEvent::DeviceAdded(info) => {
            assert_eq!(info.name, "");
            assert_eq!(info.address_string, "");
        }
        other => panic!("unexpected change {:?}", other),
    }
    assert_eq!(adapter.known_devices().len(), 1);
}

#[test]
fn device_change_updates_the_registry() {
    let mut adapter = Adapter::new(
        "hci0".to_string(),
        vec![],
        vec![(A1, named("speaker", false)), (A2, named("keyboard", false))],
    );
    let (listing, change) = devices_updated(
        adapter.handle_event(DriverEvent::DeviceChanged(A2, DeviceProperty::Connected(true))),
    );
    assert_eq!(names(&listing), vec!["speaker", "keyboard"]);
    assert!(listing[1].is_connected);
    assert!(matches!(change, DeviceEvent::DeviceUpdated(info) if info.name == "keyboard" && info.is_connected));
    let (listing, change) = devices_updated(adapter.handle_event(DriverEvent::DeviceChanged(
        Address([9; 6]),
        DeviceProperty::Connected(true),
    )));
    assert_eq!(listing.len(), 2);
    assert!(matches!(change, DeviceEvent::DeviceUpdated(info) if info.name.is_empty() && !info.is_connected));
}

#[test]
fn adapter_property_change_is_published_with_the_new_snapshot() {
    let mut adapter = powered(true);
    let event = adapter
        .handle_event(DriverEvent::PropertyChanged(AdapterProperty::Alias("desk".to_string())));
    match event {
        AdapterEvent::AdapterPropertyChanged(info) => {
            assert_eq!(info.alias, "desk");
            assert_eq!(info.name, "hci0");
            assert!(info.is_powered);
        }
        other => panic!("unexpected notification {:?}", other),
    }
    assert_eq!(adapter.adapter_info().alias, "desk");
}

#[test]
fn pump_stops_when_consumer_or_events_are_gone() {
    let mut adapter = powered(true);
    assert!(matches!(
        adapter.pump_step(true, Some(DriverEvent::DeviceAdded(A1, Some(named("speaker", false))))),
        PumpAction::Stop
    ));
    assert!(adapter.known_devices().is_empty());
    assert!(matches!(adapter.pump_step(false, None), PumpAction::Stop));
    assert!(matches!(adapter.pump_step(true, None), PumpAction::Stop));
}

#[test]
fn pump_publishes_one_notification_for_each_event() {
    let mut adapter = powered(true);
    match adapter.pump_step(false, Some(DriverEvent::DeviceAdded(A1, Some(named("speaker", false)))))
    {
        PumpAction::Publish(event) => {
            let (listing, change) = devices_updated(event);
            assert_eq!(names(&listing), vec!["speaker"]);
            assert!(matches!(change, DeviceEvent::DeviceAdded(info) if info.name == "speaker"));
        }
        PumpAction::Stop => panic!("the pump stopped"),
    }
    match adapter
        .pump_step(false, Some(DriverEvent::PropertyChanged(AdapterProperty::Powered(false))))
    {
        PumpAction::Publish(AdapterEvent::AdapterPropertyChanged(info)) => {
            assert!(!info.is_powered)
        }
        other => panic!("unexpected action {:?}", other),
    }
}

#[test]
fn session_ends_after_its_time_is_up() {
    let mut adapter = powered(true);
    let mut session = active_session(&mut adapter, 5);
    assert!(session.observe(&adapter));
    assert!(matches!(session.step(&mut adapter, SessionEvent::TimerFired), SessionAction::Continue));
    assert!(!adapter.is_discovering());
    assert_eq!(session.state, SessionState::Active);
    assert!(!session.observe(&adapter));
    assert_eq!(session.state, SessionState::Idle);
    assert_eq!(session.timeout_in_seconds, 5);
    // A new discovery may start now.
    assert!(adapter.discover_devices(5).unwrap().is_some());
}

#[test]
fn session_ends_after_cancellation() {
    let mut adapter = powered(true);
    let mut session = active_session(&mut adapter, 60);
    adapter.cancel_discovering();
    assert!(!session.observe(&adapter));
    assert_eq!(session.state, SessionState::Idle);
    assert!(matches!(session.step(&mut adapter, SessionEvent::DeviceAdded(A1)), SessionAction::Stop));
    assert!(matches!(
        session.step(&mut adapter, SessionEvent::DeviceFetched(A1, Some(named("late", false)))),
        SessionAction::Stop
    ));
    assert!(adapter.known_devices().is_empty());
}

#[test]
fn session_watches_a_found_device_and_publishes_it() {
    let mut adapter = powered(true);
    let mut session = active_session(&mut adapter, 60);
    match session.step(&mut adapter, SessionEvent::DeviceAdded(A1)) {
        SessionAction::Watch(address) => assert_eq!(address.0, A1.0),
        other => panic!("unexpected action {:?}", other),
    }
    assert!(adapter.known_devices().is_empty());
    let (listing, change) = devices_updated(published(
        session.step(&mut adapter, SessionEvent::DeviceFetched(A1, Some(named("speaker", false)))),
    ));
    assert_eq!(names(&listing), vec!["speaker"]);
    assert!(matches!(change, DeviceEvent::DeviceAdded(info) if info.address == A1.0));
    let (listing, change) = devices_updated(published(session.step(
        &mut adapter,
        SessionEvent::DeviceChanged(A1, DeviceProperty::Connected(true)),
    )));
    assert!(listing[0].is_connected);
    assert!(matches!(change, DeviceEvent::DeviceUpdated(info) if info.is_connected));
    let (listing, change) =
        devices_updated(published(session.step(&mut adapter, SessionEvent::DeviceRemoved(A1))));
    assert!(listing.is_empty());
    assert!(matches!(change, DeviceEvent::DeviceRemoved(info) if info.name == "speaker" && info.is_connected));
    assert_eq!(session.state, SessionState::Active);
    assert!(adapter.is_discovering());
}

#[test]
fn session_asks_for_no_watch_once_the_flag_is_clear() {
    let mut adapter = powered(true);
    let mut session = active_session(&mut adapter, 60);
    adapter.cancel_discovering();
    // The session has not looked at the flag yet.
    assert_eq!(session.state, SessionState::Active);
    assert!(matches!(session.step(&mut adapter, SessionEvent::DeviceAdded(A1)), SessionAction::Stop));
    assert_eq!(session.state, SessionState::Idle);
}

#[test]
fn session_takes_device_events_in_until_it_looks_at_the_flag() {
    let mut adapter =
        Adapter::new("hci0".to_string(), vec![AdapterProperty::Powered(true)], vec![(A1, named("speaker", false))]);
    let mut session = active_session(&mut adapter, 60);
    adapter.cancel_discovering();
    let (listing, _) = devices_updated(published(session.step(
        &mut adapter,
        SessionEvent::DeviceChanged(A1, DeviceProperty::Connected(true)),
    )));
    assert!(listing[0].is_connected);
    assert!(!session.observe(&adapter));
}

#[test]
fn session_ignores_other_reports() {
    let mut adapter = powered(true);
    let mut session = active_session(&mut adapter, 60);
    assert!(matches!(session.step(&mut adapter, SessionEvent::AdapterChanged), SessionAction::Continue));
    assert_eq!(session.state, SessionState::Active);
    assert!(adapter.is_discovering());
    assert!(session.observe(&adapter));
}

#[test]
fn session_ends_with_the_discovery_or_the_consumer() {
    let mut adapter = powered(true);
    let mut session = active_session(&mut adapter, 60);
    assert!(matches!(session.step(&mut adapter, SessionEvent::DiscoveryEnded), SessionAction::Stop));
    assert_eq!(session.state, SessionState::Idle);
    assert!(adapter.is_discovering());

    let mut other = powered(true);
    let mut session = active_session(&mut other, 60);
    assert!(matches!(session.step(&mut other, SessionEvent::ConsumerGone), SessionAction::Stop));
    assert_eq!(session.state, SessionState::Idle);
    assert!(matches!(session.step(&mut other, SessionEvent::TimerFired), SessionAction::Stop));
    assert!(other.is_discovering());
}

#[test]
fn errors_have_their_sentences() {
    assert_eq!(AdapterErrors::AdapterNotFound.message(), "No adapters found in the system");
    assert_eq!(
        AdapterErrors::AdapterNotPoweredOn("hci0".to_string()).message(),
        "Target adapter hci0 is not powered on"
    );
    assert_eq!(
        AdapterErrors::AdapterIsDiscovering("hci1".to_string()).message(),
        "Target adapter hci1 is discovering"
    );
    assert_eq!(
        AdapterErrors::EventConsumerExist.message(),
        "Adapter has a consumer already consuming the event, cannot establish another consumer"
    );
    assert_eq!(AdapterErrors::DeviceNotFound.message(), "Device is not found");
}
