//! Snapshot of one remote device and the property changes that shape it.

use crate::address::{address_text, address_type_text, Address, AddressType};
use crate::utils::{
    device_class_major, device_class_minor, get_device_class_name_major,
    get_device_class_name_minor, get_service_class_name, get_uuid_local_service_names, pair_texts,
    service_class_names, service_entries, texts,
};
use vstd::prelude::*;

verus! {

/// One change of a property of a remote device, as the Bluetooth stack
/// reports it.
pub enum DeviceProperty {
    /// The name the device announces.
    Name(String),
    /// The kind of address the device uses.
    AddressType(AddressType),
    /// The raw class-of-device value.
    Class(u32),
    /// The 128-bit values of the service UUIDs the device advertises.
    Uuids(Vec<u128>),
    /// Whether the device is paired.
    Paired(bool),
    /// Whether the device is connected.
    Connected(bool),
    /// Whether the device is trusted.
    Trusted(bool),
    /// Whether connections from the device are rejected.
    Blocked(bool),
    /// Whether the device may wake the host.
    WakeAllowed(bool),
    /// The name the user gave the device.
    Alias(String),
    /// Whether the device only supports pairing as before Bluetooth 2.1.
    LegacyPairing(bool),
    /// The battery charge in percent.
    BatteryPercentage(u8),
    /// A property of which the snapshot keeps nothing.
    Other,
}

/// What a [`DeviceProperty`] says, as mathematical values.
pub enum DevicePropertyView {
    Name(Seq<char>),
    AddressType(AddressType),
    Class(u32),
    Uuids(Seq<u128>),
    Paired(bool),
    Connected(bool),
    Trusted(bool),
    Blocked(bool),
    WakeAllowed(bool),
    Alias(Seq<char>),
    LegacyPairing(bool),
    BatteryPercentage(u8),
    Other,
}

impl View for DeviceProperty {
    type V = DevicePropertyView;

    open spec fn view(&self) -> DevicePropertyView {
        match *self {
            DeviceProperty::Name(name) => DevicePropertyView::Name(name@),
            DeviceProperty::AddressType(kind) => DevicePropertyView::AddressType(kind),
            DeviceProperty::Class(class) => DevicePropertyView::Class(class),
            DeviceProperty::Uuids(uuids) => DevicePropertyView::Uuids(uuids@),
            DeviceProperty::Paired(on) => DevicePropertyView::Paired(on),
            DeviceProperty::Connected(on) => DevicePropertyView::Connected(on),
            DeviceProperty::Trusted(on) => DevicePropertyView::Trusted(on),
            DeviceProperty::Blocked(on) => DevicePropertyView::Blocked(on),
            DeviceProperty::WakeAllowed(on) => DevicePropertyView::WakeAllowed(on),
            DeviceProperty::Alias(alias) => DevicePropertyView::Alias(alias@),
            DeviceProperty::LegacyPairing(on) => DevicePropertyView::LegacyPairing(on),
            DeviceProperty::BatteryPercentage(percent) => DevicePropertyView::BatteryPercentage(
                percent,
            ),
            DeviceProperty::Other => DevicePropertyView::Other,
        }
    }
}

/// What a list of property changes says, in order.
pub open spec fn property_views(properties: Seq<DeviceProperty>) -> Seq<DevicePropertyView> {
    properties.map_values(|p: DeviceProperty| p@)
}

/// Snapshot of what is known of one remote device.
#[derive(Debug)]
pub struct DeviceInfo {
    pub discovered_adapter_name: String,
    pub name: String,
    pub alias: String,
    pub address: [u8; 6],
    pub address_string: String,
    pub address_type: String,
    pub class: u32,
    pub device_major_name: String,
    pub device_minor_name: String,
    pub service_categories: Vec<String>,
    pub uuids: Vec<(String, String)>,
    pub is_paired: bool,
    pub is_connected: bool,
    pub is_trusted: bool,
    pub is_blocked: bool,
    pub is_wake_allowed: bool,
    pub is_legacy_pairing: bool,
    pub battery_percentage: u8,
}

/// A [`DeviceInfo`] as mathematical values.
pub struct DeviceInfoView {
    pub discovered_adapter_name: Seq<char>,
    pub name: Seq<char>,
    pub alias: Seq<char>,
    pub address: Seq<u8>,
    pub address_string: Seq<char>,
    pub address_type: Seq<char>,
    pub class: u32,
    pub device_major_name: Seq<char>,
    pub device_minor_name: Seq<char>,
    pub service_categories: Seq<Seq<char>>,
    pub uuids: Seq<(Seq<char>, Seq<char>)>,
    pub is_paired: bool,
    pub is_connected: bool,
    pub is_trusted: bool,
    pub is_blocked: bool,
    pub is_wake_allowed: bool,
    pub is_legacy_pairing: bool,
    pub battery_percentage: u8,
}

/// Name shown for a major device class that cannot be decoded.
pub open spec fn major_name_or_unknown(class: u32) -> Seq<char> {
    match device_class_major(class) {
        Some(name) => name,
        None => "UNKNOWN"@,
    }
}

/// Name shown for a device class that cannot be decoded.
pub open spec fn minor_name_or_unknown(class: u32) -> Seq<char> {
    match device_class_minor(class) {
        Some(name) => name,
        None => "UNKNOWN"@,
    }
}

/// Service categories shown for a class value: none where none can be
/// decoded.
pub open spec fn categories_or_none(class: u32) -> Seq<Seq<char>> {
    match service_class_names(class) {
        Some(names) => names,
        None => Seq::empty(),
    }
}

impl DeviceInfoView {
    /// The snapshot of a device of which nothing is known.
    pub open spec fn empty() -> DeviceInfoView {
        DeviceInfoView {
            discovered_adapter_name: Seq::empty(),
            name: Seq::empty(),
            alias: Seq::empty(),
            address: seq![0u8, 0u8, 0u8, 0u8, 0u8, 0u8],
            address_string: Seq::empty(),
            address_type: Seq::empty(),
            class: 0,
            device_major_name: Seq::empty(),
            device_minor_name: Seq::empty(),
            service_categories: Seq::empty(),
            uuids: Seq::empty(),
            is_paired: false,
            is_connected: false,
            is_trusted: false,
            is_blocked: false,
            is_wake_allowed: false,
            is_legacy_pairing: false,
            battery_percentage: 0,
        }
    }

    /// The snapshot after one property change: the change overwrites the
    /// field it is about (a class value also its decoded names, a list of
    /// UUIDs the listing of services) and leaves every other field as it
    /// was.
    pub open spec fn updated(self, property: DevicePropertyView) -> DeviceInfoView {
        match property {
            DevicePropertyView::Name(name) => DeviceInfoView { name, ..self },
            DevicePropertyView::AddressType(kind) => DeviceInfoView {
                address_type: address_type_text(kind),
                ..self
            },
            DevicePropertyView::Class(class) => DeviceInfoView {
                class,
                device_major_name: major_name_or_unknown(class),
                device_minor_name: minor_name_or_unknown(class),
                service_categories: categories_or_none(class),
                ..self
            },
            DevicePropertyView::Uuids(uuids) => DeviceInfoView {
                uuids: service_entries(uuids),
                ..self
            },
            DevicePropertyView::Paired(is_paired) => DeviceInfoView { is_paired, ..self },
            DevicePropertyView::Connected(is_connected) => DeviceInfoView { is_connected, ..self },
            DevicePropertyView::Trusted(is_trusted) => DeviceInfoView { is_trusted, ..self },
            DevicePropertyView::Blocked(is_blocked) => DeviceInfoView { is_blocked, ..self },
            DevicePropertyView::WakeAllowed(is_wake_allowed) => DeviceInfoView {
                is_wake_allowed,
                ..self
            },
            DevicePropertyView::Alias(alias) => DeviceInfoView { alias, ..self },
            DevicePropertyView::LegacyPairing(is_legacy_pairing) => DeviceInfoView {
                is_legacy_pairing,
                ..self
            },
            DevicePropertyView::BatteryPercentage(battery_percentage) => DeviceInfoView {
                battery_percentage,
                ..self
            },
            DevicePropertyView::Other => self,
        }
    }

    /// The snapshot after a list of property changes, applied in order.
    pub open spec fn updated_all(self, properties: Seq<DevicePropertyView>) -> DeviceInfoView
        decreases properties.len(),
    {
        if properties.len() == 0 {
            self
        } else {
            self.updated_all(properties.drop_last()).updated(properties.last())
        }
    }
}

impl View for DeviceInfo {
    type V = DeviceInfoView;

    open spec fn view(&self) -> DeviceInfoView {
        DeviceInfoView {
            discovered_adapter_name: self.discovered_adapter_name@,
            name: self.name@,
            alias: self.alias@,
            address: self.address@,
            address_string: self.address_string@,
            address_type: self.address_type@,
            class: self.class,
            device_major_name: self.device_major_name@,
            device_minor_name: self.device_minor_name@,
            service_categories: texts(self.service_categories@),
            uuids: pair_texts(self.uuids@),
            is_paired: self.is_paired,
            is_connected: self.is_connected,
            is_trusted: self.is_trusted,
            is_blocked: self.is_blocked,
            is_wake_allowed: self.is_wake_allowed,
            is_legacy_pairing: self.is_legacy_pairing,
            battery_percentage: self.battery_percentage,
        }
    }
}

/// Copies a list of strings.
pub(crate) fn clone_strings(strings: &Vec<String>) -> (copy: Vec<String>)
    ensures
        copy@ == strings@,
{
    let mut copy: Vec<String> = Vec::new();
    let mut index: usize = 0;
    while index < strings.len()
        invariant
            index <= strings.len(),
            copy@ == strings@.take(index as int),
        decreases strings.len() - index,
    {
        copy.push(strings[index].clone());
        assert(copy@ =~= strings@.take(index + 1));
        index += 1;
    }
    assert(strings@.take(strings.len() as int) =~= strings@);
    copy
}

/// Copies a list of pairs of strings.
pub(crate) fn clone_pairs(pairs: &Vec<(String, String)>) -> (copy: Vec<(String, String)>)
    ensures
        copy@ == pairs@,
{
    let mut copy: Vec<(String, String)> = Vec::new();
    let mut index: usize = 0;
    while index < pairs.len()
        invariant
            index <= pairs.len(),
            copy@ == pairs@.take(index as int),
        decreases pairs.len() - index,
    {
        let pair = &pairs[index];
        copy.push((pair.0.clone(), pair.1.clone()));
        assert(copy@ =~= pairs@.take(index + 1));
        index += 1;
    }
    assert(pairs@.take(pairs.len() as int) =~= pairs@);
    copy
}

impl Clone for DeviceInfo {
    fn clone(&self) -> (copy: DeviceInfo)
        ensures
            copy@ == self@,
    {
        DeviceInfo {
            discovered_adapter_name: self.discovered_adapter_name.clone(),
            name: self.name.clone(),
            alias: self.alias.clone(),
            address: self.address,
            address_string: self.address_string.clone(),
            address_type: self.address_type.clone(),
            class: self.class,
            device_major_name: self.device_major_name.clone(),
            device_minor_name: self.device_minor_name.clone(),
            service_categories: clone_strings(&self.service_categories),
            uuids: clone_pairs(&self.uuids),
            is_paired: self.is_paired,
            is_connected: self.is_connected,
            is_trusted: self.is_trusted,
            is_blocked: self.is_blocked,
            is_wake_allowed: self.is_wake_allowed,
            is_legacy_pairing: self.is_legacy_pairing,
            battery_percentage: self.battery_percentage,
        }
    }
}

impl Default for DeviceInfo {
    fn default() -> (info: DeviceInfo)
        ensures
            info@ == DeviceInfoView::empty(),
    {
        let info = DeviceInfo {
            discovered_adapter_name: String::new(),
            name: String::new(),
            alias: String::new(),
            address: [0u8; 6],
            address_string: String::new(),
            address_type: String::new(),
            class: 0,
            device_major_name: String::new(),
            device_minor_name: String::new(),
            service_categories: Vec::new(),
            uuids: Vec::new(),
            is_paired: false,
            is_connected: false,
            is_trusted: false,
            is_blocked: false,
            is_wake_allowed: false,
            is_legacy_pairing: false,
            battery_percentage: 0,
        };
        assert(info@.address =~= DeviceInfoView::empty().address);
        assert(info@.service_categories =~= DeviceInfoView::empty().service_categories);
        assert(info@.uuids =~= DeviceInfoView::empty().uuids);
        info
    }
}

/// The three names decoded from a class value: major class and class,
/// each `UNKNOWN` where it cannot be decoded, and the service categories.
pub fn decode_class(class: u32) -> (names: (String, String, Vec<String>))
    ensures
        names.0@ == major_name_or_unknown(class),
        names.1@ == minor_name_or_unknown(class),
        texts(names.2@) == categories_or_none(class),
{
    let major = match get_device_class_name_major(class) {
        Some(name) => name,
        None => "UNKNOWN".to_string(),
    };
    let minor = match get_device_class_name_minor(class) {
        Some(name) => name,
        None => "UNKNOWN".to_string(),
    };
    let categories = match get_service_class_name(class) {
        Some(names) => names,
        None => {
            let none: Vec<String> = Vec::new();
            assert(texts(none@) =~= Seq::<Seq<char>>::empty());
            none
        },
    };
    (major, minor, categories)
}

impl DeviceInfo {
    /// Builds the snapshot that a list of property changes gives, starting
    /// from a device of which nothing is known.
    pub fn from_properties(device_properties: Vec<DeviceProperty>) -> (info: DeviceInfo)
        ensures
            info@ == DeviceInfoView::empty().updated_all(property_views(device_properties@)),
    {
        let mut device_info = DeviceInfo::default();
        device_info.update_properties(device_properties);
        device_info
    }

    /// Applies a list of property changes in order.
    pub fn update_properties(&mut self, properties: Vec<DeviceProperty>)
        ensures
            final(self)@ == old(self)@.updated_all(property_views(properties@)),
    {
        let ghost start = self@;
        let ghost all = properties@;
        for property in it: properties
            invariant
                it.seq() == all,
                self@ == start.updated_all(property_views(all.take(it.index() as int))),
        {
            assert(property_views(all.take(it.index() + 1)).drop_last() =~= property_views(
                all.take(it.index() as int),
            ));
            self.update_property(property);
        }
        assert(all.take(all.len() as int) =~= all);
    }

    /// Applies one property change to the snapshot.
    pub fn update_property(&mut self, property: DeviceProperty)
        ensures
            final(self)@ == old(self)@.updated(property@),
    {
        match property {
            DeviceProperty::Name(device_name) => self.name = device_name,
            DeviceProperty::AddressType(address_type) => {
                self.address_type = address_type.format()
            },
            DeviceProperty::Class(class) => {
                let (major, minor, categories) = decode_class(class);
                self.class = class;
                self.device_major_name = major;
                self.device_minor_name = minor;
                self.service_categories = categories;
            },
            DeviceProperty::Uuids(uuids) => self.uuids = get_uuid_local_service_names(uuids),
            DeviceProperty::Paired(paired) => self.is_paired = paired,
            DeviceProperty::Connected(connected) => self.is_connected = connected,
            DeviceProperty::Trusted(trusted) => self.is_trusted = trusted,
            DeviceProperty::Blocked(blocked) => self.is_blocked = blocked,
            DeviceProperty::WakeAllowed(wake_allowed) => self.is_wake_allowed = wake_allowed,
            DeviceProperty::Alias(alias) => self.alias = alias,
            DeviceProperty::LegacyPairing(legacy_pairing) => {
                self.is_legacy_pairing = legacy_pairing
            },
            DeviceProperty::BatteryPercentage(percent) => self.battery_percentage = percent,
            DeviceProperty::Other => {},
        }
    }
}

/// The snapshot a device gets when it is first seen: what its properties
/// say, with the name of the adapter that saw it and its address filled in.
pub open spec fn first_snapshot(
    adapter_name: Seq<char>,
    address: Seq<u8>,
    properties: Seq<DevicePropertyView>,
) -> DeviceInfoView {
    DeviceInfoView {
        discovered_adapter_name: adapter_name,
        address_string: address_text(address),
        address,
        ..DeviceInfoView::empty().updated_all(properties)
    }
}

/// A property change never touches the address of a snapshot.
pub proof fn lemma_updated_keeps_address(info: DeviceInfoView, property: DevicePropertyView)
    ensures
        info.updated(property).address == info.address,
        info.updated(property).address_string == info.address_string,
        info.updated(property).discovered_adapter_name == info.discovered_adapter_name,
{
}

/// A list of property changes never touches the address of a snapshot.
pub proof fn lemma_updated_all_keeps_address(
    info: DeviceInfoView,
    properties: Seq<DevicePropertyView>,
)
    ensures
        info.updated_all(properties).address == info.address,
        info.updated_all(properties).address_string == info.address_string,
        info.updated_all(properties).discovered_adapter_name == info.discovered_adapter_name,
    decreases properties.len(),
{
    if properties.len() > 0 {
        lemma_updated_all_keeps_address(info, properties.drop_last());
        lemma_updated_keeps_address(
            info.updated_all(properties.drop_last()),
            properties.last(),
        );
    }
}

/// One remote device: its address and the snapshot of its properties.
#[derive(Debug)]
pub struct Device {
    address: Address,
    info: DeviceInfo,
}

impl View for Device {
    type V = DeviceInfoView;

    /// The snapshot the device holds.
    closed spec fn view(&self) -> DeviceInfoView {
        self.info@
    }
}

impl Device {
    /// The bytes of the address under which the device is known.
    pub closed spec fn address_bytes(&self) -> Seq<u8> {
        self.address.bytes()
    }

    /// Creates the record of a device seen by the adapter `adapter_name`
    /// at `address`, from all the properties the device has.
    pub fn new(adapter_name: &str, address: Address, properties: Vec<DeviceProperty>) -> (device:
        Device)
        ensures
            device.address_bytes() == address.bytes(),
            device@ == first_snapshot(adapter_name@, address.bytes(), property_views(properties@)),
    {
        let mut device_info = DeviceInfo::from_properties(properties);
        device_info.discovered_adapter_name = adapter_name.to_string();
        device_info.address_string = address.format();
        device_info.address = address.0;
        Device { address, info: device_info }
    }

    /// The address under which the device is known.
    pub fn address(&self) -> (address: &Address)
        ensures
            address.bytes() == self.address_bytes(),
    {
        &self.address
    }

    /// The snapshot the device holds.
    pub fn device_info(&self) -> (info: &DeviceInfo)
        ensures
            info@ == self@,
    {
        &self.info
    }

    /// Applies one property change and returns a copy of the new snapshot.
    pub fn update_device_property(&mut self, property: DeviceProperty) -> (info: DeviceInfo)
        ensures
            final(self).address_bytes() == old(self).address_bytes(),
            final(self)@ == old(self)@.updated(property@),
            info@ == final(self)@,
    {
        self.info.update_property(property);
        self.info.clone()
    }

    /// Applies all the properties that the device was found to have and
    /// returns the new snapshot.
    pub fn refresh_properties(&mut self, properties: Vec<DeviceProperty>) -> (info: &DeviceInfo)
        ensures
            final(self).address_bytes() == old(self).address_bytes(),
            final(self)@ == old(self)@.updated_all(property_views(properties@)),
            info@ == final(self)@,
    {
        self.info.update_properties(properties);
        &self.info
    }
}

} // verus!
