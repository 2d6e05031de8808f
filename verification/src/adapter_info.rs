//! Snapshot of the adapter and the property changes that shape it.

use crate::address::{address_text, address_type_text, Address, AddressType};
use crate::device::{
    categories_or_none, clone_pairs, clone_strings, decode_class, major_name_or_unknown,
    minor_name_or_unknown,
};
use crate::utils::{get_uuid_local_service_names, pair_texts, service_entries, texts};
use vstd::prelude::*;

verus! {

/// What a controller can do when it advertises.
#[derive(Clone, Copy, Debug)]
pub struct Capabilities {
    /// Longest advertisement, in bytes.
    pub max_advertisement_length: u8,
    /// Longest scan response, in bytes.
    pub max_scan_response_length: u8,
    /// Lowest transmit power, in dBm.
    pub min_tx_power: i16,
    /// Highest transmit power, in dBm.
    pub max_tx_power: i16,
}

/// One change of a property of the adapter, as the Bluetooth stack
/// reports it.
pub enum AdapterProperty {
    /// The hardware address of the adapter.
    Address(Address),
    /// The kind of address the adapter uses.
    AddressType(AddressType),
    /// The name the system gave the adapter.
    SystemName(String),
    /// The name the user gave the adapter.
    Alias(String),
    /// The raw class-of-device value.
    Class(u32),
    /// Whether the adapter is switched on.
    Powered(bool),
    /// Whether other devices can find the adapter.
    Discoverable(bool),
    /// Whether other devices can pair with the adapter.
    Pairable(bool),
    /// Seconds after which the adapter stops being pairable; zero for never.
    PairableTimeout(u32),
    /// Seconds after which the adapter stops being discoverable; zero for never.
    DiscoverableTimeout(u32),
    /// Whether the Bluetooth stack is looking for devices.
    Discovering(bool),
    /// The 128-bit values of the UUIDs of the local services.
    Uuids(Vec<u128>),
    /// How many advertisements are being sent.
    ActiveAdvertisingInstances(u8),
    /// How many advertisements can be sent at once.
    SupportedAdvertisingInstances(u8),
    /// The names of what the system can put into an advertisement.
    SupportedAdvertisingSystemIncludes(Vec<String>),
    /// What the controller can do when it advertises.
    SupportedAdvertisingCapabilities(Capabilities),
    /// The names of the advertising features of the platform.
    SupportedAdvertisingFeatures(Vec<String>),
    /// A property of which the snapshot keeps nothing.
    Other,
}

/// What an [`AdapterProperty`] says, as mathematical values.
pub enum AdapterPropertyView {
    Address(Seq<u8>),
    AddressType(AddressType),
    SystemName(Seq<char>),
    Alias(Seq<char>),
    Class(u32),
    Powered(bool),
    Discoverable(bool),
    Pairable(bool),
    PairableTimeout(u32),
    DiscoverableTimeout(u32),
    Discovering(bool),
    Uuids(Seq<u128>),
    ActiveAdvertisingInstances(u8),
    SupportedAdvertisingInstances(u8),
    SupportedAdvertisingSystemIncludes(Seq<Seq<char>>),
    SupportedAdvertisingCapabilities(Capabilities),
    SupportedAdvertisingFeatures(Seq<Seq<char>>),
    Other,
}

impl View for AdapterProperty {
    type V = AdapterPropertyView;

    open spec fn view(&self) -> AdapterPropertyView {
        match *self {
            AdapterProperty::Address(address) => AdapterPropertyView::Address(address.bytes()),
            AdapterProperty::AddressType(kind) => AdapterPropertyView::AddressType(kind),
            AdapterProperty::SystemName(name) => AdapterPropertyView::SystemName(name@),
            AdapterProperty::Alias(alias) => AdapterPropertyView::Alias(alias@),
            AdapterProperty::Class(class) => AdapterPropertyView::Class(class),
            AdapterProperty::Powered(on) => AdapterPropertyView::Powered(on),
            AdapterProperty::Discoverable(on) => AdapterPropertyView::Discoverable(on),
            AdapterProperty::Pairable(on) => AdapterPropertyView::Pairable(on),
            AdapterProperty::PairableTimeout(seconds) => AdapterPropertyView::PairableTimeout(
                seconds,
            ),
            AdapterProperty::DiscoverableTimeout(seconds) => {
                AdapterPropertyView::DiscoverableTimeout(seconds)
            },
            AdapterProperty::Discovering(on) => AdapterPropertyView::Discovering(on),
            AdapterProperty::Uuids(uuids) => AdapterPropertyView::Uuids(uuids@),
            AdapterProperty::ActiveAdvertisingInstances(count) => {
                AdapterPropertyView::ActiveAdvertisingInstances(count)
            },
            AdapterProperty::SupportedAdvertisingInstances(count) => {
                AdapterPropertyView::SupportedAdvertisingInstances(count)
            },
            AdapterProperty::SupportedAdvertisingSystemIncludes(names) => {
                AdapterPropertyView::SupportedAdvertisingSystemIncludes(texts(names@))
            },
            AdapterProperty::SupportedAdvertisingCapabilities(capabilities) => {
                AdapterPropertyView::SupportedAdvertisingCapabilities(capabilities)
            },
            AdapterProperty::SupportedAdvertisingFeatures(names) => {
                AdapterPropertyView::SupportedAdvertisingFeatures(texts(names@))
            },
            AdapterProperty::Other => AdapterPropertyView::Other,
        }
    }
}

/// What a list of property changes says, in order.
pub open spec fn adapter_property_views(properties: Seq<AdapterProperty>) -> Seq<
    AdapterPropertyView,
> {
    properties.map_values(|p: AdapterProperty| p@)
}

/// Snapshot of what is known of the adapter.
#[derive(Debug)]
pub struct AdapterInfo {
    pub not_found: bool,
    pub discovering: bool,
    pub address: String,
    pub address_type: String,
    pub alias: String,
    pub pairable: bool,
    pub name: String,
    pub is_discoverable: bool,
    pub is_powered: bool,
    pub system_name: String,
    pub pairable_timeout: u32,
    pub discoverable_timeout: u32,
    pub class: u32,
    pub device_major_name: String,
    pub device_minor_name: String,
    pub service_categories: Vec<String>,
    pub icon: String,
    pub active_advertising_instances: u8,
    pub supported_advertising_instances: u8,
    pub supported_advertising_system_includes: Vec<String>,
    pub supported_advertising_features: Vec<String>,
    pub max_advertisement_length: u8,
    pub max_scan_response_length: u8,
    pub min_tx_power: i16,
    pub max_tx_power: i16,
    pub uuids: Vec<(String, String)>,
}

/// An [`AdapterInfo`] as mathematical values.
pub struct AdapterInfoView {
    pub not_found: bool,
    pub discovering: bool,
    pub address: Seq<char>,
    pub address_type: Seq<char>,
    pub alias: Seq<char>,
    pub pairable: bool,
    pub name: Seq<char>,
    pub is_discoverable: bool,
    pub is_powered: bool,
    pub system_name: Seq<char>,
    pub pairable_timeout: u32,
    pub discoverable_timeout: u32,
    pub class: u32,
    pub device_major_name: Seq<char>,
    pub device_minor_name: Seq<char>,
    pub service_categories: Seq<Seq<char>>,
    pub icon: Seq<char>,
    pub active_advertising_instances: u8,
    pub supported_advertising_instances: u8,
    pub supported_advertising_system_includes: Seq<Seq<char>>,
    pub supported_advertising_features: Seq<Seq<char>>,
    pub max_advertisement_length: u8,
    pub max_scan_response_length: u8,
    pub min_tx_power: i16,
    pub max_tx_power: i16,
    pub uuids: Seq<(Seq<char>, Seq<char>)>,
}

impl AdapterInfoView {
    /// The snapshot of an adapter of which nothing is known.
    pub open spec fn empty() -> AdapterInfoView {
        AdapterInfoView {
            not_found: false,
            discovering: false,
            address: Seq::empty(),
            address_type: Seq::empty(),
            alias: Seq::empty(),
            pairable: false,
            name: Seq::empty(),
            is_discoverable: false,
            is_powered: false,
            system_name: Seq::empty(),
            pairable_timeout: 0,
            discoverable_timeout: 0,
            class: 0,
            device_major_name: Seq::empty(),
            device_minor_name: Seq::empty(),
            service_categories: Seq::empty(),
            icon: Seq::empty(),
            active_advertising_instances: 0,
            supported_advertising_instances: 0,
            supported_advertising_system_includes: Seq::empty(),
            supported_advertising_features: Seq::empty(),
            max_advertisement_length: 0,
            max_scan_response_length: 0,
            min_tx_power: 0,
            max_tx_power: 0,
            uuids: Seq::empty(),
        }
    }

    /// The snapshot after one property change: the change overwrites the
    /// field it is about (an address its text, a class value also its
    /// decoded names, a list of UUIDs the listing of services) and leaves
    /// every other field as it was.
    pub open spec fn updated(self, property: AdapterPropertyView) -> AdapterInfoView {
        match property {
            AdapterPropertyView::Address(address) => AdapterInfoView {
                address: address_text(address),
                ..self
            },
            AdapterPropertyView::AddressType(kind) => AdapterInfoView {
                address_type: address_type_text(kind),
                ..self
            },
            AdapterPropertyView::SystemName(system_name) => AdapterInfoView { system_name, ..self },
            AdapterPropertyView::Alias(alias) => AdapterInfoView { alias, ..self },
            AdapterPropertyView::Class(class) => AdapterInfoView {
                class,
                device_major_name: major_name_or_unknown(class),
                device_minor_name: minor_name_or_unknown(class),
                service_categories: categories_or_none(class),
                ..self
            },
            AdapterPropertyView::Powered(is_powered) => AdapterInfoView { is_powered, ..self },
            AdapterPropertyView::Discoverable(is_discoverable) => AdapterInfoView {
                is_discoverable,
                ..self
            },
            AdapterPropertyView::Pairable(pairable) => AdapterInfoView { pairable, ..self },
            AdapterPropertyView::PairableTimeout(pairable_timeout) => AdapterInfoView {
                pairable_timeout,
                ..self
            },
            AdapterPropertyView::DiscoverableTimeout(discoverable_timeout) => AdapterInfoView {
                discoverable_timeout,
                ..self
            },
            AdapterPropertyView::Discovering(discovering) => AdapterInfoView {
                discovering,
                ..self
            },
            AdapterPropertyView::Uuids(uuids) => AdapterInfoView {
                uuids: service_entries(uuids),
                ..self
            },
            AdapterPropertyView::ActiveAdvertisingInstances(active_advertising_instances) => {
                AdapterInfoView { active_advertising_instances, ..self }
            },
            AdapterPropertyView::SupportedAdvertisingInstances(
                supported_advertising_instances,
            ) => AdapterInfoView { supported_advertising_instances, ..self },
            AdapterPropertyView::SupportedAdvertisingSystemIncludes(
                supported_advertising_system_includes,
            ) => AdapterInfoView { supported_advertising_system_includes, ..self },
            AdapterPropertyView::SupportedAdvertisingCapabilities(capabilities) => {
                AdapterInfoView {
                    max_advertisement_length: capabilities.max_advertisement_length,
                    max_scan_response_length: capabilities.max_scan_response_length,
                    max_tx_power: capabilities.max_tx_power,
                    min_tx_power: capabilities.min_tx_power,
                    ..self
                }
            },
            AdapterPropertyView::SupportedAdvertisingFeatures(supported_advertising_features) => {
                AdapterInfoView { supported_advertising_features, ..self }
            },
            AdapterPropertyView::Other => self,
        }
    }

    /// The snapshot after a list of property changes, applied in order.
    pub open spec fn updated_all(self, properties: Seq<AdapterPropertyView>) -> AdapterInfoView
        decreases properties.len(),
    {
        if properties.len() == 0 {
            self
        } else {
            self.updated_all(properties.drop_last()).updated(properties.last())
        }
    }
}

impl View for AdapterInfo {
    type V = AdapterInfoView;

    open spec fn view(&self) -> AdapterInfoView {
        AdapterInfoView {
            not_found: self.not_found,
            discovering: self.discovering,
            address: self.address@,
            address_type: self.address_type@,
            alias: self.alias@,
            pairable: self.pairable,
            name: self.name@,
            is_discoverable: self.is_discoverable,
            is_powered: self.is_powered,
            system_name: self.system_name@,
            pairable_timeout: self.pairable_timeout,
            discoverable_timeout: self.discoverable_timeout,
            class: self.class,
            device_major_name: self.device_major_name@,
            device_minor_name: self.device_minor_name@,
            service_categories: texts(self.service_categories@),
            icon: self.icon@,
            active_advertising_instances: self.active_advertising_instances,
            supported_advertising_instances: self.supported_advertising_instances,
            supported_advertising_system_includes: texts(
                self.supported_advertising_system_includes@,
            ),
            supported_advertising_features: texts(self.supported_advertising_features@),
            max_advertisement_length: self.max_advertisement_length,
            max_scan_response_length: self.max_scan_response_length,
            min_tx_power: self.min_tx_power,
            max_tx_power: self.max_tx_power,
            uuids: pair_texts(self.uuids@),
        }
    }
}

impl Clone for AdapterInfo {
    fn clone(&self) -> (copy: AdapterInfo)
        ensures
            copy@ == self@,
    {
        AdapterInfo {
            not_found: self.not_found,
            discovering: self.discovering,
            address: self.address.clone(),
            address_type: self.address_type.clone(),
            alias: self.alias.clone(),
            pairable: self.pairable,
            name: self.name.clone(),
            is_discoverable: self.is_discoverable,
            is_powered: self.is_powered,
            system_name: self.system_name.clone(),
            pairable_timeout: self.pairable_timeout,
            discoverable_timeout: self.discoverable_timeout,
            class: self.class,
            device_major_name: self.device_major_name.clone(),
            device_minor_name: self.device_minor_name.clone(),
            service_categories: clone_strings(&self.service_categories),
            icon: self.icon.clone(),
            active_advertising_instances: self.active_advertising_instances,
            supported_advertising_instances: self.supported_advertising_instances,
            supported_advertising_system_includes: clone_strings(
                &self.supported_advertising_system_includes,
            ),
            supported_advertising_features: clone_strings(&self.supported_advertising_features),
            max_advertisement_length: self.max_advertisement_length,
            max_scan_response_length: self.max_scan_response_length,
            min_tx_power: self.min_tx_power,
            max_tx_power: self.max_tx_power,
            uuids: clone_pairs(&self.uuids),
        }
    }
}

impl Default for AdapterInfo {
    fn default() -> (info: AdapterInfo)
        ensures
            info@ == AdapterInfoView::empty(),
    {
        let info = AdapterInfo {
            not_found: false,
            discovering: false,
            address: String::new(),
            address_type: String::new(),
            alias: String::new(),
            pairable: false,
            name: String::new(),
            is_discoverable: false,
            is_powered: false,
            system_name: String::new(),
            pairable_timeout: 0,
            discoverable_timeout: 0,
            class: 0,
            device_major_name: String::new(),
            device_minor_name: String::new(),
            service_categories: Vec::new(),
            icon: String::new(),
            active_advertising_instances: 0,
            supported_advertising_instances: 0,
            supported_advertising_system_includes: Vec::new(),
            supported_advertising_features: Vec::new(),
            max_advertisement_length: 0,
            max_scan_response_length: 0,
            min_tx_power: 0,
            max_tx_power: 0,
            uuids: Vec::new(),
        };
        assert(info@.service_categories =~= AdapterInfoView::empty().service_categories);
        assert(info@.supported_advertising_system_includes
            =~= AdapterInfoView::empty().supported_advertising_system_includes);
        assert(info@.supported_advertising_features
            =~= AdapterInfoView::empty().supported_advertising_features);
        assert(info@.uuids =~= AdapterInfoView::empty().uuids);
        info
    }
}

impl AdapterInfo {
    /// Builds the snapshot that a list of property changes gives, starting
    /// from an adapter of which nothing is known.
    pub fn from_properties(properties: Vec<AdapterProperty>) -> (info: AdapterInfo)
        ensures
            info@ == AdapterInfoView::empty().updated_all(adapter_property_views(properties@)),
    {
        let mut adapter_info = AdapterInfo::default();
        adapter_info.not_found = false;
        let ghost start = adapter_info@;
        let ghost all = properties@;
        for property in it: properties
            invariant
                it.seq() == all,
                adapter_info@ == start.updated_all(
                    adapter_property_views(all.take(it.index() as int)),
                ),
        {
            assert(adapter_property_views(all.take(it.index() + 1)).drop_last()
                =~= adapter_property_views(all.take(it.index() as int)));
            adapter_info.update_property(property);
        }
        assert(all.take(all.len() as int) =~= all);
        adapter_info
    }

    /// Applies one property change to the snapshot.
    pub fn update_property(&mut self, property: AdapterProperty)
        ensures
            final(self)@ == old(self)@.updated(property@),
    {
        match property {
            AdapterProperty::Address(address) => self.address = address.format(),
            AdapterProperty::AddressType(address_type) => {
                self.address_type = address_type.format()
            },
            AdapterProperty::SystemName(system_name) => self.system_name = system_name,
            AdapterProperty::Alias(alias) => self.alias = alias,
            AdapterProperty::Class(class) => {
                let (major, minor, categories) = decode_class(class);
                self.class = class;
                self.device_major_name = major;
                self.device_minor_name = minor;
                self.service_categories = categories;
            },
            AdapterProperty::Powered(is_powered) => self.is_powered = is_powered,
            AdapterProperty::Discoverable(is_discoverable) => {
                self.is_discoverable = is_discoverable
            },
            AdapterProperty::Pairable(pairable) => self.pairable = pairable,
            AdapterProperty::PairableTimeout(pairable_timeout) => {
                self.pairable_timeout = pairable_timeout
            },
            AdapterProperty::DiscoverableTimeout(discoverable_timeout) => {
                self.discoverable_timeout = discoverable_timeout
            },
            AdapterProperty::Discovering(scanning) => self.discovering = scanning,
            AdapterProperty::Uuids(uuids) => self.uuids = get_uuid_local_service_names(uuids),
            AdapterProperty::ActiveAdvertisingInstances(active_advertising_instances) => {
                self.active_advertising_instances = active_advertising_instances
            },
            AdapterProperty::SupportedAdvertisingInstances(supported_advertising_instances) => {
                self.supported_advertising_instances = supported_advertising_instances
            },
            AdapterProperty::SupportedAdvertisingSystemIncludes(
                supported_advertising_system_includes,
            ) => {
                self.supported_advertising_system_includes = supported_advertising_system_includes
            },
            AdapterProperty::SupportedAdvertisingCapabilities(capabilities) => {
                self.max_advertisement_length = capabilities.max_advertisement_length;
                self.max_scan_response_length = capabilities.max_scan_response_length;
                self.max_tx_power = capabilities.max_tx_power;
                self.min_tx_power = capabilities.min_tx_power
            },
            AdapterProperty::SupportedAdvertisingFeatures(supported_advertising_features) => {
                self.supported_advertising_features = supported_advertising_features
            },
            AdapterProperty::Other => (),
        }
    }
}

} // verus!
