//! The registry of remote devices, one entry for each hardware address.

use crate::address::{address_key, lemma_address_key_injective, Address};
use crate::device::{
    first_snapshot, lemma_updated_all_keeps_address, lemma_updated_keeps_address, property_views,
    Device, DeviceInfo, DeviceInfoView, DeviceProperty, DevicePropertyView,
};
use crate::text::{lemma_text_le_total, lemma_text_le_transitive, string_le, text_le};
use std::collections::HashMap;
use vstd::prelude::*;
use vstd::std_specs::hash::group_hash_axioms;
use vstd::std_specs::iter::IteratorSpec;

verus! {

broadcast use group_hash_axioms;

/// What a registry holds, as a map from the key of an address to the
/// snapshot filed under it.
pub type Registry = Map<u64, DeviceInfoView>;

/// Whether a registry is in order: it is finite, and every snapshot is
/// filed under the key of its own six-byte address.
pub open spec fn registry_wf(registry: Registry) -> bool {
    &&& registry.dom().finite()
    &&& forall|key: u64| #[trigger]
        registry.contains_key(key) ==> registry[key].address.len() == 6 && address_key(
            registry[key].address,
        ) == key
}

/// The registry after the device at `address` was reported with all its
/// properties: a known device takes the properties over, an unknown one
/// is entered with its first snapshot.
pub open spec fn registry_added(
    registry: Registry,
    adapter_name: Seq<char>,
    address: Seq<u8>,
    properties: Seq<DevicePropertyView>,
) -> Registry {
    let key = address_key(address) as u64;
    if registry.contains_key(key) {
        registry.insert(key, registry[key].updated_all(properties))
    } else {
        registry.insert(key, first_snapshot(adapter_name, address, properties))
    }
}

/// The registry after the device at `address` was reported gone.
pub open spec fn registry_removed(registry: Registry, address: Seq<u8>) -> Registry {
    registry.remove(address_key(address) as u64)
}

/// The registry after one property of the device at `address` changed:
/// unchanged where the device is unknown.
pub open spec fn registry_updated(
    registry: Registry,
    address: Seq<u8>,
    property: DevicePropertyView,
) -> Registry {
    let key = address_key(address) as u64;
    if registry.contains_key(key) {
        registry.insert(key, registry[key].updated(property))
    } else {
        registry
    }
}

/// What an enumeration of devices says: for each device its address and
/// the properties it was found to have.
pub open spec fn enumeration_views(devices: Seq<(Address, Vec<DeviceProperty>)>) -> Seq<
    (Seq<u8>, Seq<DevicePropertyView>),
> {
    devices.map_values(
        |entry: (Address, Vec<DeviceProperty>)| (entry.0.bytes(), property_views(entry.1@)),
    )
}

/// The registry built from an enumeration of devices: each device is
/// entered with its first snapshot, a later entry for an address taking
/// the place of an earlier one.
pub open spec fn registry_enumerated(
    adapter_name: Seq<char>,
    devices: Seq<(Seq<u8>, Seq<DevicePropertyView>)>,
) -> Registry
    decreases devices.len(),
{
    if devices.len() == 0 {
        Map::empty()
    } else {
        registry_enumerated(adapter_name, devices.drop_last()).insert(
            address_key(devices.last().0) as u64,
            first_snapshot(adapter_name, devices.last().0, devices.last().1),
        )
    }
}

/// Whether a device with snapshot `a` may stand before one with snapshot
/// `b` in a listing: a device that is not connected stands before a
/// connected one, and of two devices that are both connected, or both
/// not, the one whose name comes first.
pub open spec fn listed_before(a: DeviceInfoView, b: DeviceInfoView) -> bool {
    if a.is_connected == b.is_connected {
        text_le(a.name, b.name)
    } else {
        !a.is_connected
    }
}

/// Whether a listing is in order: every entry may stand before every
/// later one.
pub open spec fn listing_sorted(listing: Seq<DeviceInfoView>) -> bool {
    forall|i: int, j: int|
        0 <= i < j < listing.len() ==> listed_before(#[trigger] listing[i], #[trigger] listing[j])
}

/// Whether a listing shows a registry: it has one entry for each device
/// of the registry, with the snapshot the registry holds for it.
pub open spec fn listing_of(listing: Seq<DeviceInfoView>, registry: Registry) -> bool {
    &&& listing.len() == registry.dom().len()
    &&& forall|i: int|
        0 <= i < listing.len() ==> registry.contains_key(
            address_key((#[trigger] listing[i]).address) as u64,
        ) && registry[address_key(listing[i].address) as u64] == listing[i]
    &&& forall|i: int, j: int|
        0 <= i < j < listing.len() ==> (#[trigger] listing[i]).address != (
        #[trigger] listing[j]).address
}

/// The snapshots of a list of device snapshots.
pub open spec fn info_views(infos: Seq<DeviceInfo>) -> Seq<DeviceInfoView> {
    infos.map_values(|info: DeviceInfo| info@)
}

/// Of two snapshots, one may stand before the other.
pub proof fn lemma_listed_before_total(a: DeviceInfoView, b: DeviceInfoView)
    ensures
        listed_before(a, b) || listed_before(b, a),
{
    lemma_text_le_total(a.name, b.name);
}

/// If `a` may stand before `b` and `b` before `c`, then `a` may stand
/// before `c`.
pub proof fn lemma_listed_before_transitive(
    a: DeviceInfoView,
    b: DeviceInfoView,
    c: DeviceInfoView,
)
    requires
        listed_before(a, b),
        listed_before(b, c),
    ensures
        listed_before(a, c),
{
    if a.is_connected == b.is_connected && b.is_connected == c.is_connected {
        lemma_text_le_transitive(a.name, b.name, c.name);
    }
}

/// Tells whether the device with snapshot `a` may stand before the one
/// with snapshot `b` in a listing.
pub fn may_stand_before(a: &DeviceInfo, b: &DeviceInfo) -> (yes: bool)
    ensures
        yes == listed_before(a@, b@),
{
    if a.is_connected == b.is_connected {
        string_le(a.name.as_str(), b.name.as_str())
    } else {
        !a.is_connected
    }
}

/// One step in the life of a registry.
pub enum RegistryOperation {
    /// The device at the address was reported with all its properties.
    Add(Seq<u8>, Seq<DevicePropertyView>),
    /// The device at the address was reported gone.
    Remove(Seq<u8>),
    /// One property of the device at the address changed.
    Update(Seq<u8>, DevicePropertyView),
}

impl RegistryOperation {
    /// The address the operation is about.
    pub open spec fn address(self) -> Seq<u8> {
        match self {
            RegistryOperation::Add(address, properties) => address,
            RegistryOperation::Remove(address) => address,
            RegistryOperation::Update(address, property) => address,
        }
    }
}

/// The registry after one operation.
pub open spec fn registry_after(
    registry: Registry,
    adapter_name: Seq<char>,
    operation: RegistryOperation,
) -> Registry {
    match operation {
        RegistryOperation::Add(address, properties) => registry_added(
            registry,
            adapter_name,
            address,
            properties,
        ),
        RegistryOperation::Remove(address) => registry_removed(registry, address),
        RegistryOperation::Update(address, property) => registry_updated(
            registry,
            address,
            property,
        ),
    }
}

/// The registry after a sequence of operations, the first one first.
pub open spec fn registry_after_all(
    registry: Registry,
    adapter_name: Seq<char>,
    operations: Seq<RegistryOperation>,
) -> Registry
    decreases operations.len(),
{
    if operations.len() == 0 {
        registry
    } else {
        registry_after(
            registry_after_all(registry, adapter_name, operations.drop_last()),
            adapter_name,
            operations.last(),
        )
    }
}

/// An operation on a six-byte address leaves a registry in order.
pub proof fn lemma_operation_keeps_registry_in_order(
    registry: Registry,
    adapter_name: Seq<char>,
    operation: RegistryOperation,
)
    requires
        registry_wf(registry),
        operation.address().len() == 6,
    ensures
        registry_wf(registry_after(registry, adapter_name, operation)),
{
    let key = address_key(operation.address()) as u64;
    match operation {
        RegistryOperation::Add(address, properties) => {
            lemma_updated_all_keeps_address(DeviceInfoView::empty(), properties);
            if registry.contains_key(key) {
                lemma_updated_all_keeps_address(registry[key], properties);
            }
        },
        RegistryOperation::Remove(address) => {},
        RegistryOperation::Update(address, property) => {
            if registry.contains_key(key) {
                lemma_updated_keeps_address(registry[key], property);
            }
        },
    }
}

/// Whatever sequence of additions, removals and updates a registry goes
/// through, it stays in order: every snapshot is filed under the key of
/// its own address.
pub proof fn law_operations_keep_registry_in_order(
    registry: Registry,
    adapter_name: Seq<char>,
    operations: Seq<RegistryOperation>,
)
    requires
        registry_wf(registry),
        forall|i: int|
            0 <= i < operations.len() ==> (#[trigger] operations[i]).address().len() == 6,
    ensures
        registry_wf(registry_after_all(registry, adapter_name, operations)),
    decreases operations.len(),
{
    if operations.len() > 0 {
        law_operations_keep_registry_in_order(registry, adapter_name, operations.drop_last());
        lemma_operation_keeps_registry_in_order(
            registry_after_all(registry, adapter_name, operations.drop_last()),
            adapter_name,
            operations.last(),
        );
    }
}

/// A registry that is in order never holds two entries for one address.
pub proof fn law_one_entry_for_each_address(registry: Registry, first: u64, second: u64)
    requires
        registry_wf(registry),
        registry.contains_key(first),
        registry.contains_key(second),
        registry[first].address == registry[second].address,
    ensures
        first == second,
{
}

/// In a listing that is in order, no connected device stands before one
/// that is not connected, and of two devices that are both connected, or
/// both not, the one that stands first has the name that comes no later.
pub proof fn law_listing_order(listing: Seq<DeviceInfoView>, i: int, j: int)
    requires
        listing_sorted(listing),
        0 <= i < j < listing.len(),
    ensures
        listing[i].is_connected ==> listing[j].is_connected,
        listing[i].is_connected == listing[j].is_connected ==> text_le(
            listing[i].name,
            listing[j].name,
        ),
{
    assert(listed_before(listing[i], listing[j]));
}

/// The registry of the devices an adapter has seen.
pub struct DeviceList {
    base: HashMap<u64, Device>,
    adapter_name: String,
}

impl View for DeviceList {
    type V = Registry;

    closed spec fn view(&self) -> Registry {
        self.base@.map_values(|device: Device| device@)
    }
}

impl DeviceList {
    /// The name of the adapter whose devices the registry holds.
    pub closed spec fn adapter_name(&self) -> Seq<char> {
        self.adapter_name@
    }

    /// Whether the registry is in order: every device is filed under the
    /// key of its own address, which is also the address in its snapshot.
    pub closed spec fn wf(&self) -> bool {
        &&& registry_wf(self@)
        &&& forall|key: u64| #[trigger]
            self.base@.contains_key(key) ==> self.base@[key].address_bytes()
                == self.base@[key]@.address
    }

    /// A registry that is in order holds a well-formed map.
    pub proof fn lemma_wf(&self)
        requires
            self.wf(),
        ensures
            registry_wf(self@),
    {
    }

    /// Builds the registry of the adapter `adapter_name` from the devices
    /// it knows, each given by its address and all its properties.
    pub fn new(adapter_name: String, devices: Vec<(Address, Vec<DeviceProperty>)>) -> (list:
        DeviceList)
        ensures
            list.wf(),
            list.adapter_name() == adapter_name@,
            list@ == registry_enumerated(adapter_name@, enumeration_views(devices@)),
    {
        let mut base: HashMap<u64, Device> = HashMap::new();
        let ghost all = devices@;
        let ghost name = adapter_name@;
        assert(base@.map_values(|device: Device| device@) =~= registry_enumerated(
            name,
            enumeration_views(all.take(0)),
        ));
        for entry in it: devices
            invariant
                it.seq() == all,
                name == adapter_name@,
                base@.map_values(|device: Device| device@) == registry_enumerated(
                    name,
                    enumeration_views(all.take(it.index() as int)),
                ),
                base@.dom().finite(),
                forall|key: u64| #[trigger]
                    base@.contains_key(key) ==> base@[key].address_bytes() == base@[key]@.address
                        && base@[key]@.address.len() == 6 && address_key(base@[key]@.address)
                        == key,
        {
            let (address, properties) = entry;
            proof {
                let grown = enumeration_views(all.take(it.index() + 1));
                assert(grown.drop_last() =~= enumeration_views(all.take(it.index() as int)));
                assert(grown.last() == (address.bytes(), property_views(properties@)));
                lemma_updated_all_keeps_address(
                    DeviceInfoView::empty(),
                    property_views(properties@),
                );
            }
            let key = address.key();
            let device = Device::new(adapter_name.as_str(), address, properties);
            base.insert(key, device);
            assert(base@.map_values(|device: Device| device@) =~= registry_enumerated(
                name,
                enumeration_views(all.take(it.index() + 1)),
            ));
        }
        assert(all.take(all.len() as int) =~= all);
        let list = DeviceList { base, adapter_name };
        proof {
            assert(list@.dom() =~= list.base@.dom());
            assert forall|key: u64| #[trigger] list@.contains_key(key) implies list@[key].address.len()
                == 6 && address_key(list@[key].address) == key by {
                assert(list.base@.contains_key(key));
            }
        }
        list
    }

    /// Enters the device at `address` with all the properties it was found
    /// to have, or refreshes it with them if it is already known, and
    /// returns a copy of its snapshot.
    pub fn add_device(&mut self, address: Address, properties: Vec<DeviceProperty>) -> (info:
        DeviceInfo)
        requires
            old(self).wf(),
        ensures
            final(self).wf(),
            final(self).adapter_name() == old(self).adapter_name(),
            final(self)@ == registry_added(
                old(self)@,
                old(self).adapter_name(),
                address.bytes(),
                property_views(properties@),
            ),
            info@ == final(self)@[address_key(address.bytes()) as u64],
    {
        let key = address.key();
        let ghost views = property_views(properties@);
        let device = match self.base.remove(&key) {
            Some(mut device) => {
                proof {
                    lemma_updated_all_keeps_address(device@, views);
                }
                device.refresh_properties(properties);
                device
            },
            None => Device::new(self.adapter_name.as_str(), address, properties),
        };
        let device_info = device.device_info().clone();
        self.base.insert(key, device);
        proof {
            lemma_updated_all_keeps_address(DeviceInfoView::empty(), views);
            assert(self@ =~= registry_added(
                old(self)@,
                old(self).adapter_name(),
                address.bytes(),
                views,
            ));
        }
        device_info
    }

    /// Drops the device at `address` and returns its last snapshot, if it
    /// was known.
    pub fn remove_device(&mut self, address: Address) -> (removed: Option<DeviceInfo>)
        requires
            old(self).wf(),
        ensures
            final(self).wf(),
            final(self).adapter_name() == old(self).adapter_name(),
            final(self)@ == registry_removed(old(self)@, address.bytes()),
            match removed {
                Some(info) => old(self)@.contains_key(address_key(address.bytes()) as u64)
                    && info@ == old(self)@[address_key(address.bytes()) as u64],
                None => !old(self)@.contains_key(address_key(address.bytes()) as u64),
            },
    {
        let key = address.key();
        let device = self.base.remove(&key);
        assert(self@ =~= registry_removed(old(self)@, address.bytes()));
        match device {
            Some(device) => Some(device.device_info().clone()),
            None => None,
        }
    }

    /// Applies one property change to the device at `address` and returns
    /// a copy of its new snapshot, if the device is known.
    pub fn update_device(&mut self, address: Address, property: DeviceProperty) -> (updated:
        Option<DeviceInfo>)
        requires
            old(self).wf(),
        ensures
            final(self).wf(),
            final(self).adapter_name() == old(self).adapter_name(),
            final(self)@ == registry_updated(old(self)@, address.bytes(), property@),
            match updated {
                Some(info) => old(self)@.contains_key(address_key(address.bytes()) as u64)
                    && info@ == final(self)@[address_key(address.bytes()) as u64],
                None => !old(self)@.contains_key(address_key(address.bytes()) as u64),
            },
    {
        let key = address.key();
        match self.base.remove(&key) {
            Some(mut device) => {
                proof {
                    lemma_updated_keeps_address(device@, property@);
                }
                let device_info = device.update_device_property(property);
                self.base.insert(key, device);
                assert(self@ =~= registry_updated(old(self)@, address.bytes(), property@));
                Some(device_info)
            },
            None => {
                assert(self@ =~= old(self)@);
                None
            },
        }
    }

    /// The device at `address`, if it is known.
    pub fn get(&self, address: &Address) -> (device: Option<&Device>)
        requires
            self.wf(),
        ensures
            match device {
                Some(device) => self@.contains_key(address_key(address.bytes()) as u64)
                    && device@ == self@[address_key(address.bytes()) as u64]
                    && device.address_bytes() == address.bytes(),
                None => !self@.contains_key(address_key(address.bytes()) as u64),
            },
    {
        let key = address.key();
        let device = self.base.get(&key);
        proof {
            if let Some(found) = device {
                assert(self@.contains_key(key));
                lemma_address_key_injective(found.address_bytes(), address.bytes());
            }
        }
        device
    }

    /// The snapshots of all known devices, freshly copied and put in
    /// order: devices that are not connected before connected ones, and
    /// within each group by ascending name.
    pub fn list(&self) -> (devices: Vec<DeviceInfo>)
        requires
            self.wf(),
        ensures
            listing_of(info_views(devices@), self@),
            listing_sorted(info_views(devices@)),
    {
        let mut devices: Vec<DeviceInfo> = Vec::new();
        let iter = self.base.iter();
        let ghost items = iter.remaining();
        let ghost mut origin: Seq<int> = Seq::empty();
        for entry in it: iter
            invariant
                it.seq() == items,
                items.no_duplicates(),
                items.len() == self.base@.dom().len(),
                forall|i: int|
                    0 <= i < items.len() ==> self.base@.contains_key(*(#[trigger] items[i]).0)
                        && self.base@[*items[i].0] == *items[i].1,
                listing_sorted(info_views(devices@)),
                devices.len() == it.index(),
                origin.len() == it.index(),
                origin.no_duplicates(),
                forall|j: int|
                    0 <= j < origin.len() ==> 0 <= #[trigger] origin[j] < it.index()
                        && devices@[j]@ == (*items[origin[j]].1)@,
        {
            let ghost before = devices@;
            let info = entry.1.device_info().clone();
            let position = insert_in_order(&mut devices, info);
            proof {
                let source = it.index();
                let grown = origin.insert(position as int, source);
                assert(grown.no_duplicates()) by {
                    assert forall|a: int, b: int|
                        0 <= a < grown.len() && 0 <= b < grown.len() && a != b implies grown[a]
                        != grown[b] by {
                        if a != position && b != position {
                            let a0 = if a < position { a } else { a - 1 };
                            let b0 = if b < position { b } else { b - 1 };
                            assert(grown[a] == origin[a0]);
                            assert(grown[b] == origin[b0]);
                        } else if a == position {
                            let b0 = if b < position { b } else { b - 1 };
                            assert(grown[b] == origin[b0]);
                        } else {
                            let a0 = if a < position { a } else { a - 1 };
                            assert(grown[a] == origin[a0]);
                        }
                    }
                }
                assert forall|j: int| 0 <= j < grown.len() implies 0 <= #[trigger] grown[j]
                    < source + 1 && devices@[j]@ == (*items[grown[j]].1)@ by {
                    if j < position {
                        assert(grown[j] == origin[j]);
                        assert(devices@[j] == before[j]);
                    } else if j > position {
                        assert(grown[j] == origin[j - 1]);
                        assert(devices@[j] == before[j - 1]);
                    }
                }
                origin = grown;
            }
        }
        proof {
            let listing = info_views(devices@);
            assert forall|i: int| 0 <= i < listing.len() implies self@.contains_key(
                address_key((#[trigger] listing[i]).address) as u64,
            ) && self@[address_key(listing[i].address) as u64] == listing[i] by {
                let key = *items[origin[i]].0;
                assert(self.base@.contains_key(key));
                assert(self@.contains_key(key));
            }
            assert forall|i: int, j: int| 0 <= i < j < listing.len() implies (
            #[trigger] listing[i]).address != (#[trigger] listing[j]).address by {
                let ki = *items[origin[i]].0;
                let kj = *items[origin[j]].0;
                assert(self@.contains_key(ki));
                assert(self@.contains_key(kj));
                assert(origin[i] != origin[j]);
                assert(items[origin[i]] != items[origin[j]]);
            }
            assert(self@.dom() =~= self.base@.dom());
        }
        devices
    }
}

/// Puts `info` into a listing that is in order, behind every entry that
/// may stand before it, and tells where it went.
fn insert_in_order(devices: &mut Vec<DeviceInfo>, info: DeviceInfo) -> (position: usize)
    requires
        listing_sorted(info_views(old(devices)@)),
    ensures
        position <= old(devices).len(),
        final(devices)@ == old(devices)@.insert(position as int, info),
        listing_sorted(info_views(final(devices)@)),
{
    let mut position: usize = 0;
    while position < devices.len() && may_stand_before(&devices[position], &info)
        invariant
            position <= devices.len(),
            devices@ == old(devices)@,
            forall|i: int| 0 <= i < position ==> listed_before(#[trigger] devices@[i]@, info@),
        decreases devices.len() - position,
    {
        position += 1;
    }
    devices.insert(position, info);
    proof {
        let before = info_views(old(devices)@);
        let after = info_views(devices@);
        assert forall|i: int, j: int| 0 <= i < j < after.len() implies listed_before(
            #[trigger] after[i],
            #[trigger] after[j],
        ) by {
            if j < position {
                assert(after[i] == before[i] && after[j] == before[j]);
            } else if j == position {
                assert(after[i] == before[i]);
            } else if i == position {
                assert(after[j] == before[j - 1]);
                lemma_listed_before_total(before[position as int], info@);
                if j - 1 > position {
                    assert(listed_before(before[position as int], before[j - 1]));
                    lemma_listed_before_transitive(info@, before[position as int], before[j - 1]);
                }
            } else if i < position {
                assert(after[i] == before[i] && after[j] == before[j - 1]);
            } else {
                assert(after[i] == before[i - 1] && after[j] == before[j - 1]);
            }
        }
    }
    position
}

} // verus!
