//! The state of the engine: the adapter's snapshot, the registry of its
//! devices, the discovery flag and the one consumer of its notifications.

use crate::adapter_info::{
    adapter_property_views, AdapterInfo, AdapterInfoView, AdapterProperty, AdapterPropertyView,
};
use crate::address::{address_key, Address};
use crate::device::{
    first_snapshot, property_views, DeviceInfo, DeviceInfoView, DeviceProperty,
    DevicePropertyView,
};
use crate::device_list::{
    enumeration_views, info_views, lemma_operation_keeps_registry_in_order, listing_of,
    listing_sorted, registry_added, registry_enumerated, registry_removed, registry_updated,
    registry_wf, DeviceList, Registry, RegistryOperation,
};
use vstd::prelude::*;
use vstd::string::StringExecFns;

verus! {

/// How many notifications may wait for the consumer at once.
pub const EVENT_CHANNEL_CAPACITY: usize = 1;

/// Why the engine refuses a request.
#[derive(Debug)]
pub enum AdapterErrors {
    /// The system has no adapter.
    AdapterNotFound,
    /// The named adapter is switched off.
    AdapterNotPoweredOn(String),
    /// The named adapter is already looking for devices.
    AdapterIsDiscovering(String),
    /// The notifications already have a consumer.
    EventConsumerExist,
    /// No device is known at the address.
    DeviceNotFound,
}

/// An [`AdapterErrors`] as mathematical values.
pub enum AdapterErrorsView {
    AdapterNotFound,
    AdapterNotPoweredOn(Seq<char>),
    AdapterIsDiscovering(Seq<char>),
    EventConsumerExist,
    DeviceNotFound,
}

impl View for AdapterErrors {
    type V = AdapterErrorsView;

    open spec fn view(&self) -> AdapterErrorsView {
        match *self {
            AdapterErrors::AdapterNotFound => AdapterErrorsView::AdapterNotFound,
            AdapterErrors::AdapterNotPoweredOn(name) => AdapterErrorsView::AdapterNotPoweredOn(
                name@,
            ),
            AdapterErrors::AdapterIsDiscovering(name) => AdapterErrorsView::AdapterIsDiscovering(
                name@,
            ),
            AdapterErrors::EventConsumerExist => AdapterErrorsView::EventConsumerExist,
            AdapterErrors::DeviceNotFound => AdapterErrorsView::DeviceNotFound,
        }
    }
}

/// The sentence that tells a user of an error.
pub open spec fn error_message(error: AdapterErrorsView) -> Seq<char> {
    match error {
        AdapterErrorsView::AdapterNotFound => "No adapters found in the system"@,
        AdapterErrorsView::AdapterNotPoweredOn(name) => "Target adapter "@ + name
            + " is not powered on"@,
        AdapterErrorsView::AdapterIsDiscovering(name) => "Target adapter "@ + name
            + " is discovering"@,
        AdapterErrorsView::EventConsumerExist => "Adapter has a consumer already consuming the event, cannot establish another consumer"@,
        AdapterErrorsView::DeviceNotFound => "Device is not found"@,
    }
}

impl AdapterErrors {
    /// The sentence that tells a user of the error.
    pub fn message(&self) -> (text: String)
        ensures
            text@ == error_message(self@),
    {
        match self {
            AdapterErrors::AdapterNotFound => "No adapters found in the system".to_string(),
            AdapterErrors::AdapterNotPoweredOn(name) => {
                let mut text = "Target adapter ".to_string();
                text.append(name.as_str());
                text.append(" is not powered on");
                text
            },
            AdapterErrors::AdapterIsDiscovering(name) => {
                let mut text = "Target adapter ".to_string();
                text.append(name.as_str());
                text.append(" is discovering");
                text
            },
            AdapterErrors::EventConsumerExist => "Adapter has a consumer already consuming the event, cannot establish another consumer".to_string(),
            AdapterErrors::DeviceNotFound => "Device is not found".to_string(),
        }
    }
}

/// What happened to one device.
#[derive(Debug)]
pub enum DeviceEvent {
    /// The device was entered or refreshed; its snapshot.
    DeviceAdded(DeviceInfo),
    /// The device was dropped; its last snapshot.
    DeviceRemoved(DeviceInfo),
    /// A property of the device changed; its new snapshot.
    DeviceUpdated(DeviceInfo),
}

/// A [`DeviceEvent`] as mathematical values.
pub enum DeviceEventView {
    DeviceAdded(DeviceInfoView),
    DeviceRemoved(DeviceInfoView),
    DeviceUpdated(DeviceInfoView),
}

impl View for DeviceEvent {
    type V = DeviceEventView;

    open spec fn view(&self) -> DeviceEventView {
        match *self {
            DeviceEvent::DeviceAdded(info) => DeviceEventView::DeviceAdded(info@),
            DeviceEvent::DeviceRemoved(info) => DeviceEventView::DeviceRemoved(info@),
            DeviceEvent::DeviceUpdated(info) => DeviceEventView::DeviceUpdated(info@),
        }
    }
}

/// A notification for the consumer.
#[derive(Debug)]
pub enum AdapterEvent {
    /// A property of the adapter changed; its new snapshot.
    AdapterPropertyChanged(AdapterInfo),
    /// The devices changed; the full listing and what happened.
    DevicesUpdated(Vec<DeviceInfo>, DeviceEvent),
}

/// An [`AdapterEvent`] as mathematical values.
pub enum AdapterEventView {
    AdapterPropertyChanged(AdapterInfoView),
    DevicesUpdated(Seq<DeviceInfoView>, DeviceEventView),
}

impl View for AdapterEvent {
    type V = AdapterEventView;

    open spec fn view(&self) -> AdapterEventView {
        match *self {
            AdapterEvent::AdapterPropertyChanged(info) => AdapterEventView::AdapterPropertyChanged(
                info@,
            ),
            AdapterEvent::DevicesUpdated(devices, change) => AdapterEventView::DevicesUpdated(
                info_views(devices@),
                change@,
            ),
        }
    }
}

/// What the Bluetooth stack reports to the engine, together with what
/// had to be read from the stack to act on it.
pub enum DriverEvent {
    /// A device appeared at the address. With it come all the properties
    /// of the device, or nothing if they could not be read.
    DeviceAdded(Address, Option<Vec<DeviceProperty>>),
    /// The device at the address is gone.
    DeviceRemoved(Address),
    /// A property of the device at the address changed.
    DeviceChanged(Address, DeviceProperty),
    /// A property of the adapter changed.
    PropertyChanged(AdapterProperty),
}

/// A [`DriverEvent`] as mathematical values.
pub enum DriverEventView {
    DeviceAdded(Seq<u8>, Option<Seq<DevicePropertyView>>),
    DeviceRemoved(Seq<u8>),
    DeviceChanged(Seq<u8>, DevicePropertyView),
    PropertyChanged(AdapterPropertyView),
}

impl View for DriverEvent {
    type V = DriverEventView;

    open spec fn view(&self) -> DriverEventView {
        match *self {
            DriverEvent::DeviceAdded(address, properties) => DriverEventView::DeviceAdded(
                address.bytes(),
                match properties {
                    Some(list) => Some(property_views(list@)),
                    None => None,
                },
            ),
            DriverEvent::DeviceRemoved(address) => DriverEventView::DeviceRemoved(address.bytes()),
            DriverEvent::DeviceChanged(address, property) => DriverEventView::DeviceChanged(
                address.bytes(),
                property@,
            ),
            DriverEvent::PropertyChanged(property) => DriverEventView::PropertyChanged(property@),
        }
    }
}

/// The state of the engine as mathematical values.
pub struct AdapterView {
    /// The name of the adapter.
    pub name: Seq<char>,
    /// The snapshot of the adapter.
    pub info: AdapterInfoView,
    /// Whether the engine is looking for devices.
    pub discovering: bool,
    /// The registry of devices.
    pub devices: Registry,
    /// Whether the notifications have a consumer.
    pub subscribed: bool,
}

/// What a request for discovery is answered with: how long the session
/// is to last, if one is to run.
pub type DiscoveryAnswer = Result<Option<u64>, AdapterErrorsView>;

impl AdapterView {
    /// The state of an engine that starts for the adapter `name` with the
    /// given properties and devices.
    pub open spec fn initial(
        name: Seq<char>,
        properties: Seq<AdapterPropertyView>,
        devices: Seq<(Seq<u8>, Seq<DevicePropertyView>)>,
    ) -> AdapterView {
        let info = AdapterInfoView { name, ..AdapterInfoView::empty().updated_all(properties) };
        AdapterView {
            name,
            info,
            discovering: info.discovering,
            devices: registry_enumerated(name, devices),
            subscribed: false,
        }
    }

    /// Whether the state is in order.
    pub open spec fn wf(self) -> bool {
        registry_wf(self.devices)
    }

    /// The state after a consumer asked for the notifications, and the
    /// answer: refused if there is a consumer already.
    pub open spec fn subscribe(self) -> (AdapterView, Result<(), AdapterErrorsView>) {
        if self.subscribed {
            (self, Err(AdapterErrorsView::EventConsumerExist))
        } else {
            (AdapterView { subscribed: true, ..self }, Ok(()))
        }
    }

    /// The state after discovery was cancelled.
    pub open spec fn cancelled(self) -> AdapterView {
        AdapterView { discovering: false, ..self }
    }

    /// The state after discovery for `timeout` seconds was asked for, and
    /// the answer: refused while the engine is discovering or the adapter
    /// is switched off; else a session is to run if there is a consumer.
    pub open spec fn start_discovery(self, timeout: u64) -> (AdapterView, DiscoveryAnswer) {
        if self.discovering {
            (self, Err(AdapterErrorsView::AdapterIsDiscovering(self.name)))
        } else if !self.info.is_powered {
            (self, Err(AdapterErrorsView::AdapterNotPoweredOn(self.name)))
        } else {
            (
                AdapterView { discovering: true, ..self },
                Ok(
                    if self.subscribed {
                        Some(timeout)
                    } else {
                        None
                    },
                ),
            )
        }
    }

    /// Whether a device is known at `address`.
    pub open spec fn knows(self, address: Seq<u8>) -> bool {
        self.devices.contains_key(address_key(address) as u64)
    }

    /// The state after the Bluetooth stack reported `event`. A device that
    /// appeared is entered or refreshed, unless its properties could not
    /// be read; a device that is gone is dropped; a changed property is
    /// taken over by the device or by the adapter.
    pub open spec fn after_event(self, event: DriverEventView) -> AdapterView {
        match event {
            DriverEventView::DeviceAdded(address, Some(properties)) => AdapterView {
                devices: registry_added(self.devices, self.name, address, properties),
                ..self
            },
            DriverEventView::DeviceAdded(address, None) => self,
            DriverEventView::DeviceRemoved(address) => AdapterView {
                devices: registry_removed(self.devices, address),
                ..self
            },
            DriverEventView::DeviceChanged(address, property) => AdapterView {
                devices: registry_updated(self.devices, address, property),
                ..self
            },
            DriverEventView::PropertyChanged(property) => AdapterView {
                info: self.info.updated(property),
                ..self
            },
        }
    }

    /// What the notification for `event` says happened to a device: the
    /// new snapshot of a device that appeared or changed, the last
    /// snapshot of a device that is gone, and an empty snapshot where the
    /// engine has none. An event about the adapter happens to no device.
    pub open spec fn change_in(self, event: DriverEventView) -> Option<DeviceEventView> {
        match event {
            DriverEventView::DeviceAdded(address, Some(properties)) => Some(
                DeviceEventView::DeviceAdded(
                    self.after_event(event).devices[address_key(address) as u64],
                ),
            ),
            DriverEventView::DeviceAdded(address, None) => Some(
                DeviceEventView::DeviceAdded(DeviceInfoView::empty()),
            ),
            DriverEventView::DeviceRemoved(address) => Some(
                DeviceEventView::DeviceRemoved(
                    if self.knows(address) {
                        self.devices[address_key(address) as u64]
                    } else {
                        DeviceInfoView::empty()
                    },
                ),
            ),
            DriverEventView::DeviceChanged(address, property) => Some(
                DeviceEventView::DeviceUpdated(
                    if self.knows(address) {
                        self.after_event(event).devices[address_key(address) as u64]
                    } else {
                        DeviceInfoView::empty()
                    },
                ),
            ),
            DriverEventView::PropertyChanged(property) => None,
        }
    }

    /// Whether `notification` is one that tells of `event`, sent from the
    /// state `self` that the event led to from the state `before`: for a
    /// property of the adapter the new snapshot of the adapter; for a
    /// device an ordered listing of all devices and what happened.
    pub open spec fn notifies(
        self,
        before: AdapterView,
        event: DriverEventView,
        notification: AdapterEventView,
    ) -> bool {
        match event {
            DriverEventView::PropertyChanged(property) => notification
                == AdapterEventView::AdapterPropertyChanged(self.info),
            _ => {
                &&& notification matches AdapterEventView::DevicesUpdated(listing, change)
                &&& listing_of(listing, self.devices)
                &&& listing_sorted(listing)
                &&& Some(change) == before.change_in(event)
            },
        }
    }
}

/// What the task that forwards the adapter's events does next.
#[derive(Debug)]
pub enum PumpAction {
    /// Send the notification to the consumer and go on.
    Publish(AdapterEvent),
    /// End the task.
    Stop,
}

/// The engine for one adapter.
pub struct Adapter {
    name: String,
    adapter_info: AdapterInfo,
    discovering: bool,
    known_devices: DeviceList,
    subscribed: bool,
}

impl View for Adapter {
    type V = AdapterView;

    closed spec fn view(&self) -> AdapterView {
        AdapterView {
            name: self.name@,
            info: self.adapter_info@,
            discovering: self.discovering,
            devices: self.known_devices@,
            subscribed: self.subscribed,
        }
    }
}

impl Adapter {
    /// Whether the engine is in order.
    pub closed spec fn wf(&self) -> bool {
        &&& self.known_devices.wf()
        &&& self.known_devices.adapter_name() == self.name@
    }

    /// An engine that is in order has a state that is in order.
    pub proof fn lemma_wf(&self)
        requires
            self.wf(),
        ensures
            self@.wf(),
    {
        self.known_devices.lemma_wf();
    }

    /// Starts the engine for the adapter `name`, from all the properties
    /// of the adapter and from the devices it knows, each given by its
    /// address and all its properties.
    pub fn new(
        name: String,
        properties: Vec<AdapterProperty>,
        devices: Vec<(Address, Vec<DeviceProperty>)>,
    ) -> (adapter: Adapter)
        ensures
            adapter.wf(),
            adapter@ == AdapterView::initial(
                name@,
                adapter_property_views(properties@),
                enumeration_views(devices@),
            ),
    {
        let mut adapter_info = AdapterInfo::from_properties(properties);
        adapter_info.name = name.clone();
        let discovering = adapter_info.discovering;
        Adapter {
            known_devices: DeviceList::new(name.clone(), devices),
            name,
            discovering,
            adapter_info,
            subscribed: false,
        }
    }

    /// The name of the adapter.
    pub fn name(&self) -> (name: &String)
        ensures
            name@ == self@.name,
    {
        &self.name
    }

    /// Whether the engine is looking for devices.
    pub fn is_discovering(&self) -> (discovering: bool)
        ensures
            discovering == self@.discovering,
    {
        self.discovering
    }

    /// Whether the notifications have a consumer.
    pub fn has_consumer(&self) -> (subscribed: bool)
        ensures
            subscribed == self@.subscribed,
    {
        self.subscribed
    }

    /// Registers the one consumer of the notifications. Refused with
    /// `EventConsumerExist`, and without any effect, if there is one
    /// already.
    pub fn adaptor_event_stream(&mut self) -> (answer: Result<(), AdapterErrors>)
        requires
            old(self).wf(),
        ensures
            final(self).wf(),
            final(self)@ == old(self)@.subscribe().0,
            match answer {
                Ok(()) => old(self)@.subscribe().1 is Ok,
                Err(error) => old(self)@.subscribe().1 == Err::<(), AdapterErrorsView>(error@),
            },
    {
        if self.subscribed {
            return Err(AdapterErrors::EventConsumerExist);
        }
        self.subscribed = true;
        Ok(())
    }

    /// A copy of the snapshot of the adapter.
    pub fn adapter_info(&self) -> (info: AdapterInfo)
        ensures
            info@ == self@.info,
    {
        self.adapter_info.clone()
    }

    /// The snapshots of all known devices, in order.
    pub fn known_devices(&self) -> (devices: Vec<DeviceInfo>)
        requires
            self.wf(),
        ensures
            listing_of(info_views(devices@), self@.devices),
            listing_sorted(info_views(devices@)),
    {
        self.known_devices.list()
    }

    /// Asks a running discovery to end: clears the discovery flag, which
    /// the session looks at before it waits for its next event.
    pub fn cancel_discovering(&mut self)
        requires
            old(self).wf(),
        ensures
            final(self).wf(),
            final(self)@ == old(self)@.cancelled(),
    {
        if self.discovering {
            self.discovering = false;
        }
    }

    /// Decides on a request to look for devices for `timeout_in_seconds`
    /// seconds. Refused with `AdapterIsDiscovering` while the engine is
    /// discovering, and else with `AdapterNotPoweredOn` while the adapter
    /// is switched off; a refusal changes nothing. Otherwise the
    /// discovery flag is set, and the answer is the session to run, if
    /// the notifications have a consumer.
    pub fn discover_devices(&mut self, timeout_in_seconds: u64) -> (answer: Result<
        Option<DiscoverySession>,
        AdapterErrors,
    >)
        requires
            old(self).wf(),
        ensures
            final(self).wf(),
            final(self)@ == old(self)@.start_discovery(timeout_in_seconds).0,
            match answer {
                Ok(Some(session)) => old(self)@.start_discovery(timeout_in_seconds).1 == Ok::<
                    Option<u64>,
                    AdapterErrorsView,
                >(Some(session.timeout_in_seconds)) && session.state == SessionState::Active,
                Ok(None) => old(self)@.start_discovery(timeout_in_seconds).1 == Ok::<
                    Option<u64>,
                    AdapterErrorsView,
                >(None),
                Err(error) => old(self)@.start_discovery(timeout_in_seconds).1 == Err::<
                    Option<u64>,
                    AdapterErrorsView,
                >(error@),
            },
    {
        if self.discovering {
            return Err(AdapterErrors::AdapterIsDiscovering(self.name.clone()));
        }
        if !self.adapter_info.is_powered {
            return Err(AdapterErrors::AdapterNotPoweredOn(self.name.clone()));
        }
        self.discovering = true;
        if self.subscribed {
            Ok(Some(DiscoverySession { state: SessionState::Active, timeout_in_seconds }))
        } else {
            Ok(None)
        }
    }

    /// Decides on a request to connect to the device at `address`:
    /// refused with `DeviceNotFound` if no such device is known.
    pub fn connect_device(&self, address: Address) -> (answer: Result<(), AdapterErrors>)
        requires
            self.wf(),
        ensures
            match answer {
                Ok(()) => self@.knows(address.bytes()),
                Err(error) => !self@.knows(address.bytes()) && error@
                    == AdapterErrorsView::DeviceNotFound,
            },
    {
        if self.known_devices.get(&address).is_some() {
            Ok(())
        } else {
            Err(AdapterErrors::DeviceNotFound)
        }
    }

    /// Decides on a request to disconnect from the device at `address`:
    /// refused with `DeviceNotFound` if no such device is known.
    pub fn disconnect_device(&self, address: Address) -> (answer: Result<(), AdapterErrors>)
        requires
            self.wf(),
        ensures
            match answer {
                Ok(()) => self@.knows(address.bytes()),
                Err(error) => !self@.knows(address.bytes()) && error@
                    == AdapterErrorsView::DeviceNotFound,
            },
    {
        if self.known_devices.get(&address).is_some() {
            Ok(())
        } else {
            Err(AdapterErrors::DeviceNotFound)
        }
    }

    /// Takes in what the Bluetooth stack reported and returns the
    /// notification that tells the consumer of it.
    pub fn handle_event(&mut self, event: DriverEvent) -> (notification: AdapterEvent)
        requires
            old(self).wf(),
        ensures
            final(self).wf(),
            final(self)@ == old(self)@.after_event(event@),
            final(self)@.notifies(old(self)@, event@, notification@),
    {
        match event {
            DriverEvent::DeviceAdded(address, Some(properties)) => {
                let device_info = self.known_devices.add_device(address, properties);
                AdapterEvent::DevicesUpdated(
                    self.known_devices.list(),
                    DeviceEvent::DeviceAdded(device_info),
                )
            },
            DriverEvent::DeviceAdded(address, None) => AdapterEvent::DevicesUpdated(
                self.known_devices.list(),
                DeviceEvent::DeviceAdded(DeviceInfo::default()),
            ),
            DriverEvent::DeviceRemoved(address) => {
                let device_info = match self.known_devices.remove_device(address) {
                    Some(info) => info,
                    None => DeviceInfo::default(),
                };
                AdapterEvent::DevicesUpdated(
                    self.known_devices.list(),
                    DeviceEvent::DeviceRemoved(device_info),
                )
            },
            DriverEvent::DeviceChanged(address, property) => {
                let device_info = match self.known_devices.update_device(address, property) {
                    Some(info) => info,
                    None => DeviceInfo::default(),
                };
                AdapterEvent::DevicesUpdated(
                    self.known_devices.list(),
                    DeviceEvent::DeviceUpdated(device_info),
                )
            },
            DriverEvent::PropertyChanged(property) => {
                self.adapter_info.update_property(property);
                AdapterEvent::AdapterPropertyChanged(self.adapter_info.clone())
            },
        }
    }

    /// One round of the task that forwards the adapter's events: it ends
    /// when the consumer is gone or the stream of events has ended, and
    /// else takes the event in and has the notification sent.
    pub fn pump_step(&mut self, consumer_gone: bool, event: Option<DriverEvent>) -> (action:
        PumpAction)
        requires
            old(self).wf(),
        ensures
            final(self).wf(),
            match action {
                PumpAction::Stop => {
                    &&& consumer_gone || event is None
                    &&& final(self)@ == old(self)@
                },
                PumpAction::Publish(notification) => {
                    &&& !consumer_gone
                    &&& event is Some
                    &&& final(self)@ == old(self)@.after_event(event->0@)
                    &&& final(self)@.notifies(old(self)@, event->0@, notification@)
                },
            },
    {
        if consumer_gone {
            return PumpAction::Stop;
        }
        match event {
            Some(event) => PumpAction::Publish(self.handle_event(event)),
            None => PumpAction::Stop,
        }
    }
}

/// Whether a discovery session still runs.
#[derive(Clone, Copy, Debug, PartialEq, Eq, Structural)]
pub enum SessionState {
    /// The session takes events.
    Active,
    /// The session has ended.
    Idle,
}

/// What reaches a discovery session while it waits.
pub enum SessionEvent {
    /// The Bluetooth stack found a device at the address.
    DeviceAdded(Address),
    /// The properties of a device that the session asked to watch were
    /// read, or could not be read.
    DeviceFetched(Address, Option<Vec<DeviceProperty>>),
    /// The Bluetooth stack lost the device at the address.
    DeviceRemoved(Address),
    /// The Bluetooth stack reported something else.
    AdapterChanged,
    /// The Bluetooth stack ended the discovery.
    DiscoveryEnded,
    /// A property of a watched device changed.
    DeviceChanged(Address, DeviceProperty),
    /// The time of the session is up.
    TimerFired,
    /// The consumer of the notifications is gone.
    ConsumerGone,
}

/// A [`SessionEvent`] as mathematical values.
pub enum SessionEventView {
    DeviceAdded(Seq<u8>),
    DeviceFetched(Seq<u8>, Option<Seq<DevicePropertyView>>),
    DeviceRemoved(Seq<u8>),
    AdapterChanged,
    DiscoveryEnded,
    DeviceChanged(Seq<u8>, DevicePropertyView),
    TimerFired,
    ConsumerGone,
}

impl View for SessionEvent {
    type V = SessionEventView;

    open spec fn view(&self) -> SessionEventView {
        match *self {
            SessionEvent::DeviceAdded(address) => SessionEventView::DeviceAdded(address.bytes()),
            SessionEvent::DeviceFetched(address, properties) => SessionEventView::DeviceFetched(
                address.bytes(),
                match properties {
                    Some(list) => Some(property_views(list@)),
                    None => None,
                },
            ),
            SessionEvent::DeviceRemoved(address) => SessionEventView::DeviceRemoved(
                address.bytes(),
            ),
            SessionEvent::AdapterChanged => SessionEventView::AdapterChanged,
            SessionEvent::DiscoveryEnded => SessionEventView::DiscoveryEnded,
            SessionEvent::DeviceChanged(address, property) => SessionEventView::DeviceChanged(
                address.bytes(),
                property@,
            ),
            SessionEvent::TimerFired => SessionEventView::TimerFired,
            SessionEvent::ConsumerGone => SessionEventView::ConsumerGone,
        }
    }
}

/// What a discovery session does after an event.
#[derive(Debug)]
pub enum SessionAction {
    /// Watch the properties of the device at the address, read all of
    /// them, and hand them to the session as `DeviceFetched`.
    Watch(Address),
    /// Send the notification to the consumer and go on.
    Publish(AdapterEvent),
    /// Go on.
    Continue,
    /// End the session.
    Stop,
}

/// The kinds of [`SessionAction`].
pub enum SessionActionKind {
    Watch(Seq<u8>),
    Publish,
    Continue,
    Stop,
}

impl SessionAction {
    /// The kind of the action.
    pub open spec fn kind(&self) -> SessionActionKind {
        match *self {
            SessionAction::Watch(address) => SessionActionKind::Watch(address.bytes()),
            SessionAction::Publish(notification) => SessionActionKind::Publish,
            SessionAction::Continue => SessionActionKind::Continue,
            SessionAction::Stop => SessionActionKind::Stop,
        }
    }
}

/// What a session event means for the registry, if anything.
pub open spec fn registry_event(event: SessionEventView) -> Option<DriverEventView> {
    match event {
        SessionEventView::DeviceFetched(address, properties) => Some(
            DriverEventView::DeviceAdded(address, properties),
        ),
        SessionEventView::DeviceRemoved(address) => Some(DriverEventView::DeviceRemoved(address)),
        SessionEventView::DeviceChanged(address, property) => Some(
            DriverEventView::DeviceChanged(address, property),
        ),
        _ => None,
    }
}

/// The state of a session, of the engine and the kind of action after
/// the session, in state `state`, took `event` in. A session that has
/// ended stays so and does nothing. A running session ends when the
/// discovery or the consumer is gone, and when a device is found after
/// the discovery flag was cleared; it asks to watch a device found while
/// the flag is set; it clears the flag when its time is up; and it has
/// what happens to a device entered in the registry and published.
pub open spec fn session_step(
    state: SessionState,
    engine: AdapterView,
    event: SessionEventView,
) -> (SessionState, AdapterView, SessionActionKind) {
    if state == SessionState::Idle {
        (SessionState::Idle, engine, SessionActionKind::Stop)
    } else {
        match event {
            SessionEventView::DeviceAdded(address) => if engine.discovering {
                (SessionState::Active, engine, SessionActionKind::Watch(address))
            } else {
                (SessionState::Idle, engine, SessionActionKind::Stop)
            },
            SessionEventView::AdapterChanged => (
                SessionState::Active,
                engine,
                SessionActionKind::Continue,
            ),
            SessionEventView::DiscoveryEnded => (
                SessionState::Idle,
                engine,
                SessionActionKind::Stop,
            ),
            SessionEventView::TimerFired => (
                SessionState::Active,
                engine.cancelled(),
                SessionActionKind::Continue,
            ),
            SessionEventView::ConsumerGone => (SessionState::Idle, engine, SessionActionKind::Stop),
            _ => (
                SessionState::Active,
                engine.after_event(registry_event(event)->0),
                SessionActionKind::Publish,
            ),
        }
    }
}

/// The state of a session after it looked at the discovery flag: ended
/// if the flag is clear.
pub open spec fn session_observed(state: SessionState, engine: AdapterView) -> SessionState {
    if engine.discovering {
        state
    } else {
        SessionState::Idle
    }
}

/// A second request for the notifications is refused with
/// `EventConsumerExist`, whatever came of the first, and leaves the
/// engine as the first request left it.
pub proof fn law_second_subscription_is_refused(state: AdapterView)
    ensures
        state.subscribe().0.subscribe() == (
            state.subscribe().0,
            Err::<(), AdapterErrorsView>(AdapterErrorsView::EventConsumerExist),
        ),
{
}

/// While the engine is discovering, a request for discovery is refused
/// with `AdapterIsDiscovering` and leaves the engine, its discovery flag
/// included, as it was.
pub proof fn law_discovery_refused_while_discovering(state: AdapterView, timeout: u64)
    requires
        state.discovering,
    ensures
        state.start_discovery(timeout) == (
            state,
            Err::<Option<u64>, AdapterErrorsView>(
                AdapterErrorsView::AdapterIsDiscovering(state.name),
            ),
        ),
{
}

/// While the adapter is switched off, a request for discovery is refused
/// and leaves the engine, its discovery flag included, as it was; if the
/// engine is not discovering, the refusal is `AdapterNotPoweredOn`.
pub proof fn law_discovery_refused_while_powered_off(state: AdapterView, timeout: u64)
    requires
        !state.info.is_powered,
    ensures
        state.start_discovery(timeout).0 == state,
        state.start_discovery(timeout).1 is Err,
        !state.discovering ==> state.start_discovery(timeout).1 == Err::<
            Option<u64>,
            AdapterErrorsView,
        >(AdapterErrorsView::AdapterNotPoweredOn(state.name)),
{
}

/// Every event leaves a state that is in order in order.
pub proof fn law_events_keep_state_in_order(state: AdapterView, event: DriverEventView)
    requires
        state.wf(),
        match event {
            DriverEventView::DeviceAdded(address, properties) => address.len() == 6,
            DriverEventView::DeviceRemoved(address) => address.len() == 6,
            DriverEventView::DeviceChanged(address, property) => address.len() == 6,
            DriverEventView::PropertyChanged(property) => true,
        },
    ensures
        state.after_event(event).wf(),
{
    match event {
        DriverEventView::DeviceAdded(address, Some(properties)) => {
            lemma_operation_keeps_registry_in_order(
                state.devices,
                state.name,
                RegistryOperation::Add(address, properties),
            );
        },
        DriverEventView::DeviceAdded(address, None) => {},
        DriverEventView::DeviceRemoved(address) => {
            lemma_operation_keeps_registry_in_order(
                state.devices,
                state.name,
                RegistryOperation::Remove(address),
            );
        },
        DriverEventView::DeviceChanged(address, property) => {
            lemma_operation_keeps_registry_in_order(
                state.devices,
                state.name,
                RegistryOperation::Update(address, property),
            );
        },
        DriverEventView::PropertyChanged(property) => {},
    }
}

/// A device that appears is known from then on, under the snapshot that
/// the notification carries. When it is then reported gone, the
/// notification carries that last snapshot and the device is known no
/// longer, the rest of the registry being as before.
pub proof fn law_added_then_removed(
    state: AdapterView,
    address: Seq<u8>,
    properties: Seq<DevicePropertyView>,
)
    requires
        state.wf(),
        address.len() == 6,
    ensures
        ({
            let key = address_key(address) as u64;
            let added = DriverEventView::DeviceAdded(address, Some(properties));
            let removed = DriverEventView::DeviceRemoved(address);
            let with_device = state.after_event(added);
            let without_device = with_device.after_event(removed);
            &&& with_device.knows(address)
            &&& state.change_in(added) == Some(
                DeviceEventView::DeviceAdded(with_device.devices[key]),
            )
            &&& !state.knows(address) ==> with_device.devices[key] == first_snapshot(
                state.name,
                address,
                properties,
            )
            &&& with_device.change_in(removed) == Some(
                DeviceEventView::DeviceRemoved(with_device.devices[key]),
            )
            &&& !without_device.knows(address)
            &&& without_device.devices == state.devices.remove(key)
        }),
{
    let key = address_key(address) as u64;
    let with_device = state.after_event(DriverEventView::DeviceAdded(address, Some(properties)));
    let without_device = with_device.after_event(DriverEventView::DeviceRemoved(address));
    assert(without_device.devices =~= state.devices.remove(key));
}

/// When the time of a running session is up, the discovery flag is
/// cleared, and the session ends when it next looks at the flag.
pub proof fn law_timeout_ends_session(engine: AdapterView)
    ensures
        ({
            let (state, after, action) = session_step(
                SessionState::Active,
                engine,
                SessionEventView::TimerFired,
            );
            &&& !after.discovering
            &&& action == SessionActionKind::Continue
            &&& session_observed(state, after) == SessionState::Idle
        }),
{
}

/// Once the discovery flag is clear, a session asks to watch no further
/// device, and it has ended as soon as it has looked at the flag.
pub proof fn law_cancelled_session_watches_nothing(
    state: SessionState,
    engine: AdapterView,
    event: SessionEventView,
)
    requires
        !engine.discovering,
    ensures
        !(session_step(state, engine, event).2 is Watch),
        session_observed(state, engine) == SessionState::Idle,
        session_step(session_observed(state, engine), engine, event) == (
            SessionState::Idle,
            engine,
            SessionActionKind::Stop,
        ),
{
}

/// One bounded search for devices.
#[derive(Debug)]
pub struct DiscoverySession {
    /// Whether the session still runs.
    pub state: SessionState,
    /// After how many seconds the time of the session is up.
    pub timeout_in_seconds: u64,
}

impl DiscoverySession {
    /// Looks at the discovery flag, as the session does before it waits
    /// for its next event, and tells whether the session still runs: it
    /// has ended once the flag is clear.
    pub fn observe(&mut self, adapter: &Adapter) -> (active: bool)
        ensures
            final(self).state == session_observed(old(self).state, adapter@),
            final(self).timeout_in_seconds == old(self).timeout_in_seconds,
            active == (final(self).state == SessionState::Active),
    {
        if !adapter.is_discovering() {
            self.state = SessionState::Idle;
        }
        match self.state {
            SessionState::Active => true,
            SessionState::Idle => false,
        }
    }

    /// Takes one event in and tells what to do next.
    pub fn step(&mut self, adapter: &mut Adapter, event: SessionEvent) -> (action: SessionAction)
        requires
            old(adapter).wf(),
        ensures
            final(adapter).wf(),
            final(self).timeout_in_seconds == old(self).timeout_in_seconds,
            (final(self).state, final(adapter)@, action.kind()) == session_step(
                old(self).state,
                old(adapter)@,
                event@,
            ),
            action matches SessionAction::Publish(notification) ==> final(adapter)@.notifies(
                old(adapter)@,
                registry_event(event@)->0,
                notification@,
            ),
    {
        match self.state {
            SessionState::Idle => {
                return SessionAction::Stop;
            },
            SessionState::Active => {},
        }
        match event {
            SessionEvent::DeviceAdded(address) => {
                if adapter.is_discovering() {
                    SessionAction::Watch(address)
                } else {
                    self.state = SessionState::Idle;
                    SessionAction::Stop
                }
            },
            SessionEvent::DeviceFetched(address, properties) => SessionAction::Publish(
                adapter.handle_event(DriverEvent::DeviceAdded(address, properties)),
            ),
            SessionEvent::DeviceRemoved(address) => SessionAction::Publish(
                adapter.handle_event(DriverEvent::DeviceRemoved(address)),
            ),
            SessionEvent::AdapterChanged => SessionAction::Continue,
            SessionEvent::DiscoveryEnded => {
                self.state = SessionState::Idle;
                SessionAction::Stop
            },
            SessionEvent::DeviceChanged(address, property) => SessionAction::Publish(
                adapter.handle_event(DriverEvent::DeviceChanged(address, property)),
            ),
            SessionEvent::TimerFired => {
                adapter.cancel_discovering();
                SessionAction::Continue
            },
            SessionEvent::ConsumerGone => {
                self.state = SessionState::Idle;
                SessionAction::Stop
            },
        }
    }
}

} // verus!
