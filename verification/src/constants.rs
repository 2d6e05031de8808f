//! Lookup tables of the Bluetooth class-of-device encoding and of the
//! assigned 16-bit service UUIDs.

use vstd::prelude::*;

verus! {

/// Class value that stands for "no class could be read".
pub const ERROR: u32 = 0xFF00_0000;

/// Bits of a class value that encode the major device class.
pub const MAJOR_CLASS_MASK: u32 = 0x1F00;

/// Bits of a class value that encode major and minor device class together.
pub const MINOR_CLASS_MASK: u32 = 0x1FFC;

/// Bits of a class value that encode the service categories.
pub const SERVICE_CLASS_MASK: u32 = 0xFFE000;

/// How many service categories the table knows.
pub const CLASS_SERVICE_COUNT: usize = 10;

/// Name of a major device class, by the class value under [`MAJOR_CLASS_MASK`].
pub open spec fn major_class_name(key: u32) -> Option<&'static str> {
    match key {
        0x0100 => Some("COMPUTER"),
        0x0200 => Some("PHONE"),
        0x0300 => Some("NETWORKING"),
        0x0400 => Some("AUDIO_VIDEO"),
        0x0500 => Some("PERIPHERAL"),
        0x0600 => Some("IMAGING"),
        0x0700 => Some("WEARABLE"),
        0x0800 => Some("TOY"),
        0x0900 => Some("HEALTH"),
        0x1F00 => Some("UNCATEGORIZED"),
        _ => None,
    }
}

/// Looks a major device class up.
pub fn class_devices_major(key: u32) -> (name: Option<&'static str>)
    ensures
        name == major_class_name(key),
{
    match key {
        0x0100 => Some("COMPUTER"),
        0x0200 => Some("PHONE"),
        0x0300 => Some("NETWORKING"),
        0x0400 => Some("AUDIO_VIDEO"),
        0x0500 => Some("PERIPHERAL"),
        0x0600 => Some("IMAGING"),
        0x0700 => Some("WEARABLE"),
        0x0800 => Some("TOY"),
        0x0900 => Some("HEALTH"),
        0x1F00 => Some("UNCATEGORIZED"),
        _ => None,
    }
}

/// Name of a device class, by the class value under [`MINOR_CLASS_MASK`].
pub open spec fn minor_class_name(key: u32) -> Option<&'static str> {
    match key {
        0x0100 => Some("COMPUTER_UNCATEGORIZED"),
        0x0104 => Some("COMPUTER_DESKTOP"),
        0x0108 => Some("COMPUTER_SERVER"),
        0x010C => Some("COMPUTER_LAPTOP"),
        0x0110 => Some("COMPUTER_HANDHELD_PC_PDA"),
        0x0114 => Some("COMPUTER_PALM_SIZE_PC_PDA"),
        0x0118 => Some("COMPUTER_WEARABLE"),
        0x0200 => Some("PHONE_UNCATEGORIZED"),
        0x0204 => Some("PHONE_CELLULAR"),
        0x0208 => Some("PHONE_CORDLESS"),
        0x020C => Some("PHONE_SMART"),
        0x0210 => Some("PHONE_MODEM_OR_GATEWAY"),
        0x0214 => Some("PHONE_ISDN"),
        0x0400 => Some("AUDIO_VIDEO_UNCATEGORIZED"),
        0x0404 => Some("AUDIO_VIDEO_WEARABLE_HEADSET"),
        0x0408 => Some("AUDIO_VIDEO_HANDSFREE"),
        0x0410 => Some("AUDIO_VIDEO_MICROPHONE"),
        0x0414 => Some("AUDIO_VIDEO_LOUDSPEAKER"),
        0x0418 => Some("AUDIO_VIDEO_HEADPHONES"),
        0x041C => Some("AUDIO_VIDEO_PORTABLE_AUDIO"),
        0x0420 => Some("AUDIO_VIDEO_CAR_AUDIO"),
        0x0424 => Some("AUDIO_VIDEO_SET_TOP_BOX"),
        0x0428 => Some("AUDIO_VIDEO_HIFI_AUDIO"),
        0x042C => Some("AUDIO_VIDEO_VCR"),
        0x0430 => Some("AUDIO_VIDEO_VIDEO_CAMERA"),
        0x0434 => Some("AUDIO_VIDEO_CAMCORDER"),
        0x0438 => Some("AUDIO_VIDEO_VIDEO_MONITOR"),
        0x043C => Some("AUDIO_VIDEO_VIDEO_DISPLAY_AND_LOUDSPEAKER"),
        0x0440 => Some("AUDIO_VIDEO_VIDEO_CONFERENCING"),
        0x0448 => Some("AUDIO_VIDEO_VIDEO_GAMING_TOY"),
        0x0500 => Some("PERIPHERAL_NON_KEYBOARD_NON_POINTING"),
        0x0540 => Some("PERIPHERAL_KEYBOARD"),
        0x0580 => Some("PERIPHERAL_POINTING"),
        0x05C0 => Some("PERIPHERAL_KEYBOARD_POINTING"),
        0x0700 => Some("WEARABLE_UNCATEGORIZED"),
        0x0704 => Some("WEARABLE_WRIST_WATCH"),
        0x0708 => Some("WEARABLE_PAGER"),
        0x070C => Some("WEARABLE_JACKET"),
        0x0710 => Some("WEARABLE_HELMET"),
        0x0714 => Some("WEARABLE_GLASSES"),
        0x0800 => Some("TOY_UNCATEGORIZED"),
        0x0804 => Some("TOY_ROBOT"),
        0x0808 => Some("TOY_VEHICLE"),
        0x080C => Some("TOY_DOLL_ACTION_FIGURE"),
        0x0810 => Some("TOY_CONTROLLER"),
        0x0814 => Some("TOY_GAME"),
        0x0900 => Some("HEALTH_UNCATEGORIZED"),
        0x0904 => Some("HEALTH_BLOOD_PRESSURE"),
        0x0908 => Some("HEALTH_THERMOMETER"),
        0x090C => Some("HEALTH_WEIGHING"),
        0x0910 => Some("HEALTH_GLUCOSE"),
        0x0914 => Some("HEALTH_PULSE_OXIMETER"),
        0x0918 => Some("HEALTH_PULSE_RATE"),
        0x091C => Some("HEALTH_DATA_DISPLAY"),
        _ => None,
    }
}

/// Looks a device class up.
pub fn class_devices_minor(key: u32) -> (name: Option<&'static str>)
    ensures
        name == minor_class_name(key),
{
    match key {
        0x0100 => Some("COMPUTER_UNCATEGORIZED"),
        0x0104 => Some("COMPUTER_DESKTOP"),
        0x0108 => Some("COMPUTER_SERVER"),
        0x010C => Some("COMPUTER_LAPTOP"),
        0x0110 => Some("COMPUTER_HANDHELD_PC_PDA"),
        0x0114 => Some("COMPUTER_PALM_SIZE_PC_PDA"),
        0x0118 => Some("COMPUTER_WEARABLE"),
        0x0200 => Some("PHONE_UNCATEGORIZED"),
        0x0204 => Some("PHONE_CELLULAR"),
        0x0208 => Some("PHONE_CORDLESS"),
        0x020C => Some("PHONE_SMART"),
        0x0210 => Some("PHONE_MODEM_OR_GATEWAY"),
        0x0214 => Some("PHONE_ISDN"),
        0x0400 => Some("AUDIO_VIDEO_UNCATEGORIZED"),
        0x0404 => Some("AUDIO_VIDEO_WEARABLE_HEADSET"),
        0x0408 => Some("AUDIO_VIDEO_HANDSFREE"),
        0x0410 => Some("AUDIO_VIDEO_MICROPHONE"),
        0x0414 => Some("AUDIO_VIDEO_LOUDSPEAKER"),
        0x0418 => Some("AUDIO_VIDEO_HEADPHONES"),
        0x041C => Some("AUDIO_VIDEO_PORTABLE_AUDIO"),
        0x0420 => Some("AUDIO_VIDEO_CAR_AUDIO"),
        0x0424 => Some("AUDIO_VIDEO_SET_TOP_BOX"),
        0x0428 => Some("AUDIO_VIDEO_HIFI_AUDIO"),
        0x042C => Some("AUDIO_VIDEO_VCR"),
        0x0430 => Some("AUDIO_VIDEO_VIDEO_CAMERA"),
        0x0434 => Some("AUDIO_VIDEO_CAMCORDER"),
        0x0438 => Some("AUDIO_VIDEO_VIDEO_MONITOR"),
        0x043C => Some("AUDIO_VIDEO_VIDEO_DISPLAY_AND_LOUDSPEAKER"),
        0x0440 => Some("AUDIO_VIDEO_VIDEO_CONFERENCING"),
        0x0448 => Some("AUDIO_VIDEO_VIDEO_GAMING_TOY"),
        0x0500 => Some("PERIPHERAL_NON_KEYBOARD_NON_POINTING"),
        0x0540 => Some("PERIPHERAL_KEYBOARD"),
        0x0580 => Some("PERIPHERAL_POINTING"),
        0x05C0 => Some("PERIPHERAL_KEYBOARD_POINTING"),
        0x0700 => Some("WEARABLE_UNCATEGORIZED"),
        0x0704 => Some("WEARABLE_WRIST_WATCH"),
        0x0708 => Some("WEARABLE_PAGER"),
        0x070C => Some("WEARABLE_JACKET"),
        0x0710 => Some("WEARABLE_HELMET"),
        0x0714 => Some("WEARABLE_GLASSES"),
        0x0800 => Some("TOY_UNCATEGORIZED"),
        0x0804 => Some("TOY_ROBOT"),
        0x0808 => Some("TOY_VEHICLE"),
        0x080C => Some("TOY_DOLL_ACTION_FIGURE"),
        0x0810 => Some("TOY_CONTROLLER"),
        0x0814 => Some("TOY_GAME"),
        0x0900 => Some("HEALTH_UNCATEGORIZED"),
        0x0904 => Some("HEALTH_BLOOD_PRESSURE"),
        0x0908 => Some("HEALTH_THERMOMETER"),
        0x090C => Some("HEALTH_WEIGHING"),
        0x0910 => Some("HEALTH_GLUCOSE"),
        0x0914 => Some("HEALTH_PULSE_OXIMETER"),
        0x0918 => Some("HEALTH_PULSE_RATE"),
        0x091C => Some("HEALTH_DATA_DISPLAY"),
        _ => None,
    }
}

/// Registered name of a 16-bit service UUID.
pub open spec fn uuid_service_name(key: u16) -> Option<&'static str> {
    match key {
        0x1000 => Some("Service Discovery Server"),
        0x1001 => Some("Browse Group Descriptor"),
        0x1002 => Some("Public Browse Group"),
        0x1101 => Some("Serial Port"),
        0x1102 => Some("LAN Access Using PPP"),
        0x1103 => Some("Dialup Networking"),
        0x1104 => Some("IrMC Sync"),
        0x1105 => Some("OBEX Object Push"),
        0x1106 => Some("OBEX File Transfer"),
        0x1107 => Some("IrMC Sync Command"),
        0x1108 => Some("Headset"),
        0x1109 => Some("Cordless Telephony"),
        0x110A => Some("Audio Source"),
        0x110B => Some("Audio Sink"),
        0x110C => Some("A/V Remote Control Target"),
        0x110D => Some("Advanced Audio Distribution"),
        0x110E => Some("A/V Remote Control"),
        0x110F => Some("A/V Remote Control Controller"),
        0x1110 => Some("Intercom"),
        0x1111 => Some("Fax"),
        0x1112 => Some("Headset Audio Gateway"),
        0x1113 => Some("WAP"),
        0x1114 => Some("WAP Client"),
        0x1115 => Some("PANU"),
        0x1116 => Some("NAP"),
        0x1117 => Some("GN"),
        0x1118 => Some("Direct Printing"),
        0x1119 => Some("Reference Printing"),
        0x111A => Some("Basic Imaging Profile"),
        0x111B => Some("Imaging Responder"),
        0x111C => Some("Imaging Automatic Archive"),
        0x111D => Some("Imaging Referenced Objects"),
        0x111E => Some("Handsfree"),
        0x111F => Some("Handsfree Audio Gateway"),
        0x1120 => Some("Direct Printing Reference Objects Service"),
        0x1121 => Some("Reflected UI"),
        0x1122 => Some("Basic Printing"),
        0x1123 => Some("Printing Status"),
        0x1124 => Some("Human Interface Device Service"),
        0x1125 => Some("Hardcopy Cable Replacement"),
        0x1126 => Some("HCR Print"),
        0x1127 => Some("HCR Scan"),
        0x1128 => Some("Common ISDN Access"),
        0x112D => Some("SIM Access"),
        0x112E => Some("Phonebook Access Client"),
        0x112F => Some("Phonebook Access Server"),
        0x1130 => Some("Phonebook Access"),
        0x1131 => Some("Headset HS"),
        0x1132 => Some("Message Access Server"),
        0x1133 => Some("Message Notification Server"),
        0x1134 => Some("Message Access Profile"),
        0x1135 => Some("GNSS"),
        0x1136 => Some("GNSS Server"),
        0x1137 => Some("3D Display"),
        0x1138 => Some("3D Glasses"),
        0x1139 => Some("3D Synchronization"),
        0x113A => Some("MPS Profile"),
        0x113B => Some("MPS Service"),
        0x1200 => Some("PnP Information"),
        0x1201 => Some("Generic Networking"),
        0x1202 => Some("Generic File Transfer"),
        0x1203 => Some("Generic Audio"),
        0x1204 => Some("Generic Telephony"),
        0x1205 => Some("UPnP Service"),
        0x1206 => Some("UPnP IP Service"),
        0x1300 => Some("UPnP IP PAN"),
        0x1301 => Some("UPnP IP LAP"),
        0x1302 => Some("UPnP IP L2CAP"),
        0x1303 => Some("Video Source"),
        0x1304 => Some("Video Sink"),
        0x1305 => Some("Video Distribution"),
        0x1400 => Some("HDP"),
        0x1401 => Some("HDP Source"),
        0x1402 => Some("HDP Sink"),
        0x1800 => Some("Generic Access Profile"),
        0x1801 => Some("Generic Attribute Profile"),
        0x1802 => Some("Immediate Alert"),
        0x1803 => Some("Link Loss"),
        0x1804 => Some("Tx Power"),
        0x1805 => Some("Current Time Service"),
        0x1806 => Some("Reference Time Update Service"),
        0x1807 => Some("Next DST Change Service"),
        0x1808 => Some("Glucose"),
        0x1809 => Some("Health Thermometer"),
        0x180A => Some("Device Information"),
        0x180D => Some("Heart Rate"),
        0x180E => Some("Phone Alert Status Service"),
        0x180F => Some("Battery Service"),
        0x1810 => Some("Blood Pressure"),
        0x1811 => Some("Alert Notification Service"),
        0x1812 => Some("Human Interface Device"),
        0x1813 => Some("Scan Parameters"),
        0x1814 => Some("Running Speed and Cadence"),
        0x1815 => Some("Automation IO"),
        0x1816 => Some("Cycling Speed and Cadence"),
        0x1818 => Some("Cycling Power"),
        0x1819 => Some("Location and Navigation"),
        0x181A => Some("Environmental Sensing"),
        0x181B => Some("Body Composition"),
        0x181C => Some("User Data"),
        0x181D => Some("Weight Scale"),
        0x181E => Some("Bond Management"),
        0x181F => Some("Continuous Glucose Monitoring"),
        0x1820 => Some("Internet Protocol Support"),
        0x1821 => Some("Indoor Positioning"),
        0x1822 => Some("Pulse Oximeter"),
        0x1823 => Some("HTTP Proxy"),
        0x1824 => Some("Transport Discovery"),
        0x1825 => Some("Object Transfer"),
        0x1826 => Some("Fitness Machine"),
        0x1827 => Some("Mesh Provisioning"),
        0x1828 => Some("Mesh Proxy"),
        _ => None,
    }
}

/// Looks a 16-bit service UUID up.
pub fn uuid_services(key: u16) -> (name: Option<&'static str>)
    ensures
        name == uuid_service_name(key),
{
    match key {
        0x1000 => Some("Service Discovery Server"),
        0x1001 => Some("Browse Group Descriptor"),
        0x1002 => Some("Public Browse Group"),
        0x1101 => Some("Serial Port"),
        0x1102 => Some("LAN Access Using PPP"),
        0x1103 => Some("Dialup Networking"),
        0x1104 => Some("IrMC Sync"),
        0x1105 => Some("OBEX Object Push"),
        0x1106 => Some("OBEX File Transfer"),
        0x1107 => Some("IrMC Sync Command"),
        0x1108 => Some("Headset"),
        0x1109 => Some("Cordless Telephony"),
        0x110A => Some("Audio Source"),
        0x110B => Some("Audio Sink"),
        0x110C => Some("A/V Remote Control Target"),
        0x110D => Some("Advanced Audio Distribution"),
        0x110E => Some("A/V Remote Control"),
        0x110F => Some("A/V Remote Control Controller"),
        0x1110 => Some("Intercom"),
        0x1111 => Some("Fax"),
        0x1112 => Some("Headset Audio Gateway"),
        0x1113 => Some("WAP"),
        0x1114 => Some("WAP Client"),
        0x1115 => Some("PANU"),
        0x1116 => Some("NAP"),
        0x1117 => Some("GN"),
        0x1118 => Some("Direct Printing"),
        0x1119 => Some("Reference Printing"),
        0x111A => Some("Basic Imaging Profile"),
        0x111B => Some("Imaging Responder"),
        0x111C => Some("Imaging Automatic Archive"),
        0x111D => Some("Imaging Referenced Objects"),
        0x111E => Some("Handsfree"),
        0x111F => Some("Handsfree Audio Gateway"),
        0x1120 => Some("Direct Printing Reference Objects Service"),
        0x1121 => Some("Reflected UI"),
        0x1122 => Some("Basic Printing"),
        0x1123 => Some("Printing Status"),
        0x1124 => Some("Human Interface Device Service"),
        0x1125 => Some("Hardcopy Cable Replacement"),
        0x1126 => Some("HCR Print"),
        0x1127 => Some("HCR Scan"),
        0x1128 => Some("Common ISDN Access"),
        0x112D => Some("SIM Access"),
        0x112E => Some("Phonebook Access Client"),
        0x112F => Some("Phonebook Access Server"),
        0x1130 => Some("Phonebook Access"),
        0x1131 => Some("Headset HS"),
        0x1132 => Some("Message Access Server"),
        0x1133 => Some("Message Notification Server"),
        0x1134 => Some("Message Access Profile"),
        0x1135 => Some("GNSS"),
        0x1136 => Some("GNSS Server"),
        0x1137 => Some("3D Display"),
        0x1138 => Some("3D Glasses"),
        0x1139 => Some("3D Synchronization"),
        0x113A => Some("MPS Profile"),
        0x113B => Some("MPS Service"),
        0x1200 => Some("PnP Information"),
        0x1201 => Some("Generic Networking"),
        0x1202 => Some("Generic File Transfer"),
        0x1203 => Some("Generic Audio"),
        0x1204 => Some("Generic Telephony"),
        0x1205 => Some("UPnP Service"),
        0x1206 => Some("UPnP IP Service"),
        0x1300 => Some("UPnP IP PAN"),
        0x1301 => Some("UPnP IP LAP"),
        0x1302 => Some("UPnP IP L2CAP"),
        0x1303 => Some("Video Source"),
        0x1304 => Some("Video Sink"),
        0x1305 => Some("Video Distribution"),
        0x1400 => Some("HDP"),
        0x1401 => Some("HDP Source"),
        0x1402 => Some("HDP Sink"),
        0x1800 => Some("Generic Access Profile"),
        0x1801 => Some("Generic Attribute Profile"),
        0x1802 => Some("Immediate Alert"),
        0x1803 => Some("Link Loss"),
        0x1804 => Some("Tx Power"),
        0x1805 => Some("Current Time Service"),
        0x1806 => Some("Reference Time Update Service"),
        0x1807 => Some("Next DST Change Service"),
        0x1808 => Some("Glucose"),
        0x1809 => Some("Health Thermometer"),
        0x180A => Some("Device Information"),
        0x180D => Some("Heart Rate"),
        0x180E => Some("Phone Alert Status Service"),
        0x180F => Some("Battery Service"),
        0x1810 => Some("Blood Pressure"),
        0x1811 => Some("Alert Notification Service"),
        0x1812 => Some("Human Interface Device"),
        0x1813 => Some("Scan Parameters"),
        0x1814 => Some("Running Speed and Cadence"),
        0x1815 => Some("Automation IO"),
        0x1816 => Some("Cycling Speed and Cadence"),
        0x1818 => Some("Cycling Power"),
        0x1819 => Some("Location and Navigation"),
        0x181A => Some("Environmental Sensing"),
        0x181B => Some("Body Composition"),
        0x181C => Some("User Data"),
        0x181D => Some("Weight Scale"),
        0x181E => Some("Bond Management"),
        0x181F => Some("Continuous Glucose Monitoring"),
        0x1820 => Some("Internet Protocol Support"),
        0x1821 => Some("Indoor Positioning"),
        0x1822 => Some("Pulse Oximeter"),
        0x1823 => Some("HTTP Proxy"),
        0x1824 => Some("Transport Discovery"),
        0x1825 => Some("Object Transfer"),
        0x1826 => Some("Fitness Machine"),
        0x1827 => Some("Mesh Provisioning"),
        0x1828 => Some("Mesh Proxy"),
        _ => None,
    }
}

/// The service categories, each with the class bit that announces it, in
/// the order in which they are reported.
pub open spec fn class_services() -> Seq<(u32, &'static str)> {
    seq![
        (0x002000u32, "LIMITED_DISCOVERABILITY"),
        (0x004000u32, "LE_AUDIO"),
        (0x010000u32, "POSITIONING"),
        (0x020000u32, "NETWORKING"),
        (0x040000u32, "RENDER"),
        (0x080000u32, "CAPTURE"),
        (0x100000u32, "OBJECT_TRANSFER"),
        (0x200000u32, "AUDIO"),
        (0x400000u32, "TELEPHONY"),
        (0x800000u32, "INFORMATION"),
    ]
}

/// Entry `index` of the service category table.
pub fn class_service(index: usize) -> (entry: (u32, &'static str))
    requires
        index < CLASS_SERVICE_COUNT,
    ensures
        entry == class_services()[index as int],
{
    match index {
        0 => (0x002000, "LIMITED_DISCOVERABILITY"),
        1 => (0x004000, "LE_AUDIO"),
        2 => (0x010000, "POSITIONING"),
        3 => (0x020000, "NETWORKING"),
        4 => (0x040000, "RENDER"),
        5 => (0x080000, "CAPTURE"),
        6 => (0x100000, "OBJECT_TRANSFER"),
        7 => (0x200000, "AUDIO"),
        8 => (0x400000, "TELEPHONY"),
        _ => (0x800000, "INFORMATION"),
    }
}

} // verus!
