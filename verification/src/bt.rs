//! Bluetooth LE presence: the devices seen, their properties, the driver.
use vstd::prelude::*;
use std::time::Instant;
use crate::text::str_is;

verus! {

/// The monotonic clock reading of the standard library.
#[verifier::external_type_specification]
#[verifier::external_body]
pub struct ExInstant(Instant);

/// `std::time::Instant::now`: the current reading of the monotonic clock.
/// Nothing is stated of the reading.
#[verifier::external_body]
fn instant_now() -> Instant {
    Instant::now()
}

/// A Bluetooth device that was seen: its name, address, signal strength, when
/// it was first seen and when it was last let in.
pub struct BluetoothDevice {
    pub name: String,
    pub addr: String,
    pub rssi: i16,
    pub created: Instant,
    pub access: Option<Instant>,
}

impl BluetoothDevice {
    /// A device with address `addr` seen now: no name, no signal strength,
    /// never let in.
    pub fn new(addr: String) -> (d: BluetoothDevice)
        ensures
            d.name@ == Seq::<char>::empty(),
            d.addr@ == addr@,
            d.rssi == 0,
            d.access is None,
    {
        BluetoothDevice { name: String::new(), addr: addr, rssi: 0, created: instant_now(), access: None }
    }
}

/// The properties of a Bluetooth device.
#[derive(Debug, Clone, Copy, PartialEq, Eq, Structural, Hash)]
pub enum BluetoothProps {
    Address,
    Name,
    Icon,
    Class,
    Uuids,
    Paired,
    Connected,
    Trusted,
    Rssi,
    TxPower,
    Manufacturer,
    Service,
}

impl BluetoothProps {
    pub open spec fn spec_name(self) -> Seq<char> {
        match self {
            BluetoothProps::Address => "ADDRESS"@,
            BluetoothProps::Name => "NAME"@,
            BluetoothProps::Icon => "ICON"@,
            BluetoothProps::Class => "CLASS"@,
            BluetoothProps::Uuids => "UUIDS"@,
            BluetoothProps::Paired => "PAIRED"@,
            BluetoothProps::Connected => "CONNECTED"@,
            BluetoothProps::Trusted => "TRUSTED"@,
            BluetoothProps::Rssi => "RSSI"@,
            BluetoothProps::TxPower => "TX_POWER"@,
            BluetoothProps::Manufacturer => "MANUFACTURER"@,
            BluetoothProps::Service => "SERVICE"@,
        }
    }

    pub fn name(&self) -> (s: &'static str)
        ensures
            s@ == self.spec_name(),
    {
        match self {
            BluetoothProps::Address => "ADDRESS",
            BluetoothProps::Name => "NAME",
            BluetoothProps::Icon => "ICON",
            BluetoothProps::Class => "CLASS",
            BluetoothProps::Uuids => "UUIDS",
            BluetoothProps::Paired => "PAIRED",
            BluetoothProps::Connected => "CONNECTED",
            BluetoothProps::Trusted => "TRUSTED",
            BluetoothProps::Rssi => "RSSI",
            BluetoothProps::TxPower => "TX_POWER",
            BluetoothProps::Manufacturer => "MANUFACTURER",
            BluetoothProps::Service => "SERVICE",
        }
    }

    /// Becomes `new_state`.
    pub fn set(&mut self, new_state: BluetoothProps)
        ensures
            *final(self) == new_state,
    {
        *self = new_state;
    }
}

/// The address and the owner of a device being enrolled.
pub struct BluetoothData {
    pub address: Option<String>,
    pub name: Option<String>,
}

impl BluetoothData {
    /// Enrollment data for the device at `address`, owned by `name`.
    pub fn new(address: &str, name: &str) -> (d: BluetoothData)
        ensures
            d.address matches Some(a) && a@ == address@,
            d.name matches Some(n) && n@ == name@,
    {
        BluetoothData { address: Some(address.to_owned()), name: Some(name.to_owned()) }
    }

    /// No enrollment.
    pub fn empty() -> (d: BluetoothData)
        ensures
            d.address is None,
            d.name is None,
    {
        BluetoothData { address: None, name: None }
    }
}

/// The Bluetooth drivers that can be chosen by name.
#[derive(Debug, Clone, Copy, PartialEq, Eq, Structural)]
pub enum BluetoothKind {
    BlueZ,
}

impl BluetoothKind {
    /// The name the driver of this kind reports.
    pub open spec fn spec_signature(self) -> Seq<char> {
        match self {
            BluetoothKind::BlueZ => "BlueZ bluetooth module"@,
        }
    }

    /// The name the driver of this kind reports (see `spec_signature`).
    pub fn signature(&self) -> (s: String)
        ensures
            s@ == self.spec_signature(),
    {
        match self {
            BluetoothKind::BlueZ => "BlueZ bluetooth module".to_owned(),
        }
    }
}

/// The Bluetooth driver called `name` ("bluez"), if any.
pub fn bluetooth_by_name(name: &str) -> (r: Option<BluetoothKind>)
    ensures
        name@ == "bluez"@ ==> r == Some(BluetoothKind::BlueZ),
        name@ != "bluez"@ ==> r is None,
        r matches Some(k) ==> k.spec_signature() == "BlueZ bluetooth module"@,
{
    if str_is(name, "bluez") {
        Some(BluetoothKind::BlueZ)
    } else {
        None
    }
}

/// The advertisement a key fob of the system sends, as the monitor matches
/// it: from offset 4, in the manufacturer data (type 0xFF), these 16 bytes.
pub struct PresencePattern {
    pub start_position: u8,
    pub ad_data_type: u8,
    pub content: Vec<u8>,
}

/// The advertisement the monitor looks for (see `PresencePattern`), with the
/// signal thresholds of 127 and timeouts of 0 that report every sighting.
pub fn presence_pattern() -> (p: PresencePattern)
    ensures
        p.start_position == 4,
        p.ad_data_type == 0xff,
        p.content@ == seq![0x9bu8, 0xfb, 0xef, 0x3a, 0x21, 0x0a, 0x4b, 0x3a, 0x9e, 0x58, 0x24, 0xe7, 0xcd,
            0x83, 0x54, 0xed],
{
    let content = vec![
        0x9b, 0xfb, 0xef, 0x3a, 0x21, 0x0a, 0x4b, 0x3a, 0x9e, 0x58, 0x24, 0xe7, 0xcd, 0x83, 0x54, 0xed,
    ];
    assert(content@ =~= seq![0x9bu8, 0xfb, 0xef, 0x3a, 0x21, 0x0a, 0x4b, 0x3a, 0x9e, 0x58, 0x24, 0xe7,
        0xcd, 0x83, 0x54, 0xed]);
    PresencePattern { start_position: 4, ad_data_type: 0xff, content }
}

/// A Bluetooth driver, as far as the system drives it directly; starting
/// the scan and waiting for devices belong to the program around the library.
pub trait Bluetooth {
    fn unload(&mut self) -> Result<(), String>;
    fn delete_all(&mut self) -> bool;
    fn start_enroll(&mut self, data: &BluetoothData) -> bool;
    fn signature(&self) -> String;
}

} // verus!
