//! Access control for doors: NFC card readers (PN532, MFRC522), a GT521FX
//! fingerprint sensor, a NeoPixel ring, a buzzer and Bluetooth LE presence.
//! The library holds the wire formats, the device protocols and the decisions
//! of the access control system; the program around it does the I/O.
use vstd::prelude::*;

pub mod audio;
pub mod bt;
pub mod bytes;
pub mod display;
pub mod fingerprint;
pub mod log;
pub mod nfc;
pub mod persist;
pub mod server;
pub mod service;
pub mod system;
pub mod text;

verus! {

} // verus!
