//! NFC readers: card types, MIFARE commands and the PN532 and MFRC522 protocols.
use vstd::prelude::*;
use crate::text::str_is;

pub mod mfrc522;
pub mod mifare;
pub mod pn532_spi;

verus! {

/// The card families a reader may be asked to look for.
#[derive(Debug, Clone, Copy, PartialEq, Eq, Structural)]
pub enum CardType {
    Mifare,
    FelicaA,
    FelicaB,
    Jewel,
}

impl CardType {
    /// Ordinal of the card type, in declaration order.
    /// The codes of the card types, no two alike.
    pub proof fn lemma_code_table(self, other: CardType)
        ensures
            self.code() == other.code() ==> self == other,
            CardType::Mifare.code() == 0,
            CardType::FelicaA.code() == 1,
            CardType::FelicaB.code() == 2,
            CardType::Jewel.code() == 3,
    {
    }

    pub open spec fn code(self) -> u8 {
        match self {
            CardType::Mifare => 0,
            CardType::FelicaA => 1,
            CardType::FelicaB => 2,
            CardType::Jewel => 3,
        }
    }

    pub open spec fn spec_name(self) -> Seq<char> {
        match self {
            CardType::Mifare => "Mifare"@,
            CardType::FelicaA => "FelicaA"@,
            CardType::FelicaB => "FelicaB"@,
            CardType::Jewel => "Jewel"@,
        }
    }

    pub fn value(&self) -> (v: u8)
        ensures
            v == self.code(),
    {
        match self {
            CardType::Mifare => 0,
            CardType::FelicaA => 1,
            CardType::FelicaB => 2,
            CardType::Jewel => 3,
        }
    }

    pub fn name(&self) -> (s: &'static str)
        ensures
            s@ == self.spec_name(),
    {
        match self {
            CardType::Mifare => "Mifare",
            CardType::FelicaA => "FelicaA",
            CardType::FelicaB => "FelicaB",
            CardType::Jewel => "Jewel",
        }
    }
}

/// What a sector-trailer rewrite does: lock the card with the custom keys,
/// or give it back the factory keys.
#[derive(Debug, Clone, Copy, PartialEq, Eq, Structural)]
pub enum WriteSecMode {
    Format,
    Restore,
}

/// An NFC reader driver.
pub trait NfcReader {
    fn init(&mut self) -> Result<(), String>;
    fn unload(&mut self) -> Result<(), String>;
    fn find_tag<F: Fn(CardType, Vec<u8>) -> bool + Send + 'static>(&mut self, func: F) -> Result<(), String>;
    fn set_auth_keys(&mut self, key_a: &Vec<u8>, key_b: &Vec<u8>) -> Result<(), String>;
    fn set_auth_bits(&mut self, access_bits: Vec<u8>) -> Result<(), String>;
    fn format(&mut self, uuid: &Vec<u8>) -> Result<(), String>;
    fn restore(&mut self, uuid: &Vec<u8>) -> Result<(), String>;
    fn read_data(&mut self, uuid: &Vec<u8>, addr: u8, blocks: u8) -> Result<Vec<u8>, String>;
    fn write_data(&mut self, uuid: &Vec<u8>, addr: u8, data: &Vec<u8>) -> Result<u8, String>;
    fn signature(&self) -> String;
}

/// The NFC reader drivers that can be chosen by name.
#[derive(Debug, Clone, Copy, PartialEq, Eq, Structural)]
pub enum NfcReaderKind {
    Mfrc522,
    Pn532Spi,
}

impl NfcReaderKind {
    /// The name the driver of this kind reports.
    pub open spec fn spec_signature(self) -> Seq<char> {
        match self {
            NfcReaderKind::Mfrc522 => "MFRC522 Mifare Reader Module"@,
            NfcReaderKind::Pn532Spi => "PN532 NFC Reader Module"@,
        }
    }

    /// The name the driver of this kind reports (see `spec_signature`).
    pub fn signature(&self) -> (s: String)
        ensures
            s@ == self.spec_signature(),
    {
        match self {
            NfcReaderKind::Mfrc522 => "MFRC522 Mifare Reader Module".to_owned(),
            NfcReaderKind::Pn532Spi => "PN532 NFC Reader Module".to_owned(),
        }
    }
}

/// The reader driver called `name` ("mfrc522" or "pn532_spi"), if any.
pub fn nfcreader_by_name(name: &str) -> (r: Option<NfcReaderKind>)
    ensures
        name@ == "mfrc522"@ ==> r == Some(NfcReaderKind::Mfrc522),
        name@ == "pn532_spi"@ ==> r == Some(NfcReaderKind::Pn532Spi),
        name@ != "mfrc522"@ && name@ != "pn532_spi"@ ==> r.is_none(),
        name@ == "mfrc522"@ ==> r.unwrap().spec_signature() == "MFRC522 Mifare Reader Module"@,
        name@ == "pn532_spi"@ ==> r.unwrap().spec_signature() == "PN532 NFC Reader Module"@,
{
    proof {
        reveal_strlit("mfrc522");
        reveal_strlit("pn532_spi");
        assert("mfrc522"@.len() != "pn532_spi"@.len());
    }
    if str_is(name, "mfrc522") {
        Some(NfcReaderKind::Mfrc522)
    } else if str_is(name, "pn532_spi") {
        Some(NfcReaderKind::Pn532Spi)
    } else {
        None
    }
}

} // verus!
