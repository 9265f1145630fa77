//! Persistence: the records kept of authorized cards and fingerprints.
use vstd::prelude::*;
use std::collections::HashMap;
use crate::text::str_is;

verus! {

/// An authorized card: its record id, UID and owner.
pub struct Card {
    pub id: i32,
    pub uuid: Vec<u8>,
    pub name: Vec<u8>,
}

/// An enrolled fingerprint: its record id, slot in the sensor and owner.
pub struct Fingerprint {
    pub id: i32,
    pub pos: i32,
    pub name: Vec<u8>,
}

/// The first of the records a lookup found, or "Card Not Found".
pub fn first_card(rows: Vec<Card>) -> (r: Result<Card, String>)
    ensures
        rows@.len() == 0 ==> r is Err,
        rows@.len() > 0 ==> (r matches Ok(c) && c.id == rows@[0].id && c.uuid@ == rows@[0].uuid@
            && c.name@ == rows@[0].name@),
{
    let mut rows = rows;
    if rows.len() == 0 {
        return Err("Card Not Found".to_owned());
    }
    let c = rows.remove(0);
    Ok(c)
}

/// The first of the records a lookup found, or "Fingerprint Not Found".
pub fn first_fingerprint(rows: Vec<Fingerprint>) -> (r: Result<Fingerprint, String>)
    ensures
        rows@.len() == 0 ==> r is Err,
        rows@.len() > 0 ==> (r matches Ok(f) && f.id == rows@[0].id && f.pos == rows@[0].pos
            && f.name@ == rows@[0].name@),
{
    let mut rows = rows;
    if rows.len() == 0 {
        return Err("Fingerprint Not Found".to_owned());
    }
    let f = rows.remove(0);
    Ok(f)
}

/// The persistence drivers that can be chosen by name.
#[derive(Debug, Clone, Copy, PartialEq, Eq, Structural)]
pub enum PersistKind {
    Sqlite,
}

/// The persistence driver called `name` ("sqlite"), if any.
pub fn persist_by_name(name: &str) -> (r: Option<PersistKind>)
    ensures
        name@ == "sqlite"@ ==> r == Some(PersistKind::Sqlite),
        name@ != "sqlite"@ ==> r is None,
{
    if str_is(name, "sqlite") {
        Some(PersistKind::Sqlite)
    } else {
        None
    }
}

/// A persistence driver: the records of authorized cards and fingerprints.
pub trait Persist {
    fn init(&mut self, params: &HashMap<String, String>) -> Result<(), String>;
    fn unload(&mut self) -> Result<(), String>;
    fn nfc_add(&mut self, uuid: &Vec<u8>, name: &Vec<u8>) -> Result<(), String>;
    fn nfc_find(&mut self, uuid: &Vec<u8>) -> Result<Card, String>;
    fn nfc_list(&mut self) -> Result<Vec<Card>, String>;
    fn nfc_delete(&mut self, uuid: &Vec<u8>) -> Result<(), String>;
    fn fingerprint_add(&mut self, pos: i32, name: &Vec<u8>) -> Result<(), String>;
    fn fingerprint_find(&mut self, pos: i32) -> Result<Fingerprint, String>;
    fn fingerprint_list(&mut self) -> Result<Vec<Fingerprint>, String>;
    fn fingerprint_delete(&mut self, pos: i32) -> Result<(), String>;
}

} // verus!
