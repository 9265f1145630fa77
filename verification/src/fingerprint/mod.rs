//! Fingerprint readers: the state of a reading and the enrollment data.
use vstd::prelude::*;
use crate::text::str_is;

pub mod gt521fx;

verus! {

/// Where a fingerprint reading stands.
#[derive(Debug, Clone, Copy, PartialEq, Eq, Structural)]
#[allow(non_camel_case_types)]
pub enum FingerprintState {
    IDLE,
    WAITING,
    READING,
    NOT_AUTHORIZED,
    AUTHORIZED,
    ENROLL,
    ERROR,
    SUCCESS,
}

impl FingerprintState {
    pub open spec fn spec_name(self) -> Seq<char> {
        match self {
            FingerprintState::IDLE => "IDLE"@,
            FingerprintState::WAITING => "WAITING"@,
            FingerprintState::READING => "READING"@,
            FingerprintState::NOT_AUTHORIZED => "NOT_AUTHORIZED"@,
            FingerprintState::AUTHORIZED => "AUTHORIZED"@,
            FingerprintState::ENROLL => "ENROLL"@,
            FingerprintState::ERROR => "ERROR"@,
            FingerprintState::SUCCESS => "SUCCESS"@,
        }
    }

    pub fn name(&self) -> (s: &'static str)
        ensures
            s@ == self.spec_name(),
    {
        match self {
            FingerprintState::IDLE => "IDLE",
            FingerprintState::WAITING => "WAITING",
            FingerprintState::READING => "READING",
            FingerprintState::NOT_AUTHORIZED => "NOT_AUTHORIZED",
            FingerprintState::AUTHORIZED => "AUTHORIZED",
            FingerprintState::ENROLL => "ENROLL",
            FingerprintState::ERROR => "ERROR",
            FingerprintState::SUCCESS => "SUCCESS",
        }
    }

    /// Moves to `new_state`.
    pub fn set(&mut self, new_state: FingerprintState)
        ensures
            *final(self) == new_state,
    {
        *self = new_state;
    }
}

/// The slot and the owner of a fingerprint being enrolled.
pub struct FingerprintData {
    pub pos: Option<u16>,
    pub name: Option<String>,
}

impl FingerprintData {
    /// Enrollment data for slot `pos`, owned by `name`.
    pub fn new(pos: u16, name: &str) -> (d: FingerprintData)
        ensures
            d.pos == Some(pos),
            d.name matches Some(n) && n@ == name@,
    {
        FingerprintData { pos: Some(pos), name: Some(name.to_owned()) }
    }

    /// No enrollment.
    pub fn empty() -> (d: FingerprintData)
        ensures
            d.pos is None,
            d.name is None,
    {
        FingerprintData { pos: None, name: None }
    }
}

/// The fingerprint drivers that can be chosen by name.
#[derive(Debug, Clone, Copy, PartialEq, Eq, Structural)]
pub enum FingerprintKind {
    Gt521fx,
}

impl FingerprintKind {
    /// The name the driver of this kind reports.
    pub open spec fn spec_signature(self) -> Seq<char> {
        match self {
            FingerprintKind::Gt521fx => "gt521fx Fingerprint Module"@,
        }
    }

    /// The name the driver of this kind reports (see `spec_signature`).
    pub fn signature(&self) -> (s: String)
        ensures
            s@ == self.spec_signature(),
    {
        match self {
            FingerprintKind::Gt521fx => "gt521fx Fingerprint Module".to_owned(),
        }
    }
}

/// The fingerprint driver called `name` ("gt521fx"), if any.
pub fn fingerprint_by_name(name: &str) -> (r: Option<FingerprintKind>)
    ensures
        name@ == "gt521fx"@ ==> r == Some(FingerprintKind::Gt521fx),
        name@ != "gt521fx"@ ==> r is None,
        r matches Some(k) ==> k.spec_signature() == "gt521fx Fingerprint Module"@,
{
    if str_is(name, "gt521fx") {
        Some(FingerprintKind::Gt521fx)
    } else {
        None
    }
}

/// A fingerprint sensor driver. `wait_for_finger` reports each state of a
/// reading to `func`, with the matched slot where there is one.
pub trait Fingerprint {
    fn init(&mut self) -> Result<(), String>;
    fn wait_for_finger<F: Fn(&FingerprintState, Option<&str>) -> bool + Send + 'static>(&mut self, func: F) -> Result<(), String>;
    fn unload(&mut self) -> Result<(), String>;
    fn signature(&self) -> String;
    fn start_enroll(&mut self, data: &FingerprintData) -> bool;
    fn delete_all(&mut self) -> bool;
}

} // verus!
