//! Audio: which melody answers which event, and the audio drivers.
use vstd::prelude::*;
use crate::text::str_is;
use crate::audio::sounds::{Melody, Sounds, piratescaribean_tones, piratescaribean_periods, supermario_tones, supermario_periods, bip_tones, bip_periods, starwars_1s_tones, starwars_2s_tones, starwars_1v_tones, starwars_2v_tones, starwars_1s_periods, starwars_2s_periods, starwars_1v_periods, starwars_2v_periods};

pub mod sounds;

verus! {

/// The audio drivers that can be chosen by name.
#[derive(Debug, Clone, Copy, PartialEq, Eq, Structural)]
pub enum AudioKind {
    Buzzer,
}

impl AudioKind {
    /// The name the driver of this kind reports.
    pub open spec fn spec_signature(self) -> Seq<char> {
        match self {
            AudioKind::Buzzer => "Buzzer Audio Module"@,
        }
    }

    /// The name the driver of this kind reports (see `spec_signature`).
    pub fn signature(&self) -> (s: String)
        ensures
            s@ == self.spec_signature(),
    {
        match self {
            AudioKind::Buzzer => "Buzzer Audio Module".to_owned(),
        }
    }
}

/// The audio driver called `name` ("buzzer"), if any.
pub fn audio_by_name(name: &str) -> (r: Option<AudioKind>)
    ensures
        name@ == "buzzer"@ ==> r == Some(AudioKind::Buzzer),
        name@ != "buzzer"@ ==> r is None,
        r matches Some(k) ==> k.spec_signature() == "Buzzer Audio Module"@,
{
    if str_is(name, "buzzer") {
        Some(AudioKind::Buzzer)
    } else {
        None
    }
}

/// What the system tells the user with a sound.
#[derive(Debug, Clone, Copy, PartialEq, Eq, Structural)]
pub enum AudioEvent {
    /// A card or fingerprint was added.
    New,
    /// Access granted.
    Granted,
    /// Access denied.
    Denied,
    /// An operation succeeded.
    Success,
    /// An operation failed.
    Error,
    /// The system waits for a card or a finger.
    Alert,
}

/// The notes of the Imperial March as the buzzer plays it for denials and errors.
pub open spec fn starwars_melody_tones() -> Seq<crate::audio::sounds::Tone> {
    (starwars_1s_tones() + starwars_2s_tones() + starwars_1v_tones() + starwars_2s_tones()
        + starwars_2v_tones()).take(10)
}

/// The note lengths of the Imperial March as the buzzer plays it.
pub open spec fn starwars_melody_periods() -> Seq<i32> {
    (starwars_1s_periods() + starwars_2s_periods() + starwars_1v_periods() + starwars_2s_periods()
        + starwars_2v_periods()).take(10)
}

/// The melody the buzzer plays for `event`: the Super Mario theme for a new
/// card, a grant and a success; the Imperial March for a denial and an
/// error; beeps for an alert.
pub fn melody_for(event: AudioEvent) -> (m: Melody)
    ensures
        (event == AudioEvent::New || event == AudioEvent::Granted || event == AudioEvent::Success)
            ==> m.tones@ == supermario_tones().take(10) && m.periods@ == supermario_periods().take(10),
        (event == AudioEvent::Denied || event == AudioEvent::Error) ==> m.tones@
            == starwars_melody_tones() && m.periods@ == starwars_melody_periods(),
        event == AudioEvent::Alert ==> m.tones@ == bip_tones() && m.periods@ == bip_periods(),
{
    match event {
        AudioEvent::New => Sounds::supermario(),
        AudioEvent::Granted => Sounds::supermario(),
        AudioEvent::Denied => Sounds::starwars(),
        AudioEvent::Success => Sounds::supermario(),
        AudioEvent::Error => Sounds::starwars(),
        AudioEvent::Alert => Sounds::bip(),
    }
}

/// The melody the buzzer plays when it starts: the first notes of "He's a Pirate".
pub fn startup_melody() -> (m: Melody)
    ensures
        m.tones@ == piratescaribean_tones().take(37),
        m.periods@ == piratescaribean_periods().take(37),
{
    Sounds::piratescaribean()
}

/// An audio driver: plays the sound of each event.
pub trait Audio {
    fn init(&mut self) -> Result<(), String>;
    fn play_new(&mut self) -> Result<(), String>;
    fn play_granted(&mut self) -> Result<(), String>;
    fn play_denied(&mut self) -> Result<(), String>;
    fn play_success(&mut self) -> Result<(), String>;
    fn play_error(&mut self) -> Result<(), String>;
    fn play_alert(&mut self) -> Result<(), String>;
    fn unload(&mut self) -> Result<(), String>;
    fn signature(&self) -> String;
}

} // verus!
