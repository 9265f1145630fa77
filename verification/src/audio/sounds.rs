//! Buzzer sounds: the notes, the melodies, and the tunes played note by note.
use vstd::prelude::*;

verus! {


/// The notes the buzzer plays, by their frequency in Hz (NOTE_NULL is a rest).
#[derive(Debug, Clone, Copy, PartialEq, Eq, Structural)]
#[allow(non_camel_case_types)]
pub enum Tone {
    NOTE_NULL,
    NOTE_B0,
    NOTE_C1,
    NOTE_CS1,
    NOTE_D1,
    NOTE_DS1,
    NOTE_E1,
    NOTE_F1,
    NOTE_FS1,
    NOTE_G1,
    NOTE_GS1,
    NOTE_A1,
    NOTE_AS1,
    NOTE_B1,
    NOTE_C2,
    NOTE_CS2,
    NOTE_D2,
    NOTE_DS2,
    NOTE_E2,
    NOTE_F2,
    NOTE_FS2,
    NOTE_G2,
    NOTE_GS2,
    NOTE_A2,
    NOTE_AS2,
    NOTE_B2,
    NOTE_C3,
    NOTE_CS3,
    NOTE_D3,
    NOTE_DS3,
    NOTE_E3,
    NOTE_F3,
    NOTE_FS3,
    NOTE_G3,
    NOTE_GS3,
    NOTE_A3,
    NOTE_AS3,
    NOTE_B3,
    NOTE_C4,
    NOTE_CS4,
    NOTE_D4,
    NOTE_DS4,
    NOTE_E4,
    NOTE_F4,
    NOTE_FS4,
    NOTE_G4,
    NOTE_GS4,
    NOTE_A4,
    NOTE_AS4,
    NOTE_B4,
    NOTE_C5,
    NOTE_CS5,
    NOTE_D5,
    NOTE_DS5,
    NOTE_E5,
    NOTE_F5,
    NOTE_FS5,
    NOTE_G5,
    NOTE_GS5,
    NOTE_A5,
    NOTE_AS5,
    NOTE_B5,
    NOTE_C6,
    NOTE_CS6,
    NOTE_D6,
    NOTE_DS6,
    NOTE_E6,
    NOTE_F6,
    NOTE_FS6,
    NOTE_G6,
    NOTE_GS6,
    NOTE_A6,
    NOTE_AS6,
    NOTE_B6,
    NOTE_C7,
    NOTE_CS7,
    NOTE_D7,
    NOTE_DS7,
    NOTE_E7,
    NOTE_F7,
    NOTE_FS7,
    NOTE_G7,
    NOTE_GS7,
    NOTE_A7,
    NOTE_AS7,
    NOTE_B7,
    NOTE_C8,
    NOTE_CS8,
    NOTE_D8,
    NOTE_DS8,
}

impl Tone {
    /// The frequency of the note in Hz.
    /// The notes are the equal-tempered chromatic scale from B0 to D#8 (in
    /// whole Hz, as the buzzer takes them), tuned to A4 = 440 Hz: each note
    /// is higher than the one a semitone below it, a note an octave up is
    /// twice as high to within 1 Hz, and NOTE_NULL is silence (0 Hz).
    pub proof fn lemma_chromatic_scale()
        ensures
            Tone::NOTE_NULL.freq() == 0,
            Tone::NOTE_A4.freq() == 440,
            Tone::NOTE_B0.freq() < Tone::NOTE_C1.freq(),
            Tone::NOTE_C1.freq() < Tone::NOTE_CS1.freq(),
            Tone::NOTE_CS1.freq() < Tone::NOTE_D1.freq(),
            Tone::NOTE_D1.freq() < Tone::NOTE_DS1.freq(),
            Tone::NOTE_DS1.freq() < Tone::NOTE_E1.freq(),
            Tone::NOTE_E1.freq() < Tone::NOTE_F1.freq(),
            Tone::NOTE_F1.freq() < Tone::NOTE_FS1.freq(),
            Tone::NOTE_FS1.freq() < Tone::NOTE_G1.freq(),
            Tone::NOTE_G1.freq() < Tone::NOTE_GS1.freq(),
            Tone::NOTE_GS1.freq() < Tone::NOTE_A1.freq(),
            Tone::NOTE_A1.freq() < Tone::NOTE_AS1.freq(),
            Tone::NOTE_AS1.freq() < Tone::NOTE_B1.freq(),
            Tone::NOTE_B1.freq() < Tone::NOTE_C2.freq(),
            Tone::NOTE_C2.freq() < Tone::NOTE_CS2.freq(),
            Tone::NOTE_CS2.freq() < Tone::NOTE_D2.freq(),
            Tone::NOTE_D2.freq() < Tone::NOTE_DS2.freq(),
            Tone::NOTE_DS2.freq() < Tone::NOTE_E2.freq(),
            Tone::NOTE_E2.freq() < Tone::NOTE_F2.freq(),
            Tone::NOTE_F2.freq() < Tone::NOTE_FS2.freq(),
            Tone::NOTE_FS2.freq() < Tone::NOTE_G2.freq(),
            Tone::NOTE_G2.freq() < Tone::NOTE_GS2.freq(),
            Tone::NOTE_GS2.freq() < Tone::NOTE_A2.freq(),
            Tone::NOTE_A2.freq() < Tone::NOTE_AS2.freq(),
            Tone::NOTE_AS2.freq() < Tone::NOTE_B2.freq(),
            Tone::NOTE_B2.freq() < Tone::NOTE_C3.freq(),
            Tone::NOTE_C3.freq() < Tone::NOTE_CS3.freq(),
            Tone::NOTE_CS3.freq() < Tone::NOTE_D3.freq(),
            Tone::NOTE_D3.freq() < Tone::NOTE_DS3.freq(),
            Tone::NOTE_DS3.freq() < Tone::NOTE_E3.freq(),
            Tone::NOTE_E3.freq() < Tone::NOTE_F3.freq(),
            Tone::NOTE_F3.freq() < Tone::NOTE_FS3.freq(),
            Tone::NOTE_FS3.freq() < Tone::NOTE_G3.freq(),
            Tone::NOTE_G3.freq() < Tone::NOTE_GS3.freq(),
            Tone::NOTE_GS3.freq() < Tone::NOTE_A3.freq(),
            Tone::NOTE_A3.freq() < Tone::NOTE_AS3.freq(),
            Tone::NOTE_AS3.freq() < Tone::NOTE_B3.freq(),
            Tone::NOTE_B3.freq() < Tone::NOTE_C4.freq(),
            Tone::NOTE_C4.freq() < Tone::NOTE_CS4.freq(),
            Tone::NOTE_CS4.freq() < Tone::NOTE_D4.freq(),
            Tone::NOTE_D4.freq() < Tone::NOTE_DS4.freq(),
            Tone::NOTE_DS4.freq() < Tone::NOTE_E4.freq(),
            Tone::NOTE_E4.freq() < Tone::NOTE_F4.freq(),
            Tone::NOTE_F4.freq() < Tone::NOTE_FS4.freq(),
            Tone::NOTE_FS4.freq() < Tone::NOTE_G4.freq(),
            Tone::NOTE_G4.freq() < Tone::NOTE_GS4.freq(),
            Tone::NOTE_GS4.freq() < Tone::NOTE_A4.freq(),
            Tone::NOTE_A4.freq() < Tone::NOTE_AS4.freq(),
            Tone::NOTE_AS4.freq() < Tone::NOTE_B4.freq(),
            Tone::NOTE_B4.freq() < Tone::NOTE_C5.freq(),
            Tone::NOTE_C5.freq() < Tone::NOTE_CS5.freq(),
            Tone::NOTE_CS5.freq() < Tone::NOTE_D5.freq(),
            Tone::NOTE_D5.freq() < Tone::NOTE_DS5.freq(),
            Tone::NOTE_DS5.freq() < Tone::NOTE_E5.freq(),
            Tone::NOTE_E5.freq() < Tone::NOTE_F5.freq(),
            Tone::NOTE_F5.freq() < Tone::NOTE_FS5.freq(),
            Tone::NOTE_FS5.freq() < Tone::NOTE_G5.freq(),
            Tone::NOTE_G5.freq() < Tone::NOTE_GS5.freq(),
            Tone::NOTE_GS5.freq() < Tone::NOTE_A5.freq(),
            Tone::NOTE_A5.freq() < Tone::NOTE_AS5.freq(),
            Tone::NOTE_AS5.freq() < Tone::NOTE_B5.freq(),
            Tone::NOTE_B5.freq() < Tone::NOTE_C6.freq(),
            Tone::NOTE_C6.freq() < Tone::NOTE_CS6.freq(),
            Tone::NOTE_CS6.freq() < Tone::NOTE_D6.freq(),
            Tone::NOTE_D6.freq() < Tone::NOTE_DS6.freq(),
            Tone::NOTE_DS6.freq() < Tone::NOTE_E6.freq(),
            Tone::NOTE_E6.freq() < Tone::NOTE_F6.freq(),
            Tone::NOTE_F6.freq() < Tone::NOTE_FS6.freq(),
            Tone::NOTE_FS6.freq() < Tone::NOTE_G6.freq(),
            Tone::NOTE_G6.freq() < Tone::NOTE_GS6.freq(),
            Tone::NOTE_GS6.freq() < Tone::NOTE_A6.freq(),
            Tone::NOTE_A6.freq() < Tone::NOTE_AS6.freq(),
            Tone::NOTE_AS6.freq() < Tone::NOTE_B6.freq(),
            Tone::NOTE_B6.freq() < Tone::NOTE_C7.freq(),
            Tone::NOTE_C7.freq() < Tone::NOTE_CS7.freq(),
            Tone::NOTE_CS7.freq() < Tone::NOTE_D7.freq(),
            Tone::NOTE_D7.freq() < Tone::NOTE_DS7.freq(),
            Tone::NOTE_DS7.freq() < Tone::NOTE_E7.freq(),
            Tone::NOTE_E7.freq() < Tone::NOTE_F7.freq(),
            Tone::NOTE_F7.freq() < Tone::NOTE_FS7.freq(),
            Tone::NOTE_FS7.freq() < Tone::NOTE_G7.freq(),
            Tone::NOTE_G7.freq() < Tone::NOTE_GS7.freq(),
            Tone::NOTE_GS7.freq() < Tone::NOTE_A7.freq(),
            Tone::NOTE_A7.freq() < Tone::NOTE_AS7.freq(),
            Tone::NOTE_AS7.freq() < Tone::NOTE_B7.freq(),
            Tone::NOTE_B7.freq() < Tone::NOTE_C8.freq(),
            Tone::NOTE_C8.freq() < Tone::NOTE_CS8.freq(),
            Tone::NOTE_CS8.freq() < Tone::NOTE_D8.freq(),
            Tone::NOTE_D8.freq() < Tone::NOTE_DS8.freq(),
            -1 <= Tone::NOTE_B1.freq() - 2 * Tone::NOTE_B0.freq() <= 1,
            -1 <= Tone::NOTE_C2.freq() - 2 * Tone::NOTE_C1.freq() <= 1,
            -1 <= Tone::NOTE_CS2.freq() - 2 * Tone::NOTE_CS1.freq() <= 1,
            -1 <= Tone::NOTE_D2.freq() - 2 * Tone::NOTE_D1.freq() <= 1,
            -1 <= Tone::NOTE_DS2.freq() - 2 * Tone::NOTE_DS1.freq() <= 1,
            -1 <= Tone::NOTE_E2.freq() - 2 * Tone::NOTE_E1.freq() <= 1,
            -1 <= Tone::NOTE_F2.freq() - 2 * Tone::NOTE_F1.freq() <= 1,
            -1 <= Tone::NOTE_FS2.freq() - 2 * Tone::NOTE_FS1.freq() <= 1,
            -1 <= Tone::NOTE_G2.freq() - 2 * Tone::NOTE_G1.freq() <= 1,
            -1 <= Tone::NOTE_GS2.freq() - 2 * Tone::NOTE_GS1.freq() <= 1,
            -1 <= Tone::NOTE_A2.freq() - 2 * Tone::NOTE_A1.freq() <= 1,
            -1 <= Tone::NOTE_AS2.freq() - 2 * Tone::NOTE_AS1.freq() <= 1,
            -1 <= Tone::NOTE_B2.freq() - 2 * Tone::NOTE_B1.freq() <= 1,
            -1 <= Tone::NOTE_C3.freq() - 2 * Tone::NOTE_C2.freq() <= 1,
            -1 <= Tone::NOTE_CS3.freq() - 2 * Tone::NOTE_CS2.freq() <= 1,
            -1 <= Tone::NOTE_D3.freq() - 2 * Tone::NOTE_D2.freq() <= 1,
            -1 <= Tone::NOTE_DS3.freq() - 2 * Tone::NOTE_DS2.freq() <= 1,
            -1 <= Tone::NOTE_E3.freq() - 2 * Tone::NOTE_E2.freq() <= 1,
            -1 <= Tone::NOTE_F3.freq() - 2 * Tone::NOTE_F2.freq() <= 1,
            -1 <= Tone::NOTE_FS3.freq() - 2 * Tone::NOTE_FS2.freq() <= 1,
            -1 <= Tone::NOTE_G3.freq() - 2 * Tone::NOTE_G2.freq() <= 1,
            -1 <= Tone::NOTE_GS3.freq() - 2 * Tone::NOTE_GS2.freq() <= 1,
            -1 <= Tone::NOTE_A3.freq() - 2 * Tone::NOTE_A2.freq() <= 1,
            -1 <= Tone::NOTE_AS3.freq() - 2 * Tone::NOTE_AS2.freq() <= 1,
            -1 <= Tone::NOTE_B3.freq() - 2 * Tone::NOTE_B2.freq() <= 1,
            -1 <= Tone::NOTE_C4.freq() - 2 * Tone::NOTE_C3.freq() <= 1,
            -1 <= Tone::NOTE_CS4.freq() - 2 * Tone::NOTE_CS3.freq() <= 1,
            -1 <= Tone::NOTE_D4.freq() - 2 * Tone::NOTE_D3.freq() <= 1,
            -1 <= Tone::NOTE_DS4.freq() - 2 * Tone::NOTE_DS3.freq() <= 1,
            -1 <= Tone::NOTE_E4.freq() - 2 * Tone::NOTE_E3.freq() <= 1,
            -1 <= Tone::NOTE_F4.freq() - 2 * Tone::NOTE_F3.freq() <= 1,
            -1 <= Tone::NOTE_FS4.freq() - 2 * Tone::NOTE_FS3.freq() <= 1,
            -1 <= Tone::NOTE_G4.freq() - 2 * Tone::NOTE_G3.freq() <= 1,
            -1 <= Tone::NOTE_GS4.freq() - 2 * Tone::NOTE_GS3.freq() <= 1,
            -1 <= Tone::NOTE_A4.freq() - 2 * Tone::NOTE_A3.freq() <= 1,
            -1 <= Tone::NOTE_AS4.freq() - 2 * Tone::NOTE_AS3.freq() <= 1,
            -1 <= Tone::NOTE_B4.freq() - 2 * Tone::NOTE_B3.freq() <= 1,
            -1 <= Tone::NOTE_C5.freq() - 2 * Tone::NOTE_C4.freq() <= 1,
            -1 <= Tone::NOTE_CS5.freq() - 2 * Tone::NOTE_CS4.freq() <= 1,
            -1 <= Tone::NOTE_D5.freq() - 2 * Tone::NOTE_D4.freq() <= 1,
            -1 <= Tone::NOTE_DS5.freq() - 2 * Tone::NOTE_DS4.freq() <= 1,
            -1 <= Tone::NOTE_E5.freq() - 2 * Tone::NOTE_E4.freq() <= 1,
            -1 <= Tone::NOTE_F5.freq() - 2 * Tone::NOTE_F4.freq() <= 1,
            -1 <= Tone::NOTE_FS5.freq() - 2 * Tone::NOTE_FS4.freq() <= 1,
            -1 <= Tone::NOTE_G5.freq() - 2 * Tone::NOTE_G4.freq() <= 1,
            -1 <= Tone::NOTE_GS5.freq() - 2 * Tone::NOTE_GS4.freq() <= 1,
            -1 <= Tone::NOTE_A5.freq() - 2 * Tone::NOTE_A4.freq() <= 1,
            -1 <= Tone::NOTE_AS5.freq() - 2 * Tone::NOTE_AS4.freq() <= 1,
            -1 <= Tone::NOTE_B5.freq() - 2 * Tone::NOTE_B4.freq() <= 1,
            -1 <= Tone::NOTE_C6.freq() - 2 * Tone::NOTE_C5.freq() <= 1,
            -1 <= Tone::NOTE_CS6.freq() - 2 * Tone::NOTE_CS5.freq() <= 1,
            -1 <= Tone::NOTE_D6.freq() - 2 * Tone::NOTE_D5.freq() <= 1,
            -1 <= Tone::NOTE_DS6.freq() - 2 * Tone::NOTE_DS5.freq() <= 1,
            -1 <= Tone::NOTE_E6.freq() - 2 * Tone::NOTE_E5.freq() <= 1,
            -1 <= Tone::NOTE_F6.freq() - 2 * Tone::NOTE_F5.freq() <= 1,
            -1 <= Tone::NOTE_FS6.freq() - 2 * Tone::NOTE_FS5.freq() <= 1,
            -1 <= Tone::NOTE_G6.freq() - 2 * Tone::NOTE_G5.freq() <= 1,
            -1 <= Tone::NOTE_GS6.freq() - 2 * Tone::NOTE_GS5.freq() <= 1,
            -1 <= Tone::NOTE_A6.freq() - 2 * Tone::NOTE_A5.freq() <= 1,
            -1 <= Tone::NOTE_AS6.freq() - 2 * Tone::NOTE_AS5.freq() <= 1,
            -1 <= Tone::NOTE_B6.freq() - 2 * Tone::NOTE_B5.freq() <= 1,
            -1 <= Tone::NOTE_C7.freq() - 2 * Tone::NOTE_C6.freq() <= 1,
            -1 <= Tone::NOTE_CS7.freq() - 2 * Tone::NOTE_CS6.freq() <= 1,
            -1 <= Tone::NOTE_D7.freq() - 2 * Tone::NOTE_D6.freq() <= 1,
            -1 <= Tone::NOTE_DS7.freq() - 2 * Tone::NOTE_DS6.freq() <= 1,
            -1 <= Tone::NOTE_E7.freq() - 2 * Tone::NOTE_E6.freq() <= 1,
            -1 <= Tone::NOTE_F7.freq() - 2 * Tone::NOTE_F6.freq() <= 1,
            -1 <= Tone::NOTE_FS7.freq() - 2 * Tone::NOTE_FS6.freq() <= 1,
            -1 <= Tone::NOTE_G7.freq() - 2 * Tone::NOTE_G6.freq() <= 1,
            -1 <= Tone::NOTE_GS7.freq() - 2 * Tone::NOTE_GS6.freq() <= 1,
            -1 <= Tone::NOTE_A7.freq() - 2 * Tone::NOTE_A6.freq() <= 1,
            -1 <= Tone::NOTE_AS7.freq() - 2 * Tone::NOTE_AS6.freq() <= 1,
            -1 <= Tone::NOTE_B7.freq() - 2 * Tone::NOTE_B6.freq() <= 1,
            -1 <= Tone::NOTE_C8.freq() - 2 * Tone::NOTE_C7.freq() <= 1,
            -1 <= Tone::NOTE_CS8.freq() - 2 * Tone::NOTE_CS7.freq() <= 1,
            -1 <= Tone::NOTE_D8.freq() - 2 * Tone::NOTE_D7.freq() <= 1,
            -1 <= Tone::NOTE_DS8.freq() - 2 * Tone::NOTE_DS7.freq() <= 1,
    {
    }

    pub open spec fn freq(self) -> i32 {
        match self {
            Tone::NOTE_NULL => 0,
            Tone::NOTE_B0 => 31,
            Tone::NOTE_C1 => 33,
            Tone::NOTE_CS1 => 35,
            Tone::NOTE_D1 => 37,
            Tone::NOTE_DS1 => 39,
            Tone::NOTE_E1 => 41,
            Tone::NOTE_F1 => 44,
            Tone::NOTE_FS1 => 46,
            Tone::NOTE_G1 => 49,
            Tone::NOTE_GS1 => 52,
            Tone::NOTE_A1 => 55,
            Tone::NOTE_AS1 => 58,
            Tone::NOTE_B1 => 62,
            Tone::NOTE_C2 => 65,
            Tone::NOTE_CS2 => 69,
            Tone::NOTE_D2 => 73,
            Tone::NOTE_DS2 => 78,
            Tone::NOTE_E2 => 82,
            Tone::NOTE_F2 => 87,
            Tone::NOTE_FS2 => 93,
            Tone::NOTE_G2 => 98,
            Tone::NOTE_GS2 => 104,
            Tone::NOTE_A2 => 110,
            Tone::NOTE_AS2 => 117,
            Tone::NOTE_B2 => 123,
            Tone::NOTE_C3 => 131,
            Tone::NOTE_CS3 => 139,
            Tone::NOTE_D3 => 147,
            Tone::NOTE_DS3 => 156,
            Tone::NOTE_E3 => 165,
            Tone::NOTE_F3 => 175,
            Tone::NOTE_FS3 => 185,
            Tone::NOTE_G3 => 196,
            Tone::NOTE_GS3 => 208,
            Tone::NOTE_A3 => 220,
            Tone::NOTE_AS3 => 233,
            Tone::NOTE_B3 => 247,
            Tone::NOTE_C4 => 262,
            Tone::NOTE_CS4 => 277,
            Tone::NOTE_D4 => 294,
            Tone::NOTE_DS4 => 311,
            Tone::NOTE_E4 => 330,
            Tone::NOTE_F4 => 349,
            Tone::NOTE_FS4 => 370,
            Tone::NOTE_G4 => 392,
            Tone::NOTE_GS4 => 415,
            Tone::NOTE_A4 => 440,
            Tone::NOTE_AS4 => 466,
            Tone::NOTE_B4 => 494,
            Tone::NOTE_C5 => 523,
            Tone::NOTE_CS5 => 554,
            Tone::NOTE_D5 => 587,
            Tone::NOTE_DS5 => 622,
            Tone::NOTE_E5 => 659,
            Tone::NOTE_F5 => 698,
            Tone::NOTE_FS5 => 740,
            Tone::NOTE_G5 => 784,
            Tone::NOTE_GS5 => 831,
            Tone::NOTE_A5 => 880,
            Tone::NOTE_AS5 => 932,
            Tone::NOTE_B5 => 988,
            Tone::NOTE_C6 => 1047,
            Tone::NOTE_CS6 => 1109,
            Tone::NOTE_D6 => 1175,
            Tone::NOTE_DS6 => 1245,
            Tone::NOTE_E6 => 1319,
            Tone::NOTE_F6 => 1397,
            Tone::NOTE_FS6 => 1480,
            Tone::NOTE_G6 => 1568,
            Tone::NOTE_GS6 => 1661,
            Tone::NOTE_A6 => 1760,
            Tone::NOTE_AS6 => 1865,
            Tone::NOTE_B6 => 1976,
            Tone::NOTE_C7 => 2093,
            Tone::NOTE_CS7 => 2217,
            Tone::NOTE_D7 => 2349,
            Tone::NOTE_DS7 => 2489,
            Tone::NOTE_E7 => 2637,
            Tone::NOTE_F7 => 2794,
            Tone::NOTE_FS7 => 2960,
            Tone::NOTE_G7 => 3136,
            Tone::NOTE_GS7 => 3322,
            Tone::NOTE_A7 => 3520,
            Tone::NOTE_AS7 => 3729,
            Tone::NOTE_B7 => 3951,
            Tone::NOTE_C8 => 4186,
            Tone::NOTE_CS8 => 4435,
            Tone::NOTE_D8 => 4699,
            Tone::NOTE_DS8 => 4978,
        }
    }

    pub fn value(&self) -> (v: i32)
        ensures
            v == self.freq(),
    {
        match self {
            Tone::NOTE_NULL => 0,
            Tone::NOTE_B0 => 31,
            Tone::NOTE_C1 => 33,
            Tone::NOTE_CS1 => 35,
            Tone::NOTE_D1 => 37,
            Tone::NOTE_DS1 => 39,
            Tone::NOTE_E1 => 41,
            Tone::NOTE_F1 => 44,
            Tone::NOTE_FS1 => 46,
            Tone::NOTE_G1 => 49,
            Tone::NOTE_GS1 => 52,
            Tone::NOTE_A1 => 55,
            Tone::NOTE_AS1 => 58,
            Tone::NOTE_B1 => 62,
            Tone::NOTE_C2 => 65,
            Tone::NOTE_CS2 => 69,
            Tone::NOTE_D2 => 73,
            Tone::NOTE_DS2 => 78,
            Tone::NOTE_E2 => 82,
            Tone::NOTE_F2 => 87,
            Tone::NOTE_FS2 => 93,
            Tone::NOTE_G2 => 98,
            Tone::NOTE_GS2 => 104,
            Tone::NOTE_A2 => 110,
            Tone::NOTE_AS2 => 117,
            Tone::NOTE_B2 => 123,
            Tone::NOTE_C3 => 131,
            Tone::NOTE_CS3 => 139,
            Tone::NOTE_D3 => 147,
            Tone::NOTE_DS3 => 156,
            Tone::NOTE_E3 => 165,
            Tone::NOTE_F3 => 175,
            Tone::NOTE_FS3 => 185,
            Tone::NOTE_G3 => 196,
            Tone::NOTE_GS3 => 208,
            Tone::NOTE_A3 => 220,
            Tone::NOTE_AS3 => 233,
            Tone::NOTE_B3 => 247,
            Tone::NOTE_C4 => 262,
            Tone::NOTE_CS4 => 277,
            Tone::NOTE_D4 => 294,
            Tone::NOTE_DS4 => 311,
            Tone::NOTE_E4 => 330,
            Tone::NOTE_F4 => 349,
            Tone::NOTE_FS4 => 370,
            Tone::NOTE_G4 => 392,
            Tone::NOTE_GS4 => 415,
            Tone::NOTE_A4 => 440,
            Tone::NOTE_AS4 => 466,
            Tone::NOTE_B4 => 494,
            Tone::NOTE_C5 => 523,
            Tone::NOTE_CS5 => 554,
            Tone::NOTE_D5 => 587,
            Tone::NOTE_DS5 => 622,
            Tone::NOTE_E5 => 659,
            Tone::NOTE_F5 => 698,
            Tone::NOTE_FS5 => 740,
            Tone::NOTE_G5 => 784,
            Tone::NOTE_GS5 => 831,
            Tone::NOTE_A5 => 880,
            Tone::NOTE_AS5 => 932,
            Tone::NOTE_B5 => 988,
            Tone::NOTE_C6 => 1047,
            Tone::NOTE_CS6 => 1109,
            Tone::NOTE_D6 => 1175,
            Tone::NOTE_DS6 => 1245,
            Tone::NOTE_E6 => 1319,
            Tone::NOTE_F6 => 1397,
            Tone::NOTE_FS6 => 1480,
            Tone::NOTE_G6 => 1568,
            Tone::NOTE_GS6 => 1661,
            Tone::NOTE_A6 => 1760,
            Tone::NOTE_AS6 => 1865,
            Tone::NOTE_B6 => 1976,
            Tone::NOTE_C7 => 2093,
            Tone::NOTE_CS7 => 2217,
            Tone::NOTE_D7 => 2349,
            Tone::NOTE_DS7 => 2489,
            Tone::NOTE_E7 => 2637,
            Tone::NOTE_F7 => 2794,
            Tone::NOTE_FS7 => 2960,
            Tone::NOTE_G7 => 3136,
            Tone::NOTE_GS7 => 3322,
            Tone::NOTE_A7 => 3520,
            Tone::NOTE_AS7 => 3729,
            Tone::NOTE_B7 => 3951,
            Tone::NOTE_C8 => 4186,
            Tone::NOTE_CS8 => 4435,
            Tone::NOTE_D8 => 4699,
            Tone::NOTE_DS8 => 4978,
        }
    }
}

/// A tone for the buzzer driver: frequency (Hz) and length (ms).
#[derive(Debug, Clone, Copy, PartialEq, Eq, Structural)]
pub struct BuzzerTone {
    pub freq: i32,
    pub period: i32,
}

/// The message that stops a melody being played.
#[derive(Debug, Clone, Copy, PartialEq, Eq, Structural)]
pub enum AudioThreadCommand {
    Stop,
}

/// A melody: notes and their lengths in ms, index by index.
pub struct Melody {
    pub tones: Vec<Tone>,
    pub periods: Vec<i32>,
}

/// One step of a tune played note by note: a note for a length (ms), or a pause (ms).
#[derive(Debug, Clone, Copy, PartialEq, Eq, Structural)]
pub enum SoundStep {
    Tone(Tone, i32),
    Pause(u64),
}

/// Appends the elements of `s` to `v`.
fn extend_from<T: Copy>(v: &mut Vec<T>, s: &Vec<T>)
    ensures
        final(v)@ == old(v)@ + s@,
{
    let mut i: usize = 0;
    while i < s.len()
        invariant
            i <= s@.len(),
            v@ == old(v)@ + s@.take(i as int),
        decreases s@.len() - i,
    {
        v.push(s[i]);
        i = i + 1;
        assert(v@ =~= old(v)@ + s@.take(i as int));
    }
    assert(s@.take(s@.len() as int) =~= s@);
}

/// The notes of "He's a Pirate".
pub open spec fn piratescaribean_tones() -> Seq<Tone> {
    seq![Tone::NOTE_E4, Tone::NOTE_G4, Tone::NOTE_A4, Tone::NOTE_A4, Tone::NOTE_NULL, Tone::NOTE_A4, Tone::NOTE_B4, Tone::NOTE_C5, Tone::NOTE_C5, Tone::NOTE_NULL, Tone::NOTE_C5, Tone::NOTE_D5, Tone::NOTE_B4, Tone::NOTE_B4, Tone::NOTE_NULL, Tone::NOTE_A4, Tone::NOTE_G4, Tone::NOTE_A4, Tone::NOTE_NULL, Tone::NOTE_E4, Tone::NOTE_G4, Tone::NOTE_A4, Tone::NOTE_A4, Tone::NOTE_NULL, Tone::NOTE_A4, Tone::NOTE_B4, Tone::NOTE_C5, Tone::NOTE_C5, Tone::NOTE_NULL, Tone::NOTE_C5, Tone::NOTE_D5, Tone::NOTE_B4, Tone::NOTE_B4, Tone::NOTE_NULL, Tone::NOTE_A4, Tone::NOTE_G4, Tone::NOTE_A4, Tone::NOTE_NULL, Tone::NOTE_E4, Tone::NOTE_G4, Tone::NOTE_A4, Tone::NOTE_A4, Tone::NOTE_NULL, Tone::NOTE_A4, Tone::NOTE_C5, Tone::NOTE_D5, Tone::NOTE_D5, Tone::NOTE_NULL, Tone::NOTE_D5, Tone::NOTE_E5, Tone::NOTE_F5, Tone::NOTE_F5, Tone::NOTE_NULL, Tone::NOTE_E5, Tone::NOTE_D5, Tone::NOTE_E5, Tone::NOTE_A4, Tone::NOTE_NULL, Tone::NOTE_A4, Tone::NOTE_B4, Tone::NOTE_C5, Tone::NOTE_C5, Tone::NOTE_NULL, Tone::NOTE_D5, Tone::NOTE_E5, Tone::NOTE_A4, Tone::NOTE_NULL, Tone::NOTE_A4, Tone::NOTE_C5, Tone::NOTE_B4, Tone::NOTE_B4, Tone::NOTE_NULL, Tone::NOTE_C5, Tone::NOTE_A4, Tone::NOTE_B4, Tone::NOTE_NULL, Tone::NOTE_A4, Tone::NOTE_A4, Tone::NOTE_E4, Tone::NOTE_G4, Tone::NOTE_A4, Tone::NOTE_A4, Tone::NOTE_NULL, Tone::NOTE_A4, Tone::NOTE_B4, Tone::NOTE_C5, Tone::NOTE_C5, Tone::NOTE_NULL, Tone::NOTE_C5, Tone::NOTE_D5, Tone::NOTE_B4, Tone::NOTE_B4, Tone::NOTE_NULL, Tone::NOTE_A4, Tone::NOTE_G4, Tone::NOTE_A4, Tone::NOTE_NULL, Tone::NOTE_E4, Tone::NOTE_G4, Tone::NOTE_A4, Tone::NOTE_A4, Tone::NOTE_NULL, Tone::NOTE_A4, Tone::NOTE_B4, Tone::NOTE_C5, Tone::NOTE_C5, Tone::NOTE_NULL, Tone::NOTE_C5, Tone::NOTE_D5, Tone::NOTE_B4, Tone::NOTE_B4, Tone::NOTE_NULL, Tone::NOTE_A4, Tone::NOTE_G4, Tone::NOTE_A4, Tone::NOTE_NULL, Tone::NOTE_E4, Tone::NOTE_G4, Tone::NOTE_A4, Tone::NOTE_A4, Tone::NOTE_NULL, Tone::NOTE_A4, Tone::NOTE_C5, Tone::NOTE_D5, Tone::NOTE_D5, Tone::NOTE_NULL, Tone::NOTE_D5, Tone::NOTE_E5, Tone::NOTE_F5, Tone::NOTE_F5, Tone::NOTE_NULL, Tone::NOTE_E5, Tone::NOTE_D5, Tone::NOTE_E5, Tone::NOTE_A4, Tone::NOTE_NULL, Tone::NOTE_A4, Tone::NOTE_B4, Tone::NOTE_C5, Tone::NOTE_C5, Tone::NOTE_NULL, Tone::NOTE_D5, Tone::NOTE_E5, Tone::NOTE_A4, Tone::NOTE_NULL, Tone::NOTE_A4, Tone::NOTE_C5, Tone::NOTE_B4, Tone::NOTE_B4, Tone::NOTE_NULL, Tone::NOTE_C5, Tone::NOTE_A4, Tone::NOTE_B4, Tone::NOTE_NULL, Tone::NOTE_E5, Tone::NOTE_NULL, Tone::NOTE_F5, Tone::NOTE_NULL, Tone::NOTE_E5, Tone::NOTE_E5, Tone::NOTE_NULL, Tone::NOTE_G5, Tone::NOTE_NULL, Tone::NOTE_E5, Tone::NOTE_D5, Tone::NOTE_NULL, Tone::NOTE_D5, Tone::NOTE_NULL, Tone::NOTE_C5, Tone::NOTE_NULL, Tone::NOTE_B4, Tone::NOTE_C5, Tone::NOTE_NULL, Tone::NOTE_B4, Tone::NOTE_C5, Tone::NOTE_NULL, Tone::NOTE_B4, Tone::NOTE_NULL, Tone::NOTE_A4, Tone::NOTE_E5, Tone::NOTE_NULL, Tone::NOTE_F5, Tone::NOTE_NULL, Tone::NOTE_E5, Tone::NOTE_E5, Tone::NOTE_NULL, Tone::NOTE_G5, Tone::NOTE_NULL, Tone::NOTE_E5, Tone::NOTE_D5, Tone::NOTE_NULL, Tone::NOTE_D5, Tone::NOTE_NULL, Tone::NOTE_C5, Tone::NOTE_NULL, Tone::NOTE_B4, Tone::NOTE_C5, Tone::NOTE_NULL, Tone::NOTE_B4, Tone::NOTE_NULL, Tone::NOTE_A4]
}

/// The note lengths (ms) of "He's a Pirate".
pub open spec fn piratescaribean_periods() -> Seq<i32> {
    seq![125i32, 125i32, 250i32, 125i32, 50i32, 125i32, 125i32, 250i32, 125i32, 50i32, 125i32, 125i32, 250i32, 125i32, 50i32, 125i32, 125i32, 375i32, 50i32, 125i32, 125i32, 250i32, 125i32, 50i32, 125i32, 125i32, 250i32, 125i32, 50i32, 125i32, 125i32, 250i32, 125i32, 50i32, 125i32, 125i32, 375i32, 50i32, 125i32, 125i32, 250i32, 125i32, 50i32, 125i32, 125i32, 250i32, 125i32, 50i32, 125i32, 125i32, 250i32, 125i32, 50i32, 125i32, 125i32, 125i32, 250i32, 50i32, 125i32, 125i32, 250i32, 125i32, 50i32, 250i32, 125i32, 250i32, 50i32, 125i32, 125i32, 250i32, 125i32, 50i32, 125i32, 125i32, 375i32, 50i32, 250i32, 125i32, 125i32, 125i32, 250i32, 125i32, 50i32, 125i32, 125i32, 250i32, 125i32, 50i32, 125i32, 125i32, 250i32, 125i32, 50i32, 125i32, 125i32, 375i32, 50i32, 125i32, 125i32, 250i32, 125i32, 50i32, 125i32, 125i32, 250i32, 125i32, 50i32, 125i32, 125i32, 250i32, 125i32, 50i32, 125i32, 125i32, 375i32, 50i32, 125i32, 125i32, 250i32, 125i32, 50i32, 125i32, 125i32, 250i32, 125i32, 50i32, 125i32, 125i32, 250i32, 125i32, 50i32, 125i32, 125i32, 125i32, 250i32, 50i32, 125i32, 125i32, 250i32, 125i32, 50i32, 250i32, 125i32, 250i32, 50i32, 125i32, 125i32, 250i32, 125i32, 50i32, 125i32, 125i32, 375i32, 200i32, 250i32, 400i32, 250i32, 400i32, 125i32, 125i32, 50i32, 125i32, 50i32, 125i32, 125i32, 400i32, 250i32, 400i32, 250i32, 400i32, 125i32, 125i32, 50i32, 125i32, 125i32, 50i32, 125i32, 50i32, 500i32, 125i32, 50i32, 250i32, 400i32, 125i32, 125i32, 50i32, 125i32, 50i32, 125i32, 125i32, 400i32, 250i32, 400i32, 250i32, 400i32, 125i32, 125i32, 50i32, 125i32, 50i32, 500i32]
}

/// The notes of "Hedwig's Theme".
pub open spec fn harrypotter_tones() -> Seq<Tone> {
    seq![Tone::NOTE_B4, Tone::NOTE_E5, Tone::NOTE_G5, Tone::NOTE_FS5, Tone::NOTE_E5, Tone::NOTE_B5, Tone::NOTE_A5, Tone::NOTE_FS5, Tone::NOTE_E5, Tone::NOTE_G5, Tone::NOTE_FS5, Tone::NOTE_DS5, Tone::NOTE_F5, Tone::NOTE_B4, Tone::NOTE_B4, Tone::NOTE_E5, Tone::NOTE_G5, Tone::NOTE_FS5, Tone::NOTE_E5, Tone::NOTE_B5, Tone::NOTE_D6, Tone::NOTE_CS6, Tone::NOTE_C6, Tone::NOTE_GS5, Tone::NOTE_C6, Tone::NOTE_B5, Tone::NOTE_AS5, Tone::NOTE_AS4, Tone::NOTE_G5, Tone::NOTE_E5, Tone::NOTE_G5, Tone::NOTE_B5, Tone::NOTE_G5, Tone::NOTE_B5, Tone::NOTE_G5, Tone::NOTE_C6, Tone::NOTE_B5, Tone::NOTE_AS5, Tone::NOTE_FS5, Tone::NOTE_G5, Tone::NOTE_B5, Tone::NOTE_AS5, Tone::NOTE_AS4, Tone::NOTE_B4, Tone::NOTE_B5, Tone::NOTE_G5, Tone::NOTE_B5, Tone::NOTE_G5, Tone::NOTE_B5, Tone::NOTE_G5, Tone::NOTE_D6, Tone::NOTE_CS6, Tone::NOTE_C6, Tone::NOTE_GS5, Tone::NOTE_C6, Tone::NOTE_B5, Tone::NOTE_AS5, Tone::NOTE_AS4, Tone::NOTE_G5, Tone::NOTE_E5]
}

/// The note lengths (ms) of "Hedwig's Theme".
pub open spec fn harrypotter_periods() -> Seq<i32> {
    seq![333i32, 500i32, 166i32, 333i32, 666i32, 333i32, 1000i32, 1000i32, 500i32, 166i32, 333i32, 666i32, 333i32, 1666i32, 333i32, 500i32, 166i32, 333i32, 666i32, 333i32, 666i32, 333i32, 666i32, 333i32, 500i32, 166i32, 333i32, 666i32, 333i32, 1666i32, 333i32, 666i32, 333i32, 666i32, 333i32, 666i32, 333i32, 666i32, 333i32, 500i32, 166i32, 333i32, 666i32, 333i32, 1666i32, 333i32, 666i32, 333i32, 666i32, 333i32, 666i32, 333i32, 666i32, 333i32, 500i32, 166i32, 333i32, 666i32, 333i32, 1666i32]
}

/// The notes of the Super Mario theme.
pub open spec fn supermario_tones() -> Seq<Tone> {
    seq![Tone::NOTE_E5, Tone::NOTE_E5, Tone::NOTE_E5, Tone::NOTE_NULL, Tone::NOTE_C5, Tone::NOTE_E5, Tone::NOTE_NULL, Tone::NOTE_G5, Tone::NOTE_NULL, Tone::NOTE_G4, Tone::NOTE_NULL, Tone::NOTE_C5, Tone::NOTE_NULL, Tone::NOTE_G4, Tone::NOTE_NULL, Tone::NOTE_E4, Tone::NOTE_NULL, Tone::NOTE_A4, Tone::NOTE_NULL, Tone::NOTE_B4, Tone::NOTE_NULL, Tone::NOTE_AS4, Tone::NOTE_A4, Tone::NOTE_NULL, Tone::NOTE_G4, Tone::NOTE_E5, Tone::NOTE_G5, Tone::NOTE_A5, Tone::NOTE_NULL, Tone::NOTE_F5, Tone::NOTE_G5, Tone::NOTE_NULL, Tone::NOTE_E5, Tone::NOTE_NULL, Tone::NOTE_C5, Tone::NOTE_D5, Tone::NOTE_B4, Tone::NOTE_NULL, Tone::NOTE_C5, Tone::NOTE_NULL, Tone::NOTE_G4, Tone::NOTE_NULL, Tone::NOTE_E4, Tone::NOTE_NULL, Tone::NOTE_A4, Tone::NOTE_NULL, Tone::NOTE_B4, Tone::NOTE_NULL, Tone::NOTE_AS4, Tone::NOTE_A4, Tone::NOTE_NULL, Tone::NOTE_G4, Tone::NOTE_E5, Tone::NOTE_G5, Tone::NOTE_A5, Tone::NOTE_NULL, Tone::NOTE_F5, Tone::NOTE_G5, Tone::NOTE_NULL, Tone::NOTE_E5, Tone::NOTE_NULL, Tone::NOTE_C5, Tone::NOTE_D5, Tone::NOTE_B4, Tone::NOTE_NULL]
}

/// The note lengths (ms) of the Super Mario theme.
pub open spec fn supermario_periods() -> Seq<i32> {
    seq![200i32, 200i32, 200i32, 200i32, 200i32, 200i32, 200i32, 200i32, 680i32, 200i32, 680i32, 200i32, 440i32, 200i32, 440i32, 200i32, 440i32, 200i32, 200i32, 200i32, 200i32, 200i32, 200i32, 200i32, 140i32, 140i32, 140i32, 200i32, 200i32, 200i32, 200i32, 200i32, 200i32, 200i32, 200i32, 200i32, 200i32, 440i32, 200i32, 440i32, 200i32, 440i32, 140i32, 440i32, 200i32, 200i32, 200i32, 200i32, 200i32, 200i32, 200i32, 140i32, 140i32, 140i32, 200i32, 200i32, 200i32, 200i32, 200i32, 200i32, 200i32, 200i32, 200i32, 200i32, 440i32]
}

/// The notes of "Do-Re-Mi-Fa".
pub open spec fn doremifa_tones() -> Seq<Tone> {
    seq![Tone::NOTE_C4, Tone::NOTE_D4, Tone::NOTE_E4, Tone::NOTE_F4, Tone::NOTE_NULL, Tone::NOTE_F4, Tone::NOTE_NULL, Tone::NOTE_F4, Tone::NOTE_C4, Tone::NOTE_D4, Tone::NOTE_C4, Tone::NOTE_D4, Tone::NOTE_NULL, Tone::NOTE_D4, Tone::NOTE_NULL, Tone::NOTE_D4, Tone::NOTE_C4, Tone::NOTE_G4, Tone::NOTE_F4, Tone::NOTE_E4, Tone::NOTE_NULL, Tone::NOTE_E4, Tone::NOTE_NULL, Tone::NOTE_E4, Tone::NOTE_C4, Tone::NOTE_D4, Tone::NOTE_E4, Tone::NOTE_F4, Tone::NOTE_NULL, Tone::NOTE_F4, Tone::NOTE_NULL, Tone::NOTE_F4]
}

/// The note lengths (ms) of "Do-Re-Mi-Fa".
pub open spec fn doremifa_periods() -> Seq<i32> {
    seq![600i32, 600i32, 600i32, 600i32, 100i32, 400i32, 100i32, 400i32, 600i32, 600i32, 600i32, 600i32, 100i32, 400i32, 100i32, 400i32, 600i32, 600i32, 600i32, 600i32, 100i32, 400i32, 100i32, 400i32, 600i32, 600i32, 600i32, 600i32, 100i32, 400i32, 100i32, 400i32]
}

/// The notes of the alert beeps.
pub open spec fn bip_tones() -> Seq<Tone> {
    seq![Tone::NOTE_C4, Tone::NOTE_NULL, Tone::NOTE_D4, Tone::NOTE_NULL, Tone::NOTE_E4, Tone::NOTE_NULL, Tone::NOTE_F4, Tone::NOTE_NULL]
}

/// The note lengths (ms) of the alert beeps.
pub open spec fn bip_periods() -> Seq<i32> {
    seq![150i32, 150i32, 150i32, 150i32, 150i32, 150i32, 150i32, 150i32]
}

/// The notes of the first part of the Imperial March.
pub open spec fn starwars_1s_tones() -> Seq<Tone> {
    seq![Tone::NOTE_A4, Tone::NOTE_A4, Tone::NOTE_A4, Tone::NOTE_F4, Tone::NOTE_C5, Tone::NOTE_A4, Tone::NOTE_F4, Tone::NOTE_C5, Tone::NOTE_A4, Tone::NOTE_NULL, Tone::NOTE_E5, Tone::NOTE_E5, Tone::NOTE_E5, Tone::NOTE_F5, Tone::NOTE_C5, Tone::NOTE_GS4, Tone::NOTE_F4, Tone::NOTE_C5, Tone::NOTE_A4, Tone::NOTE_NULL]
}

/// The note lengths (ms) of the first part of the Imperial March.
pub open spec fn starwars_1s_periods() -> Seq<i32> {
    seq![500i32, 500i32, 500i32, 350i32, 150i32, 500i32, 350i32, 150i32, 650i32, 500i32, 500i32, 500i32, 500i32, 350i32, 150i32, 500i32, 350i32, 150i32, 650i32, 500i32]
}

/// The notes of the second part of the Imperial March.
pub open spec fn starwars_2s_tones() -> Seq<Tone> {
    seq![Tone::NOTE_A5, Tone::NOTE_A4, Tone::NOTE_A4, Tone::NOTE_A5, Tone::NOTE_GS5, Tone::NOTE_G5, Tone::NOTE_FS5, Tone::NOTE_F5, Tone::NOTE_FS5, Tone::NOTE_NULL, Tone::NOTE_AS4, Tone::NOTE_DS5, Tone::NOTE_D5, Tone::NOTE_CS5, Tone::NOTE_C5, Tone::NOTE_B4, Tone::NOTE_C5, Tone::NOTE_NULL]
}

/// The note lengths (ms) of the second part of the Imperial March.
pub open spec fn starwars_2s_periods() -> Seq<i32> {
    seq![500i32, 300i32, 150i32, 500i32, 325i32, 175i32, 125i32, 125i32, 250i32, 325i32, 250i32, 500i32, 325i32, 175i32, 125i32, 125i32, 250i32, 350i32]
}

/// The notes of the first variation of the Imperial March.
pub open spec fn starwars_1v_tones() -> Seq<Tone> {
    seq![Tone::NOTE_F4, Tone::NOTE_GS4, Tone::NOTE_F4, Tone::NOTE_A4, Tone::NOTE_C5, Tone::NOTE_A4, Tone::NOTE_C5, Tone::NOTE_E5, Tone::NOTE_NULL]
}

/// The note lengths (ms) of the first variation of the Imperial March.
pub open spec fn starwars_1v_periods() -> Seq<i32> {
    seq![250i32, 500i32, 350i32, 125i32, 500i32, 375i32, 125i32, 650i32, 500i32]
}

/// The notes of the second variation of the Imperial March.
pub open spec fn starwars_2v_tones() -> Seq<Tone> {
    seq![Tone::NOTE_F4, Tone::NOTE_GS4, Tone::NOTE_F4, Tone::NOTE_C5, Tone::NOTE_A4, Tone::NOTE_F4, Tone::NOTE_C5, Tone::NOTE_A4, Tone::NOTE_NULL]
}

/// The note lengths (ms) of the second variation of the Imperial March.
pub open spec fn starwars_2v_periods() -> Seq<i32> {
    seq![250i32, 500i32, 375i32, 125i32, 500i32, 375i32, 125i32, 650i32, 650i32]
}

/// "He's a Pirate", note by note.
pub open spec fn spec_piratescaribean_score() -> Seq<SoundStep> {
    seq![SoundStep::Tone(Tone::NOTE_E4, 125i32), SoundStep::Tone(Tone::NOTE_G4, 125i32), SoundStep::Tone(Tone::NOTE_A4, 250i32), SoundStep::Tone(Tone::NOTE_A4, 125i32), SoundStep::Pause(50u64), SoundStep::Tone(Tone::NOTE_A4, 125i32), SoundStep::Tone(Tone::NOTE_B4, 125i32), SoundStep::Tone(Tone::NOTE_C5, 250i32), SoundStep::Tone(Tone::NOTE_C5, 125i32), SoundStep::Pause(50u64), SoundStep::Tone(Tone::NOTE_C5, 125i32), SoundStep::Tone(Tone::NOTE_D5, 125i32), SoundStep::Tone(Tone::NOTE_B4, 250i32), SoundStep::Tone(Tone::NOTE_B4, 125i32), SoundStep::Pause(50u64), SoundStep::Tone(Tone::NOTE_A4, 125i32), SoundStep::Tone(Tone::NOTE_G4, 125i32), SoundStep::Tone(Tone::NOTE_A4, 375i32), SoundStep::Pause(50u64), SoundStep::Tone(Tone::NOTE_E4, 125i32), SoundStep::Tone(Tone::NOTE_G4, 125i32), SoundStep::Tone(Tone::NOTE_A4, 250i32), SoundStep::Tone(Tone::NOTE_A4, 125i32), SoundStep::Pause(50u64), SoundStep::Tone(Tone::NOTE_A4, 125i32), SoundStep::Tone(Tone::NOTE_B4, 125i32), SoundStep::Tone(Tone::NOTE_C5, 250i32), SoundStep::Tone(Tone::NOTE_C5, 125i32), SoundStep::Pause(50u64), SoundStep::Tone(Tone::NOTE_C5, 125i32), SoundStep::Tone(Tone::NOTE_D5, 125i32), SoundStep::Tone(Tone::NOTE_B4, 250i32), SoundStep::Tone(Tone::NOTE_B4, 125i32), SoundStep::Pause(50u64), SoundStep::Tone(Tone::NOTE_A4, 125i32), SoundStep::Tone(Tone::NOTE_G4, 125i32), SoundStep::Tone(Tone::NOTE_A4, 375i32), SoundStep::Pause(50u64), SoundStep::Tone(Tone::NOTE_E4, 125i32), SoundStep::Tone(Tone::NOTE_G4, 125i32), SoundStep::Tone(Tone::NOTE_A4, 250i32), SoundStep::Tone(Tone::NOTE_A4, 125i32), SoundStep::Pause(50u64), SoundStep::Tone(Tone::NOTE_A4, 125i32), SoundStep::Tone(Tone::NOTE_C5, 125i32), SoundStep::Tone(Tone::NOTE_D5, 250i32), SoundStep::Tone(Tone::NOTE_D5, 125i32), SoundStep::Pause(50u64), SoundStep::Tone(Tone::NOTE_D5, 125i32), SoundStep::Tone(Tone::NOTE_E5, 125i32), SoundStep::Tone(Tone::NOTE_F5, 250i32), SoundStep::Tone(Tone::NOTE_F5, 125i32), SoundStep::Pause(50u64), SoundStep::Tone(Tone::NOTE_E5, 125i32), SoundStep::Tone(Tone::NOTE_D5, 125i32), SoundStep::Tone(Tone::NOTE_E5, 125i32), SoundStep::Tone(Tone::NOTE_A4, 250i32), SoundStep::Pause(50u64), SoundStep::Tone(Tone::NOTE_A4, 125i32), SoundStep::Tone(Tone::NOTE_B4, 125i32), SoundStep::Tone(Tone::NOTE_C5, 250i32), SoundStep::Tone(Tone::NOTE_C5, 125i32), SoundStep::Pause(50u64), SoundStep::Tone(Tone::NOTE_D5, 250i32), SoundStep::Tone(Tone::NOTE_E5, 125i32), SoundStep::Tone(Tone::NOTE_A4, 250i32), SoundStep::Pause(50u64), SoundStep::Tone(Tone::NOTE_A4, 125i32), SoundStep::Tone(Tone::NOTE_C5, 125i32), SoundStep::Tone(Tone::NOTE_B4, 250i32), SoundStep::Tone(Tone::NOTE_B4, 125i32), SoundStep::Pause(50u64), SoundStep::Tone(Tone::NOTE_C5, 125i32), SoundStep::Tone(Tone::NOTE_A4, 125i32), SoundStep::Tone(Tone::NOTE_B4, 375i32), SoundStep::Pause(200u64), SoundStep::Tone(Tone::NOTE_A4, 250i32), SoundStep::Tone(Tone::NOTE_A4, 125i32), SoundStep::Tone(Tone::NOTE_E4, 125i32), SoundStep::Tone(Tone::NOTE_G4, 125i32), SoundStep::Tone(Tone::NOTE_A4, 250i32), SoundStep::Tone(Tone::NOTE_A4, 125i32), SoundStep::Pause(50u64), SoundStep::Tone(Tone::NOTE_A4, 125i32), SoundStep::Tone(Tone::NOTE_B4, 125i32), SoundStep::Tone(Tone::NOTE_C5, 250i32), SoundStep::Tone(Tone::NOTE_C5, 125i32), SoundStep::Pause(50u64), SoundStep::Tone(Tone::NOTE_C5, 125i32), SoundStep::Tone(Tone::NOTE_D5, 125i32), SoundStep::Tone(Tone::NOTE_B4, 250i32), SoundStep::Tone(Tone::NOTE_B4, 125i32), SoundStep::Pause(50u64), SoundStep::Tone(Tone::NOTE_A4, 125i32), SoundStep::Tone(Tone::NOTE_G4, 125i32), SoundStep::Tone(Tone::NOTE_A4, 375i32), SoundStep::Pause(50u64), SoundStep::Tone(Tone::NOTE_E4, 125i32), SoundStep::Tone(Tone::NOTE_G4, 125i32), SoundStep::Tone(Tone::NOTE_A4, 250i32), SoundStep::Tone(Tone::NOTE_A4, 125i32), SoundStep::Pause(50u64), SoundStep::Tone(Tone::NOTE_A4, 125i32), SoundStep::Tone(Tone::NOTE_B4, 125i32), SoundStep::Tone(Tone::NOTE_C5, 250i32), SoundStep::Tone(Tone::NOTE_C5, 125i32), SoundStep::Pause(50u64), SoundStep::Tone(Tone::NOTE_C5, 125i32), SoundStep::Tone(Tone::NOTE_D5, 125i32), SoundStep::Tone(Tone::NOTE_B4, 250i32), SoundStep::Tone(Tone::NOTE_B4, 125i32), SoundStep::Pause(50u64), SoundStep::Tone(Tone::NOTE_A4, 125i32), SoundStep::Tone(Tone::NOTE_G4, 125i32), SoundStep::Tone(Tone::NOTE_A4, 375i32), SoundStep::Pause(50u64), SoundStep::Tone(Tone::NOTE_E4, 125i32), SoundStep::Tone(Tone::NOTE_G4, 125i32), SoundStep::Tone(Tone::NOTE_A4, 250i32), SoundStep::Tone(Tone::NOTE_A4, 125i32), SoundStep::Pause(50u64), SoundStep::Tone(Tone::NOTE_A4, 125i32), SoundStep::Tone(Tone::NOTE_C5, 125i32), SoundStep::Tone(Tone::NOTE_D5, 250i32), SoundStep::Tone(Tone::NOTE_D5, 125i32), SoundStep::Pause(50u64), SoundStep::Tone(Tone::NOTE_D5, 125i32), SoundStep::Tone(Tone::NOTE_E5, 125i32), SoundStep::Tone(Tone::NOTE_F5, 250i32), SoundStep::Tone(Tone::NOTE_F5, 125i32), SoundStep::Pause(50u64), SoundStep::Tone(Tone::NOTE_E5, 125i32), SoundStep::Tone(Tone::NOTE_D5, 125i32), SoundStep::Tone(Tone::NOTE_E5, 125i32), SoundStep::Tone(Tone::NOTE_A4, 250i32), SoundStep::Pause(50u64), SoundStep::Tone(Tone::NOTE_A4, 125i32), SoundStep::Tone(Tone::NOTE_B4, 125i32), SoundStep::Tone(Tone::NOTE_C5, 250i32), SoundStep::Tone(Tone::NOTE_C5, 125i32), SoundStep::Pause(50u64), SoundStep::Tone(Tone::NOTE_D5, 250i32), SoundStep::Tone(Tone::NOTE_E5, 125i32), SoundStep::Tone(Tone::NOTE_A4, 250i32), SoundStep::Pause(50u64), SoundStep::Tone(Tone::NOTE_A4, 125i32), SoundStep::Tone(Tone::NOTE_C5, 125i32), SoundStep::Tone(Tone::NOTE_B4, 250i32), SoundStep::Tone(Tone::NOTE_B4, 125i32), SoundStep::Pause(50u64), SoundStep::Tone(Tone::NOTE_C5, 125i32), SoundStep::Tone(Tone::NOTE_A4, 125i32), SoundStep::Tone(Tone::NOTE_B4, 375i32), SoundStep::Pause(200u64), SoundStep::Tone(Tone::NOTE_E5, 250i32), SoundStep::Pause(400u64), SoundStep::Tone(Tone::NOTE_F5, 250i32), SoundStep::Pause(400u64), SoundStep::Tone(Tone::NOTE_E5, 125i32), SoundStep::Tone(Tone::NOTE_E5, 125i32), SoundStep::Pause(50u64), SoundStep::Tone(Tone::NOTE_G5, 125i32), SoundStep::Pause(50u64), SoundStep::Tone(Tone::NOTE_E5, 125i32), SoundStep::Tone(Tone::NOTE_D5, 125i32), SoundStep::Pause(400u64), SoundStep::Tone(Tone::NOTE_D5, 250i32), SoundStep::Pause(400u64), SoundStep::Tone(Tone::NOTE_C5, 250i32), SoundStep::Pause(400u64), SoundStep::Tone(Tone::NOTE_B4, 125i32), SoundStep::Tone(Tone::NOTE_C5, 125i32), SoundStep::Pause(50u64), SoundStep::Tone(Tone::NOTE_B4, 125i32), SoundStep::Pause(50u64), SoundStep::Tone(Tone::NOTE_A4, 500i32), SoundStep::Tone(Tone::NOTE_E5, 250i32), SoundStep::Pause(400u64), SoundStep::Tone(Tone::NOTE_F5, 250i32), SoundStep::Pause(400u64), SoundStep::Tone(Tone::NOTE_E5, 125i32), SoundStep::Tone(Tone::NOTE_E5, 125i32), SoundStep::Pause(50u64), SoundStep::Tone(Tone::NOTE_G5, 125i32), SoundStep::Pause(50u64), SoundStep::Tone(Tone::NOTE_E5, 125i32), SoundStep::Tone(Tone::NOTE_D5, 125i32), SoundStep::Pause(400u64), SoundStep::Tone(Tone::NOTE_D5, 250i32), SoundStep::Pause(400u64), SoundStep::Tone(Tone::NOTE_C5, 250i32), SoundStep::Pause(400u64), SoundStep::Tone(Tone::NOTE_B4, 125i32), SoundStep::Tone(Tone::NOTE_C5, 125i32), SoundStep::Pause(50u64), SoundStep::Tone(Tone::NOTE_B4, 125i32), SoundStep::Pause(50u64), SoundStep::Tone(Tone::NOTE_A4, 500i32)]
}

/// "Hedwig's Theme", note by note.
pub open spec fn spec_harrypotter_score() -> Seq<SoundStep> {
    seq![SoundStep::Tone(Tone::NOTE_B4, 333i32), SoundStep::Tone(Tone::NOTE_E5, 500i32), SoundStep::Tone(Tone::NOTE_G5, 166i32), SoundStep::Tone(Tone::NOTE_FS5, 333i32), SoundStep::Tone(Tone::NOTE_E5, 666i32), SoundStep::Tone(Tone::NOTE_B5, 333i32), SoundStep::Tone(Tone::NOTE_A5, 1000i32), SoundStep::Tone(Tone::NOTE_FS5, 1000i32), SoundStep::Tone(Tone::NOTE_E5, 500i32), SoundStep::Tone(Tone::NOTE_G5, 166i32), SoundStep::Tone(Tone::NOTE_FS5, 333i32), SoundStep::Tone(Tone::NOTE_DS5, 666i32), SoundStep::Tone(Tone::NOTE_F5, 333i32), SoundStep::Tone(Tone::NOTE_B4, 1666i32), SoundStep::Tone(Tone::NOTE_B4, 333i32), SoundStep::Tone(Tone::NOTE_E5, 500i32), SoundStep::Tone(Tone::NOTE_G5, 166i32), SoundStep::Tone(Tone::NOTE_FS5, 333i32), SoundStep::Tone(Tone::NOTE_E5, 666i32), SoundStep::Tone(Tone::NOTE_B5, 333i32), SoundStep::Tone(Tone::NOTE_D6, 666i32), SoundStep::Tone(Tone::NOTE_CS6, 333i32), SoundStep::Tone(Tone::NOTE_C6, 666i32), SoundStep::Tone(Tone::NOTE_GS5, 333i32), SoundStep::Tone(Tone::NOTE_C6, 500i32), SoundStep::Tone(Tone::NOTE_B5, 166i32), SoundStep::Tone(Tone::NOTE_AS5, 333i32), SoundStep::Tone(Tone::NOTE_AS4, 666i32), SoundStep::Tone(Tone::NOTE_G5, 333i32), SoundStep::Tone(Tone::NOTE_E5, 1666i32), SoundStep::Tone(Tone::NOTE_G5, 333i32), SoundStep::Tone(Tone::NOTE_B5, 666i32), SoundStep::Tone(Tone::NOTE_G5, 333i32), SoundStep::Tone(Tone::NOTE_B5, 666i32), SoundStep::Tone(Tone::NOTE_G5, 333i32), SoundStep::Tone(Tone::NOTE_C6, 666i32), SoundStep::Tone(Tone::NOTE_B5, 333i32), SoundStep::Tone(Tone::NOTE_AS5, 666i32), SoundStep::Tone(Tone::NOTE_FS5, 333i32), SoundStep::Tone(Tone::NOTE_G5, 500i32), SoundStep::Tone(Tone::NOTE_B5, 166i32), SoundStep::Tone(Tone::NOTE_AS5, 333i32), SoundStep::Tone(Tone::NOTE_AS4, 666i32), SoundStep::Tone(Tone::NOTE_B4, 333i32), SoundStep::Tone(Tone::NOTE_B5, 1666i32), SoundStep::Tone(Tone::NOTE_G5, 333i32), SoundStep::Tone(Tone::NOTE_B5, 666i32), SoundStep::Tone(Tone::NOTE_G5, 333i32), SoundStep::Tone(Tone::NOTE_B5, 666i32), SoundStep::Tone(Tone::NOTE_G5, 333i32), SoundStep::Tone(Tone::NOTE_D6, 666i32), SoundStep::Tone(Tone::NOTE_CS6, 333i32), SoundStep::Tone(Tone::NOTE_C6, 666i32), SoundStep::Tone(Tone::NOTE_GS5, 333i32), SoundStep::Tone(Tone::NOTE_C6, 500i32), SoundStep::Tone(Tone::NOTE_B5, 166i32), SoundStep::Tone(Tone::NOTE_AS5, 333i32), SoundStep::Tone(Tone::NOTE_AS4, 666i32), SoundStep::Tone(Tone::NOTE_G5, 333i32), SoundStep::Tone(Tone::NOTE_E5, 1666i32)]
}

/// The Super Mario theme, note by note.
pub open spec fn spec_supermario_score() -> Seq<SoundStep> {
    seq![SoundStep::Tone(Tone::NOTE_E5, 200i32), SoundStep::Tone(Tone::NOTE_E5, 200i32), SoundStep::Tone(Tone::NOTE_E5, 200i32), SoundStep::Pause(200u64), SoundStep::Tone(Tone::NOTE_C5, 200i32), SoundStep::Tone(Tone::NOTE_E5, 200i32), SoundStep::Pause(200u64), SoundStep::Tone(Tone::NOTE_G5, 200i32), SoundStep::Pause(680u64), SoundStep::Tone(Tone::NOTE_G4, 200i32), SoundStep::Pause(680u64), SoundStep::Tone(Tone::NOTE_C5, 200i32), SoundStep::Pause(440u64), SoundStep::Tone(Tone::NOTE_G4, 200i32), SoundStep::Pause(440u64), SoundStep::Tone(Tone::NOTE_E4, 200i32), SoundStep::Pause(440u64), SoundStep::Tone(Tone::NOTE_A4, 200i32), SoundStep::Pause(200u64), SoundStep::Tone(Tone::NOTE_B4, 200i32), SoundStep::Pause(200u64), SoundStep::Tone(Tone::NOTE_AS4, 200i32), SoundStep::Tone(Tone::NOTE_A4, 200i32), SoundStep::Pause(200u64), SoundStep::Tone(Tone::NOTE_G4, 140i32), SoundStep::Tone(Tone::NOTE_E5, 140i32), SoundStep::Tone(Tone::NOTE_G5, 140i32), SoundStep::Tone(Tone::NOTE_A5, 200i32), SoundStep::Pause(200u64), SoundStep::Tone(Tone::NOTE_F5, 200i32), SoundStep::Tone(Tone::NOTE_G5, 200i32), SoundStep::Pause(200u64), SoundStep::Tone(Tone::NOTE_E5, 200i32), SoundStep::Pause(200u64), SoundStep::Tone(Tone::NOTE_C5, 200i32), SoundStep::Tone(Tone::NOTE_D5, 200i32), SoundStep::Tone(Tone::NOTE_B4, 200i32), SoundStep::Pause(440u64), SoundStep::Tone(Tone::NOTE_C5, 200i32), SoundStep::Pause(440u64), SoundStep::Tone(Tone::NOTE_G4, 200i32), SoundStep::Pause(440u64), SoundStep::Tone(Tone::NOTE_E4, 140i32), SoundStep::Pause(440u64), SoundStep::Tone(Tone::NOTE_A4, 200i32), SoundStep::Pause(200u64), SoundStep::Tone(Tone::NOTE_B4, 200i32), SoundStep::Pause(200u64), SoundStep::Tone(Tone::NOTE_AS4, 200i32), SoundStep::Tone(Tone::NOTE_A4, 200i32), SoundStep::Pause(200u64), SoundStep::Tone(Tone::NOTE_G4, 140i32), SoundStep::Tone(Tone::NOTE_E5, 140i32), SoundStep::Tone(Tone::NOTE_G5, 140i32), SoundStep::Tone(Tone::NOTE_A5, 200i32), SoundStep::Pause(200u64), SoundStep::Tone(Tone::NOTE_F5, 200i32), SoundStep::Tone(Tone::NOTE_G5, 200i32), SoundStep::Pause(200u64), SoundStep::Tone(Tone::NOTE_E5, 200i32), SoundStep::Pause(200u64), SoundStep::Tone(Tone::NOTE_C5, 200i32), SoundStep::Tone(Tone::NOTE_D5, 200i32), SoundStep::Tone(Tone::NOTE_B4, 200i32), SoundStep::Pause(440u64)]
}

/// The first part of the Imperial March, note by note.
pub open spec fn spec_starwars_first_session() -> Seq<SoundStep> {
    seq![SoundStep::Tone(Tone::NOTE_A4, 500i32), SoundStep::Tone(Tone::NOTE_A4, 500i32), SoundStep::Tone(Tone::NOTE_A4, 500i32), SoundStep::Tone(Tone::NOTE_F4, 350i32), SoundStep::Tone(Tone::NOTE_C5, 150i32), SoundStep::Tone(Tone::NOTE_A4, 500i32), SoundStep::Tone(Tone::NOTE_F4, 350i32), SoundStep::Tone(Tone::NOTE_C5, 150i32), SoundStep::Tone(Tone::NOTE_A4, 650i32), SoundStep::Pause(500u64), SoundStep::Tone(Tone::NOTE_E5, 500i32), SoundStep::Tone(Tone::NOTE_E5, 500i32), SoundStep::Tone(Tone::NOTE_E5, 500i32), SoundStep::Tone(Tone::NOTE_F5, 350i32), SoundStep::Tone(Tone::NOTE_C5, 150i32), SoundStep::Tone(Tone::NOTE_GS4, 500i32), SoundStep::Tone(Tone::NOTE_F4, 350i32), SoundStep::Tone(Tone::NOTE_C5, 150i32), SoundStep::Tone(Tone::NOTE_A4, 650i32), SoundStep::Pause(500u64)]
}

/// The second part of the Imperial March, note by note.
pub open spec fn spec_starwars_second_session() -> Seq<SoundStep> {
    seq![SoundStep::Tone(Tone::NOTE_A5, 500i32), SoundStep::Tone(Tone::NOTE_A4, 300i32), SoundStep::Tone(Tone::NOTE_A4, 150i32), SoundStep::Tone(Tone::NOTE_A5, 500i32), SoundStep::Tone(Tone::NOTE_GS5, 325i32), SoundStep::Tone(Tone::NOTE_G5, 175i32), SoundStep::Tone(Tone::NOTE_FS5, 125i32), SoundStep::Tone(Tone::NOTE_F5, 125i32), SoundStep::Tone(Tone::NOTE_FS5, 250i32), SoundStep::Pause(325u64), SoundStep::Tone(Tone::NOTE_AS4, 250i32), SoundStep::Tone(Tone::NOTE_DS5, 500i32), SoundStep::Tone(Tone::NOTE_D5, 325i32), SoundStep::Tone(Tone::NOTE_CS5, 175i32), SoundStep::Tone(Tone::NOTE_C5, 125i32), SoundStep::Tone(Tone::NOTE_B4, 125i32), SoundStep::Tone(Tone::NOTE_C5, 250i32), SoundStep::Pause(350u64)]
}

/// The first variation of the Imperial March, note by note.
pub open spec fn spec_starwars_variant1() -> Seq<SoundStep> {
    seq![SoundStep::Tone(Tone::NOTE_F4, 250i32), SoundStep::Tone(Tone::NOTE_GS4, 500i32), SoundStep::Tone(Tone::NOTE_F4, 350i32), SoundStep::Tone(Tone::NOTE_A4, 125i32), SoundStep::Tone(Tone::NOTE_C5, 500i32), SoundStep::Tone(Tone::NOTE_A4, 375i32), SoundStep::Tone(Tone::NOTE_C5, 125i32), SoundStep::Tone(Tone::NOTE_E5, 650i32), SoundStep::Pause(500u64)]
}

/// The second variation of the Imperial March, note by note.
pub open spec fn spec_starwars_variant2() -> Seq<SoundStep> {
    seq![SoundStep::Tone(Tone::NOTE_F4, 250i32), SoundStep::Tone(Tone::NOTE_GS4, 500i32), SoundStep::Tone(Tone::NOTE_F4, 375i32), SoundStep::Tone(Tone::NOTE_C5, 125i32), SoundStep::Tone(Tone::NOTE_A4, 500i32), SoundStep::Tone(Tone::NOTE_F4, 375i32), SoundStep::Tone(Tone::NOTE_C5, 125i32), SoundStep::Tone(Tone::NOTE_A4, 650i32), SoundStep::Pause(650u64)]
}

/// "Do-Re-Mi-Fa", note by note.
pub open spec fn spec_doremifa_score() -> Seq<SoundStep> {
    seq![SoundStep::Tone(Tone::NOTE_C4, 600i32), SoundStep::Tone(Tone::NOTE_D4, 600i32), SoundStep::Tone(Tone::NOTE_E4, 600i32), SoundStep::Tone(Tone::NOTE_F4, 600i32), SoundStep::Pause(100u64), SoundStep::Tone(Tone::NOTE_F4, 400i32), SoundStep::Pause(100u64), SoundStep::Tone(Tone::NOTE_F4, 400i32), SoundStep::Tone(Tone::NOTE_C4, 600i32), SoundStep::Tone(Tone::NOTE_D4, 600i32), SoundStep::Tone(Tone::NOTE_C4, 600i32), SoundStep::Tone(Tone::NOTE_D4, 600i32), SoundStep::Pause(100u64), SoundStep::Tone(Tone::NOTE_D4, 400i32), SoundStep::Pause(100u64), SoundStep::Tone(Tone::NOTE_D4, 400i32), SoundStep::Tone(Tone::NOTE_C4, 600i32), SoundStep::Tone(Tone::NOTE_G4, 600i32), SoundStep::Tone(Tone::NOTE_F4, 600i32), SoundStep::Tone(Tone::NOTE_E4, 600i32), SoundStep::Pause(100u64), SoundStep::Tone(Tone::NOTE_E4, 400i32), SoundStep::Pause(100u64), SoundStep::Tone(Tone::NOTE_E4, 400i32), SoundStep::Tone(Tone::NOTE_C4, 600i32), SoundStep::Tone(Tone::NOTE_D4, 600i32), SoundStep::Tone(Tone::NOTE_E4, 600i32), SoundStep::Tone(Tone::NOTE_F4, 600i32), SoundStep::Pause(100u64), SoundStep::Tone(Tone::NOTE_F4, 400i32), SoundStep::Pause(100u64), SoundStep::Tone(Tone::NOTE_F4, 400i32)]
}

/// The error tune, as tones with the pause that follows each.
pub open spec fn spec_error_tune() -> Seq<(BuzzerTone, u64)> {
    seq![(BuzzerTone { freq: 261i32, period: 600i32 }, 600u64), (BuzzerTone { freq: 294i32, period: 600i32 }, 600u64), (BuzzerTone { freq: 329i32, period: 600i32 }, 600u64), (BuzzerTone { freq: 349i32, period: 600i32 }, 600u64), (BuzzerTone { freq: 349i32, period: 400i32 }, 500u64), (BuzzerTone { freq: 349i32, period: 400i32 }, 500u64), (BuzzerTone { freq: 261i32, period: 600i32 }, 600u64), (BuzzerTone { freq: 294i32, period: 600i32 }, 600u64), (BuzzerTone { freq: 261i32, period: 600i32 }, 600u64), (BuzzerTone { freq: 294i32, period: 600i32 }, 600u64), (BuzzerTone { freq: 294i32, period: 400i32 }, 500u64), (BuzzerTone { freq: 294i32, period: 400i32 }, 500u64), (BuzzerTone { freq: 261i32, period: 600i32 }, 600u64), (BuzzerTone { freq: 392i32, period: 600i32 }, 600u64), (BuzzerTone { freq: 349i32, period: 600i32 }, 600u64), (BuzzerTone { freq: 329i32, period: 600i32 }, 600u64), (BuzzerTone { freq: 329i32, period: 400i32 }, 500u64), (BuzzerTone { freq: 329i32, period: 400i32 }, 500u64), (BuzzerTone { freq: 261i32, period: 600i32 }, 600u64), (BuzzerTone { freq: 294i32, period: 600i32 }, 600u64), (BuzzerTone { freq: 329i32, period: 600i32 }, 600u64), (BuzzerTone { freq: 349i32, period: 600i32 }, 600u64), (BuzzerTone { freq: 349i32, period: 400i32 }, 500u64), (BuzzerTone { freq: 349i32, period: 400i32 }, 500u64)]
}

/// The error tune, as tones (frequency in Hz, length in ms) with the pause (ms)
/// after each.
pub fn error_tune() -> (t: Vec<(BuzzerTone, u64)>)
    ensures
        t@ == spec_error_tune(),
{
    let t = vec![(BuzzerTone { freq: 261, period: 600 }, 600), (BuzzerTone { freq: 294, period: 600 }, 600), (BuzzerTone { freq: 329, period: 600 }, 600), (BuzzerTone { freq: 349, period: 600 }, 600), (BuzzerTone { freq: 349, period: 400 }, 500), (BuzzerTone { freq: 349, period: 400 }, 500), (BuzzerTone { freq: 261, period: 600 }, 600), (BuzzerTone { freq: 294, period: 600 }, 600), (BuzzerTone { freq: 261, period: 600 }, 600), (BuzzerTone { freq: 294, period: 600 }, 600), (BuzzerTone { freq: 294, period: 400 }, 500), (BuzzerTone { freq: 294, period: 400 }, 500), (BuzzerTone { freq: 261, period: 600 }, 600), (BuzzerTone { freq: 392, period: 600 }, 600), (BuzzerTone { freq: 349, period: 600 }, 600), (BuzzerTone { freq: 329, period: 600 }, 600), (BuzzerTone { freq: 329, period: 400 }, 500), (BuzzerTone { freq: 329, period: 400 }, 500), (BuzzerTone { freq: 261, period: 600 }, 600), (BuzzerTone { freq: 294, period: 600 }, 600), (BuzzerTone { freq: 329, period: 600 }, 600), (BuzzerTone { freq: 349, period: 600 }, 600), (BuzzerTone { freq: 349, period: 400 }, 500), (BuzzerTone { freq: 349, period: 400 }, 500)];
    assert(t@ =~= spec_error_tune());
    t
}

/// The tones the buzzer plays for notes `tones` of lengths `periods`: the
/// notes in order, each at its frequency for its length, but those of length
/// 0.
pub open spec fn played(tones: Seq<Tone>, periods: Seq<i32>) -> Seq<BuzzerTone>
    decreases tones.len(),
{
    if tones.len() == 0 {
        Seq::empty()
    } else {
        let rest = played(tones.drop_last(), periods.drop_last());
        let k = tones.len() - 1;
        if periods[k] != 0 {
            rest.push(BuzzerTone { freq: tones[k].freq(), period: periods[k] })
        } else {
            rest
        }
    }
}

/// The melodies of the buzzer.
pub struct Sounds {}

impl Sounds {
    /// The start-up melody: the first 37 notes of "He's a Pirate".
    pub fn piratescaribean() -> (m: Melody)
        ensures
            m.tones@ == piratescaribean_tones().take(37),
            m.periods@ == piratescaribean_periods().take(37),
    {
        let mut tones: Vec<Tone> = vec![Tone::NOTE_E4, Tone::NOTE_G4, Tone::NOTE_A4, Tone::NOTE_A4, Tone::NOTE_NULL, Tone::NOTE_A4, Tone::NOTE_B4, Tone::NOTE_C5, Tone::NOTE_C5, Tone::NOTE_NULL, Tone::NOTE_C5, Tone::NOTE_D5, Tone::NOTE_B4, Tone::NOTE_B4, Tone::NOTE_NULL, Tone::NOTE_A4, Tone::NOTE_G4, Tone::NOTE_A4, Tone::NOTE_NULL, Tone::NOTE_E4, Tone::NOTE_G4, Tone::NOTE_A4, Tone::NOTE_A4, Tone::NOTE_NULL, Tone::NOTE_A4, Tone::NOTE_B4, Tone::NOTE_C5, Tone::NOTE_C5, Tone::NOTE_NULL, Tone::NOTE_C5, Tone::NOTE_D5, Tone::NOTE_B4, Tone::NOTE_B4, Tone::NOTE_NULL, Tone::NOTE_A4, Tone::NOTE_G4, Tone::NOTE_A4, Tone::NOTE_NULL, Tone::NOTE_E4, Tone::NOTE_G4, Tone::NOTE_A4, Tone::NOTE_A4, Tone::NOTE_NULL, Tone::NOTE_A4, Tone::NOTE_C5, Tone::NOTE_D5, Tone::NOTE_D5, Tone::NOTE_NULL, Tone::NOTE_D5, Tone::NOTE_E5, Tone::NOTE_F5, Tone::NOTE_F5, Tone::NOTE_NULL, Tone::NOTE_E5, Tone::NOTE_D5, Tone::NOTE_E5, Tone::NOTE_A4, Tone::NOTE_NULL, Tone::NOTE_A4, Tone::NOTE_B4, Tone::NOTE_C5, Tone::NOTE_C5, Tone::NOTE_NULL, Tone::NOTE_D5, Tone::NOTE_E5, Tone::NOTE_A4, Tone::NOTE_NULL, Tone::NOTE_A4, Tone::NOTE_C5, Tone::NOTE_B4, Tone::NOTE_B4, Tone::NOTE_NULL, Tone::NOTE_C5, Tone::NOTE_A4, Tone::NOTE_B4, Tone::NOTE_NULL, Tone::NOTE_A4, Tone::NOTE_A4, Tone::NOTE_E4, Tone::NOTE_G4, Tone::NOTE_A4, Tone::NOTE_A4, Tone::NOTE_NULL, Tone::NOTE_A4, Tone::NOTE_B4, Tone::NOTE_C5, Tone::NOTE_C5, Tone::NOTE_NULL, Tone::NOTE_C5, Tone::NOTE_D5, Tone::NOTE_B4, Tone::NOTE_B4, Tone::NOTE_NULL, Tone::NOTE_A4, Tone::NOTE_G4, Tone::NOTE_A4, Tone::NOTE_NULL, Tone::NOTE_E4, Tone::NOTE_G4, Tone::NOTE_A4, Tone::NOTE_A4, Tone::NOTE_NULL, Tone::NOTE_A4, Tone::NOTE_B4, Tone::NOTE_C5, Tone::NOTE_C5, Tone::NOTE_NULL, Tone::NOTE_C5, Tone::NOTE_D5, Tone::NOTE_B4, Tone::NOTE_B4, Tone::NOTE_NULL, Tone::NOTE_A4, Tone::NOTE_G4, Tone::NOTE_A4, Tone::NOTE_NULL, Tone::NOTE_E4, Tone::NOTE_G4, Tone::NOTE_A4, Tone::NOTE_A4, Tone::NOTE_NULL, Tone::NOTE_A4, Tone::NOTE_C5, Tone::NOTE_D5, Tone::NOTE_D5, Tone::NOTE_NULL, Tone::NOTE_D5, Tone::NOTE_E5, Tone::NOTE_F5, Tone::NOTE_F5, Tone::NOTE_NULL, Tone::NOTE_E5, Tone::NOTE_D5, Tone::NOTE_E5, Tone::NOTE_A4, Tone::NOTE_NULL, Tone::NOTE_A4, Tone::NOTE_B4, Tone::NOTE_C5, Tone::NOTE_C5, Tone::NOTE_NULL, Tone::NOTE_D5, Tone::NOTE_E5, Tone::NOTE_A4, Tone::NOTE_NULL, Tone::NOTE_A4, Tone::NOTE_C5, Tone::NOTE_B4, Tone::NOTE_B4, Tone::NOTE_NULL, Tone::NOTE_C5, Tone::NOTE_A4, Tone::NOTE_B4, Tone::NOTE_NULL, Tone::NOTE_E5, Tone::NOTE_NULL, Tone::NOTE_F5, Tone::NOTE_NULL, Tone::NOTE_E5, Tone::NOTE_E5, Tone::NOTE_NULL, Tone::NOTE_G5, Tone::NOTE_NULL, Tone::NOTE_E5, Tone::NOTE_D5, Tone::NOTE_NULL, Tone::NOTE_D5, Tone::NOTE_NULL, Tone::NOTE_C5, Tone::NOTE_NULL, Tone::NOTE_B4, Tone::NOTE_C5, Tone::NOTE_NULL, Tone::NOTE_B4, Tone::NOTE_C5, Tone::NOTE_NULL, Tone::NOTE_B4, Tone::NOTE_NULL, Tone::NOTE_A4, Tone::NOTE_E5, Tone::NOTE_NULL, Tone::NOTE_F5, Tone::NOTE_NULL, Tone::NOTE_E5, Tone::NOTE_E5, Tone::NOTE_NULL, Tone::NOTE_G5, Tone::NOTE_NULL, Tone::NOTE_E5, Tone::NOTE_D5, Tone::NOTE_NULL, Tone::NOTE_D5, Tone::NOTE_NULL, Tone::NOTE_C5, Tone::NOTE_NULL, Tone::NOTE_B4, Tone::NOTE_C5, Tone::NOTE_NULL, Tone::NOTE_B4, Tone::NOTE_NULL, Tone::NOTE_A4];
        let mut periods: Vec<i32> = vec![125, 125, 250, 125, 50, 125, 125, 250, 125, 50, 125, 125, 250, 125, 50, 125, 125, 375, 50, 125, 125, 250, 125, 50, 125, 125, 250, 125, 50, 125, 125, 250, 125, 50, 125, 125, 375, 50, 125, 125, 250, 125, 50, 125, 125, 250, 125, 50, 125, 125, 250, 125, 50, 125, 125, 125, 250, 50, 125, 125, 250, 125, 50, 250, 125, 250, 50, 125, 125, 250, 125, 50, 125, 125, 375, 50, 250, 125, 125, 125, 250, 125, 50, 125, 125, 250, 125, 50, 125, 125, 250, 125, 50, 125, 125, 375, 50, 125, 125, 250, 125, 50, 125, 125, 250, 125, 50, 125, 125, 250, 125, 50, 125, 125, 375, 50, 125, 125, 250, 125, 50, 125, 125, 250, 125, 50, 125, 125, 250, 125, 50, 125, 125, 125, 250, 50, 125, 125, 250, 125, 50, 250, 125, 250, 50, 125, 125, 250, 125, 50, 125, 125, 375, 200, 250, 400, 250, 400, 125, 125, 50, 125, 50, 125, 125, 400, 250, 400, 250, 400, 125, 125, 50, 125, 125, 50, 125, 50, 500, 125, 50, 250, 400, 125, 125, 50, 125, 50, 125, 125, 400, 250, 400, 250, 400, 125, 125, 50, 125, 50, 500];
        assert(tones@ =~= piratescaribean_tones());
        assert(periods@ =~= piratescaribean_periods());
        tones.truncate(37);
        periods.truncate(37);
        Melody { tones, periods }
    }

    /// "Hedwig's Theme".
    pub fn harrypotter() -> (m: Melody)
        ensures
            m.tones@ == harrypotter_tones(),
            m.periods@ == harrypotter_periods(),
    {
        let mut tones: Vec<Tone> = vec![Tone::NOTE_B4, Tone::NOTE_E5, Tone::NOTE_G5, Tone::NOTE_FS5, Tone::NOTE_E5, Tone::NOTE_B5, Tone::NOTE_A5, Tone::NOTE_FS5, Tone::NOTE_E5, Tone::NOTE_G5, Tone::NOTE_FS5, Tone::NOTE_DS5, Tone::NOTE_F5, Tone::NOTE_B4, Tone::NOTE_B4, Tone::NOTE_E5, Tone::NOTE_G5, Tone::NOTE_FS5, Tone::NOTE_E5, Tone::NOTE_B5, Tone::NOTE_D6, Tone::NOTE_CS6, Tone::NOTE_C6, Tone::NOTE_GS5, Tone::NOTE_C6, Tone::NOTE_B5, Tone::NOTE_AS5, Tone::NOTE_AS4, Tone::NOTE_G5, Tone::NOTE_E5, Tone::NOTE_G5, Tone::NOTE_B5, Tone::NOTE_G5, Tone::NOTE_B5, Tone::NOTE_G5, Tone::NOTE_C6, Tone::NOTE_B5, Tone::NOTE_AS5, Tone::NOTE_FS5, Tone::NOTE_G5, Tone::NOTE_B5, Tone::NOTE_AS5, Tone::NOTE_AS4, Tone::NOTE_B4, Tone::NOTE_B5, Tone::NOTE_G5, Tone::NOTE_B5, Tone::NOTE_G5, Tone::NOTE_B5, Tone::NOTE_G5, Tone::NOTE_D6, Tone::NOTE_CS6, Tone::NOTE_C6, Tone::NOTE_GS5, Tone::NOTE_C6, Tone::NOTE_B5, Tone::NOTE_AS5, Tone::NOTE_AS4, Tone::NOTE_G5, Tone::NOTE_E5];
        let mut periods: Vec<i32> = vec![333, 500, 166, 333, 666, 333, 1000, 1000, 500, 166, 333, 666, 333, 1666, 333, 500, 166, 333, 666, 333, 666, 333, 666, 333, 500, 166, 333, 666, 333, 1666, 333, 666, 333, 666, 333, 666, 333, 666, 333, 500, 166, 333, 666, 333, 1666, 333, 666, 333, 666, 333, 666, 333, 666, 333, 500, 166, 333, 666, 333, 1666];
        assert(tones@ =~= harrypotter_tones());
        assert(periods@ =~= harrypotter_periods());
        Melody { tones, periods }
    }

    /// The welcome melody: the first 10 notes of the Super Mario theme.
    pub fn supermario() -> (m: Melody)
        ensures
            m.tones@ == supermario_tones().take(10),
            m.periods@ == supermario_periods().take(10),
    {
        let mut tones: Vec<Tone> = vec![Tone::NOTE_E5, Tone::NOTE_E5, Tone::NOTE_E5, Tone::NOTE_NULL, Tone::NOTE_C5, Tone::NOTE_E5, Tone::NOTE_NULL, Tone::NOTE_G5, Tone::NOTE_NULL, Tone::NOTE_G4, Tone::NOTE_NULL, Tone::NOTE_C5, Tone::NOTE_NULL, Tone::NOTE_G4, Tone::NOTE_NULL, Tone::NOTE_E4, Tone::NOTE_NULL, Tone::NOTE_A4, Tone::NOTE_NULL, Tone::NOTE_B4, Tone::NOTE_NULL, Tone::NOTE_AS4, Tone::NOTE_A4, Tone::NOTE_NULL, Tone::NOTE_G4, Tone::NOTE_E5, Tone::NOTE_G5, Tone::NOTE_A5, Tone::NOTE_NULL, Tone::NOTE_F5, Tone::NOTE_G5, Tone::NOTE_NULL, Tone::NOTE_E5, Tone::NOTE_NULL, Tone::NOTE_C5, Tone::NOTE_D5, Tone::NOTE_B4, Tone::NOTE_NULL, Tone::NOTE_C5, Tone::NOTE_NULL, Tone::NOTE_G4, Tone::NOTE_NULL, Tone::NOTE_E4, Tone::NOTE_NULL, Tone::NOTE_A4, Tone::NOTE_NULL, Tone::NOTE_B4, Tone::NOTE_NULL, Tone::NOTE_AS4, Tone::NOTE_A4, Tone::NOTE_NULL, Tone::NOTE_G4, Tone::NOTE_E5, Tone::NOTE_G5, Tone::NOTE_A5, Tone::NOTE_NULL, Tone::NOTE_F5, Tone::NOTE_G5, Tone::NOTE_NULL, Tone::NOTE_E5, Tone::NOTE_NULL, Tone::NOTE_C5, Tone::NOTE_D5, Tone::NOTE_B4, Tone::NOTE_NULL];
        let mut periods: Vec<i32> = vec![200, 200, 200, 200, 200, 200, 200, 200, 680, 200, 680, 200, 440, 200, 440, 200, 440, 200, 200, 200, 200, 200, 200, 200, 140, 140, 140, 200, 200, 200, 200, 200, 200, 200, 200, 200, 200, 440, 200, 440, 200, 440, 140, 440, 200, 200, 200, 200, 200, 200, 200, 140, 140, 140, 200, 200, 200, 200, 200, 200, 200, 200, 200, 200, 440];
        assert(tones@ =~= supermario_tones());
        assert(periods@ =~= supermario_periods());
        tones.truncate(10);
        periods.truncate(10);
        Melody { tones, periods }
    }

    /// The first 8 notes of "Do-Re-Mi-Fa".
    pub fn doremifa() -> (m: Melody)
        ensures
            m.tones@ == doremifa_tones().take(8),
            m.periods@ == doremifa_periods().take(8),
    {
        let mut tones: Vec<Tone> = vec![Tone::NOTE_C4, Tone::NOTE_D4, Tone::NOTE_E4, Tone::NOTE_F4, Tone::NOTE_NULL, Tone::NOTE_F4, Tone::NOTE_NULL, Tone::NOTE_F4, Tone::NOTE_C4, Tone::NOTE_D4, Tone::NOTE_C4, Tone::NOTE_D4, Tone::NOTE_NULL, Tone::NOTE_D4, Tone::NOTE_NULL, Tone::NOTE_D4, Tone::NOTE_C4, Tone::NOTE_G4, Tone::NOTE_F4, Tone::NOTE_E4, Tone::NOTE_NULL, Tone::NOTE_E4, Tone::NOTE_NULL, Tone::NOTE_E4, Tone::NOTE_C4, Tone::NOTE_D4, Tone::NOTE_E4, Tone::NOTE_F4, Tone::NOTE_NULL, Tone::NOTE_F4, Tone::NOTE_NULL, Tone::NOTE_F4];
        let mut periods: Vec<i32> = vec![600, 600, 600, 600, 100, 400, 100, 400, 600, 600, 600, 600, 100, 400, 100, 400, 600, 600, 600, 600, 100, 400, 100, 400, 600, 600, 600, 600, 100, 400, 100, 400];
        assert(tones@ =~= doremifa_tones());
        assert(periods@ =~= doremifa_periods());
        tones.truncate(8);
        periods.truncate(8);
        Melody { tones, periods }
    }

    /// The alert: four short beeps.
    pub fn bip() -> (m: Melody)
        ensures
            m.tones@ == bip_tones(),
            m.periods@ == bip_periods(),
    {
        let mut tones: Vec<Tone> = vec![Tone::NOTE_C4, Tone::NOTE_NULL, Tone::NOTE_D4, Tone::NOTE_NULL, Tone::NOTE_E4, Tone::NOTE_NULL, Tone::NOTE_F4, Tone::NOTE_NULL];
        let mut periods: Vec<i32> = vec![150, 150, 150, 150, 150, 150, 150, 150];
        assert(tones@ =~= bip_tones());
        assert(periods@ =~= bip_periods());
        Melody { tones, periods }
    }

    /// The denial melody: the first 10 notes of the Imperial March (first
    /// part, second part, first variation, second part, second variation).
    pub fn starwars() -> (m: Melody)
        ensures
            m.tones@ == (starwars_1s_tones() + starwars_2s_tones() + starwars_1v_tones()
                + starwars_2s_tones() + starwars_2v_tones()).take(10),
            m.periods@ == (starwars_1s_periods() + starwars_2s_periods() + starwars_1v_periods()
                + starwars_2s_periods() + starwars_2v_periods()).take(10),
    {
        let tones_1s: Vec<Tone> = vec![Tone::NOTE_A4, Tone::NOTE_A4, Tone::NOTE_A4, Tone::NOTE_F4, Tone::NOTE_C5, Tone::NOTE_A4, Tone::NOTE_F4, Tone::NOTE_C5, Tone::NOTE_A4, Tone::NOTE_NULL, Tone::NOTE_E5, Tone::NOTE_E5, Tone::NOTE_E5, Tone::NOTE_F5, Tone::NOTE_C5, Tone::NOTE_GS4, Tone::NOTE_F4, Tone::NOTE_C5, Tone::NOTE_A4, Tone::NOTE_NULL];
        let periods_1s: Vec<i32> = vec![500, 500, 500, 350, 150, 500, 350, 150, 650, 500, 500, 500, 500, 350, 150, 500, 350, 150, 650, 500];
        assert(tones_1s@ =~= starwars_1s_tones());
        assert(periods_1s@ =~= starwars_1s_periods());
        let tones_2s: Vec<Tone> = vec![Tone::NOTE_A5, Tone::NOTE_A4, Tone::NOTE_A4, Tone::NOTE_A5, Tone::NOTE_GS5, Tone::NOTE_G5, Tone::NOTE_FS5, Tone::NOTE_F5, Tone::NOTE_FS5, Tone::NOTE_NULL, Tone::NOTE_AS4, Tone::NOTE_DS5, Tone::NOTE_D5, Tone::NOTE_CS5, Tone::NOTE_C5, Tone::NOTE_B4, Tone::NOTE_C5, Tone::NOTE_NULL];
        let periods_2s: Vec<i32> = vec![500, 300, 150, 500, 325, 175, 125, 125, 250, 325, 250, 500, 325, 175, 125, 125, 250, 350];
        assert(tones_2s@ =~= starwars_2s_tones());
        assert(periods_2s@ =~= starwars_2s_periods());
        let tones_1v: Vec<Tone> = vec![Tone::NOTE_F4, Tone::NOTE_GS4, Tone::NOTE_F4, Tone::NOTE_A4, Tone::NOTE_C5, Tone::NOTE_A4, Tone::NOTE_C5, Tone::NOTE_E5, Tone::NOTE_NULL];
        let periods_1v: Vec<i32> = vec![250, 500, 350, 125, 500, 375, 125, 650, 500];
        assert(tones_1v@ =~= starwars_1v_tones());
        assert(periods_1v@ =~= starwars_1v_periods());
        let tones_2v: Vec<Tone> = vec![Tone::NOTE_F4, Tone::NOTE_GS4, Tone::NOTE_F4, Tone::NOTE_C5, Tone::NOTE_A4, Tone::NOTE_F4, Tone::NOTE_C5, Tone::NOTE_A4, Tone::NOTE_NULL];
        let periods_2v: Vec<i32> = vec![250, 500, 375, 125, 500, 375, 125, 650, 650];
        assert(tones_2v@ =~= starwars_2v_tones());
        assert(periods_2v@ =~= starwars_2v_periods());
        let mut tones: Vec<Tone> = Vec::new();
        extend_from(&mut tones, &tones_1s);
        extend_from(&mut tones, &tones_2s);
        extend_from(&mut tones, &tones_1v);
        extend_from(&mut tones, &tones_2s);
        extend_from(&mut tones, &tones_2v);
        let mut periods: Vec<i32> = Vec::new();
        extend_from(&mut periods, &periods_1s);
        extend_from(&mut periods, &periods_2s);
        extend_from(&mut periods, &periods_1v);
        extend_from(&mut periods, &periods_2s);
        extend_from(&mut periods, &periods_2v);
        assert(tones@ =~= starwars_1s_tones() + starwars_2s_tones() + starwars_1v_tones()
            + starwars_2s_tones() + starwars_2v_tones());
        assert(periods@ =~= starwars_1s_periods() + starwars_2s_periods() + starwars_1v_periods()
            + starwars_2s_periods() + starwars_2v_periods());
        tones.truncate(10);
        periods.truncate(10);
        Melody { tones, periods }
    }

    /// What the buzzer plays for a melody: one tone per note, frequency and
    /// length, in order, where notes of length 0 are passed over. Notes and
    /// lengths must pair up: otherwise the error "tones and periods differs in
    /// length.".
    pub fn play_sound(tones: &Vec<Tone>, periods: &Vec<i32>) -> (r: Result<Vec<BuzzerTone>, String>)
        ensures
            tones@.len() != periods@.len() ==> (r matches Err(e) && e@ == "tones and periods differs in length."@),
            tones@.len() == periods@.len() ==> (r matches Ok(t) && t@ == played(tones@, periods@)),
    {
        if tones.len() != periods.len() {
            return Err("tones and periods differs in length.".to_owned());
        }
        let mut out: Vec<BuzzerTone> = Vec::new();
        let mut i: usize = 0;
        while i < tones.len()
            invariant
                i <= tones@.len(),
                tones@.len() == periods@.len(),
                out@ == played(tones@.take(i as int), periods@.take(i as int)),
            decreases tones@.len() - i,
        {
            assert(tones@.take(i + 1).drop_last() =~= tones@.take(i as int));
            assert(periods@.take(i + 1).drop_last() =~= periods@.take(i as int));
            if periods[i] != 0 {
                out.push(BuzzerTone { freq: tones[i].value(), period: periods[i] });
            }
            i = i + 1;
        }
        assert(tones@.take(i as int) =~= tones@);
        assert(periods@.take(i as int) =~= periods@);
        Ok(out)
    }

    /// "He's a Pirate", note by note.
    pub fn piratescaribean_score() -> (s: Vec<SoundStep>)
        ensures
            s@ == spec_piratescaribean_score(),
    {
        let s = vec![SoundStep::Tone(Tone::NOTE_E4, 125), SoundStep::Tone(Tone::NOTE_G4, 125), SoundStep::Tone(Tone::NOTE_A4, 250), SoundStep::Tone(Tone::NOTE_A4, 125), SoundStep::Pause(50), SoundStep::Tone(Tone::NOTE_A4, 125), SoundStep::Tone(Tone::NOTE_B4, 125), SoundStep::Tone(Tone::NOTE_C5, 250), SoundStep::Tone(Tone::NOTE_C5, 125), SoundStep::Pause(50), SoundStep::Tone(Tone::NOTE_C5, 125), SoundStep::Tone(Tone::NOTE_D5, 125), SoundStep::Tone(Tone::NOTE_B4, 250), SoundStep::Tone(Tone::NOTE_B4, 125), SoundStep::Pause(50), SoundStep::Tone(Tone::NOTE_A4, 125), SoundStep::Tone(Tone::NOTE_G4, 125), SoundStep::Tone(Tone::NOTE_A4, 375), SoundStep::Pause(50), SoundStep::Tone(Tone::NOTE_E4, 125), SoundStep::Tone(Tone::NOTE_G4, 125), SoundStep::Tone(Tone::NOTE_A4, 250), SoundStep::Tone(Tone::NOTE_A4, 125), SoundStep::Pause(50), SoundStep::Tone(Tone::NOTE_A4, 125), SoundStep::Tone(Tone::NOTE_B4, 125), SoundStep::Tone(Tone::NOTE_C5, 250), SoundStep::Tone(Tone::NOTE_C5, 125), SoundStep::Pause(50), SoundStep::Tone(Tone::NOTE_C5, 125), SoundStep::Tone(Tone::NOTE_D5, 125), SoundStep::Tone(Tone::NOTE_B4, 250), SoundStep::Tone(Tone::NOTE_B4, 125), SoundStep::Pause(50), SoundStep::Tone(Tone::NOTE_A4, 125), SoundStep::Tone(Tone::NOTE_G4, 125), SoundStep::Tone(Tone::NOTE_A4, 375), SoundStep::Pause(50), SoundStep::Tone(Tone::NOTE_E4, 125), SoundStep::Tone(Tone::NOTE_G4, 125), SoundStep::Tone(Tone::NOTE_A4, 250), SoundStep::Tone(Tone::NOTE_A4, 125), SoundStep::Pause(50), SoundStep::Tone(Tone::NOTE_A4, 125), SoundStep::Tone(Tone::NOTE_C5, 125), SoundStep::Tone(Tone::NOTE_D5, 250), SoundStep::Tone(Tone::NOTE_D5, 125), SoundStep::Pause(50), SoundStep::Tone(Tone::NOTE_D5, 125), SoundStep::Tone(Tone::NOTE_E5, 125), SoundStep::Tone(Tone::NOTE_F5, 250), SoundStep::Tone(Tone::NOTE_F5, 125), SoundStep::Pause(50), SoundStep::Tone(Tone::NOTE_E5, 125), SoundStep::Tone(Tone::NOTE_D5, 125), SoundStep::Tone(Tone::NOTE_E5, 125), SoundStep::Tone(Tone::NOTE_A4, 250), SoundStep::Pause(50), SoundStep::Tone(Tone::NOTE_A4, 125), SoundStep::Tone(Tone::NOTE_B4, 125), SoundStep::Tone(Tone::NOTE_C5, 250), SoundStep::Tone(Tone::NOTE_C5, 125), SoundStep::Pause(50), SoundStep::Tone(Tone::NOTE_D5, 250), SoundStep::Tone(Tone::NOTE_E5, 125), SoundStep::Tone(Tone::NOTE_A4, 250), SoundStep::Pause(50), SoundStep::Tone(Tone::NOTE_A4, 125), SoundStep::Tone(Tone::NOTE_C5, 125), SoundStep::Tone(Tone::NOTE_B4, 250), SoundStep::Tone(Tone::NOTE_B4, 125), SoundStep::Pause(50), SoundStep::Tone(Tone::NOTE_C5, 125), SoundStep::Tone(Tone::NOTE_A4, 125), SoundStep::Tone(Tone::NOTE_B4, 375), SoundStep::Pause(200), SoundStep::Tone(Tone::NOTE_A4, 250), SoundStep::Tone(Tone::NOTE_A4, 125), SoundStep::Tone(Tone::NOTE_E4, 125), SoundStep::Tone(Tone::NOTE_G4, 125), SoundStep::Tone(Tone::NOTE_A4, 250), SoundStep::Tone(Tone::NOTE_A4, 125), SoundStep::Pause(50), SoundStep::Tone(Tone::NOTE_A4, 125), SoundStep::Tone(Tone::NOTE_B4, 125), SoundStep::Tone(Tone::NOTE_C5, 250), SoundStep::Tone(Tone::NOTE_C5, 125), SoundStep::Pause(50), SoundStep::Tone(Tone::NOTE_C5, 125), SoundStep::Tone(Tone::NOTE_D5, 125), SoundStep::Tone(Tone::NOTE_B4, 250), SoundStep::Tone(Tone::NOTE_B4, 125), SoundStep::Pause(50), SoundStep::Tone(Tone::NOTE_A4, 125), SoundStep::Tone(Tone::NOTE_G4, 125), SoundStep::Tone(Tone::NOTE_A4, 375), SoundStep::Pause(50), SoundStep::Tone(Tone::NOTE_E4, 125), SoundStep::Tone(Tone::NOTE_G4, 125), SoundStep::Tone(Tone::NOTE_A4, 250), SoundStep::Tone(Tone::NOTE_A4, 125), SoundStep::Pause(50), SoundStep::Tone(Tone::NOTE_A4, 125), SoundStep::Tone(Tone::NOTE_B4, 125), SoundStep::Tone(Tone::NOTE_C5, 250), SoundStep::Tone(Tone::NOTE_C5, 125), SoundStep::Pause(50), SoundStep::Tone(Tone::NOTE_C5, 125), SoundStep::Tone(Tone::NOTE_D5, 125), SoundStep::Tone(Tone::NOTE_B4, 250), SoundStep::Tone(Tone::NOTE_B4, 125), SoundStep::Pause(50), SoundStep::Tone(Tone::NOTE_A4, 125), SoundStep::Tone(Tone::NOTE_G4, 125), SoundStep::Tone(Tone::NOTE_A4, 375), SoundStep::Pause(50), SoundStep::Tone(Tone::NOTE_E4, 125), SoundStep::Tone(Tone::NOTE_G4, 125), SoundStep::Tone(Tone::NOTE_A4, 250), SoundStep::Tone(Tone::NOTE_A4, 125), SoundStep::Pause(50), SoundStep::Tone(Tone::NOTE_A4, 125), SoundStep::Tone(Tone::NOTE_C5, 125), SoundStep::Tone(Tone::NOTE_D5, 250), SoundStep::Tone(Tone::NOTE_D5, 125), SoundStep::Pause(50), SoundStep::Tone(Tone::NOTE_D5, 125), SoundStep::Tone(Tone::NOTE_E5, 125), SoundStep::Tone(Tone::NOTE_F5, 250), SoundStep::Tone(Tone::NOTE_F5, 125), SoundStep::Pause(50), SoundStep::Tone(Tone::NOTE_E5, 125), SoundStep::Tone(Tone::NOTE_D5, 125), SoundStep::Tone(Tone::NOTE_E5, 125), SoundStep::Tone(Tone::NOTE_A4, 250), SoundStep::Pause(50), SoundStep::Tone(Tone::NOTE_A4, 125), SoundStep::Tone(Tone::NOTE_B4, 125), SoundStep::Tone(Tone::NOTE_C5, 250), SoundStep::Tone(Tone::NOTE_C5, 125), SoundStep::Pause(50), SoundStep::Tone(Tone::NOTE_D5, 250), SoundStep::Tone(Tone::NOTE_E5, 125), SoundStep::Tone(Tone::NOTE_A4, 250), SoundStep::Pause(50), SoundStep::Tone(Tone::NOTE_A4, 125), SoundStep::Tone(Tone::NOTE_C5, 125), SoundStep::Tone(Tone::NOTE_B4, 250), SoundStep::Tone(Tone::NOTE_B4, 125), SoundStep::Pause(50), SoundStep::Tone(Tone::NOTE_C5, 125), SoundStep::Tone(Tone::NOTE_A4, 125), SoundStep::Tone(Tone::NOTE_B4, 375), SoundStep::Pause(200), SoundStep::Tone(Tone::NOTE_E5, 250), SoundStep::Pause(400), SoundStep::Tone(Tone::NOTE_F5, 250), SoundStep::Pause(400), SoundStep::Tone(Tone::NOTE_E5, 125), SoundStep::Tone(Tone::NOTE_E5, 125), SoundStep::Pause(50), SoundStep::Tone(Tone::NOTE_G5, 125), SoundStep::Pause(50), SoundStep::Tone(Tone::NOTE_E5, 125), SoundStep::Tone(Tone::NOTE_D5, 125), SoundStep::Pause(400), SoundStep::Tone(Tone::NOTE_D5, 250), SoundStep::Pause(400), SoundStep::Tone(Tone::NOTE_C5, 250), SoundStep::Pause(400), SoundStep::Tone(Tone::NOTE_B4, 125), SoundStep::Tone(Tone::NOTE_C5, 125), SoundStep::Pause(50), SoundStep::Tone(Tone::NOTE_B4, 125), SoundStep::Pause(50), SoundStep::Tone(Tone::NOTE_A4, 500), SoundStep::Tone(Tone::NOTE_E5, 250), SoundStep::Pause(400), SoundStep::Tone(Tone::NOTE_F5, 250), SoundStep::Pause(400), SoundStep::Tone(Tone::NOTE_E5, 125), SoundStep::Tone(Tone::NOTE_E5, 125), SoundStep::Pause(50), SoundStep::Tone(Tone::NOTE_G5, 125), SoundStep::Pause(50), SoundStep::Tone(Tone::NOTE_E5, 125), SoundStep::Tone(Tone::NOTE_D5, 125), SoundStep::Pause(400), SoundStep::Tone(Tone::NOTE_D5, 250), SoundStep::Pause(400), SoundStep::Tone(Tone::NOTE_C5, 250), SoundStep::Pause(400), SoundStep::Tone(Tone::NOTE_B4, 125), SoundStep::Tone(Tone::NOTE_C5, 125), SoundStep::Pause(50), SoundStep::Tone(Tone::NOTE_B4, 125), SoundStep::Pause(50), SoundStep::Tone(Tone::NOTE_A4, 500)];
        assert(s@ =~= spec_piratescaribean_score());
        s
    }

    /// "Hedwig's Theme", note by note.
    pub fn harrypotter_score() -> (s: Vec<SoundStep>)
        ensures
            s@ == spec_harrypotter_score(),
    {
        let s = vec![SoundStep::Tone(Tone::NOTE_B4, 333), SoundStep::Tone(Tone::NOTE_E5, 500), SoundStep::Tone(Tone::NOTE_G5, 166), SoundStep::Tone(Tone::NOTE_FS5, 333), SoundStep::Tone(Tone::NOTE_E5, 666), SoundStep::Tone(Tone::NOTE_B5, 333), SoundStep::Tone(Tone::NOTE_A5, 1000), SoundStep::Tone(Tone::NOTE_FS5, 1000), SoundStep::Tone(Tone::NOTE_E5, 500), SoundStep::Tone(Tone::NOTE_G5, 166), SoundStep::Tone(Tone::NOTE_FS5, 333), SoundStep::Tone(Tone::NOTE_DS5, 666), SoundStep::Tone(Tone::NOTE_F5, 333), SoundStep::Tone(Tone::NOTE_B4, 1666), SoundStep::Tone(Tone::NOTE_B4, 333), SoundStep::Tone(Tone::NOTE_E5, 500), SoundStep::Tone(Tone::NOTE_G5, 166), SoundStep::Tone(Tone::NOTE_FS5, 333), SoundStep::Tone(Tone::NOTE_E5, 666), SoundStep::Tone(Tone::NOTE_B5, 333), SoundStep::Tone(Tone::NOTE_D6, 666), SoundStep::Tone(Tone::NOTE_CS6, 333), SoundStep::Tone(Tone::NOTE_C6, 666), SoundStep::Tone(Tone::NOTE_GS5, 333), SoundStep::Tone(Tone::NOTE_C6, 500), SoundStep::Tone(Tone::NOTE_B5, 166), SoundStep::Tone(Tone::NOTE_AS5, 333), SoundStep::Tone(Tone::NOTE_AS4, 666), SoundStep::Tone(Tone::NOTE_G5, 333), SoundStep::Tone(Tone::NOTE_E5, 1666), SoundStep::Tone(Tone::NOTE_G5, 333), SoundStep::Tone(Tone::NOTE_B5, 666), SoundStep::Tone(Tone::NOTE_G5, 333), SoundStep::Tone(Tone::NOTE_B5, 666), SoundStep::Tone(Tone::NOTE_G5, 333), SoundStep::Tone(Tone::NOTE_C6, 666), SoundStep::Tone(Tone::NOTE_B5, 333), SoundStep::Tone(Tone::NOTE_AS5, 666), SoundStep::Tone(Tone::NOTE_FS5, 333), SoundStep::Tone(Tone::NOTE_G5, 500), SoundStep::Tone(Tone::NOTE_B5, 166), SoundStep::Tone(Tone::NOTE_AS5, 333), SoundStep::Tone(Tone::NOTE_AS4, 666), SoundStep::Tone(Tone::NOTE_B4, 333), SoundStep::Tone(Tone::NOTE_B5, 1666), SoundStep::Tone(Tone::NOTE_G5, 333), SoundStep::Tone(Tone::NOTE_B5, 666), SoundStep::Tone(Tone::NOTE_G5, 333), SoundStep::Tone(Tone::NOTE_B5, 666), SoundStep::Tone(Tone::NOTE_G5, 333), SoundStep::Tone(Tone::NOTE_D6, 666), SoundStep::Tone(Tone::NOTE_CS6, 333), SoundStep::Tone(Tone::NOTE_C6, 666), SoundStep::Tone(Tone::NOTE_GS5, 333), SoundStep::Tone(Tone::NOTE_C6, 500), SoundStep::Tone(Tone::NOTE_B5, 166), SoundStep::Tone(Tone::NOTE_AS5, 333), SoundStep::Tone(Tone::NOTE_AS4, 666), SoundStep::Tone(Tone::NOTE_G5, 333), SoundStep::Tone(Tone::NOTE_E5, 1666)];
        assert(s@ =~= spec_harrypotter_score());
        s
    }

    /// The Super Mario theme, note by note.
    pub fn supermario_score() -> (s: Vec<SoundStep>)
        ensures
            s@ == spec_supermario_score(),
    {
        let s = vec![SoundStep::Tone(Tone::NOTE_E5, 200), SoundStep::Tone(Tone::NOTE_E5, 200), SoundStep::Tone(Tone::NOTE_E5, 200), SoundStep::Pause(200), SoundStep::Tone(Tone::NOTE_C5, 200), SoundStep::Tone(Tone::NOTE_E5, 200), SoundStep::Pause(200), SoundStep::Tone(Tone::NOTE_G5, 200), SoundStep::Pause(680), SoundStep::Tone(Tone::NOTE_G4, 200), SoundStep::Pause(680), SoundStep::Tone(Tone::NOTE_C5, 200), SoundStep::Pause(440), SoundStep::Tone(Tone::NOTE_G4, 200), SoundStep::Pause(440), SoundStep::Tone(Tone::NOTE_E4, 200), SoundStep::Pause(440), SoundStep::Tone(Tone::NOTE_A4, 200), SoundStep::Pause(200), SoundStep::Tone(Tone::NOTE_B4, 200), SoundStep::Pause(200), SoundStep::Tone(Tone::NOTE_AS4, 200), SoundStep::Tone(Tone::NOTE_A4, 200), SoundStep::Pause(200), SoundStep::Tone(Tone::NOTE_G4, 140), SoundStep::Tone(Tone::NOTE_E5, 140), SoundStep::Tone(Tone::NOTE_G5, 140), SoundStep::Tone(Tone::NOTE_A5, 200), SoundStep::Pause(200), SoundStep::Tone(Tone::NOTE_F5, 200), SoundStep::Tone(Tone::NOTE_G5, 200), SoundStep::Pause(200), SoundStep::Tone(Tone::NOTE_E5, 200), SoundStep::Pause(200), SoundStep::Tone(Tone::NOTE_C5, 200), SoundStep::Tone(Tone::NOTE_D5, 200), SoundStep::Tone(Tone::NOTE_B4, 200), SoundStep::Pause(440), SoundStep::Tone(Tone::NOTE_C5, 200), SoundStep::Pause(440), SoundStep::Tone(Tone::NOTE_G4, 200), SoundStep::Pause(440), SoundStep::Tone(Tone::NOTE_E4, 140), SoundStep::Pause(440), SoundStep::Tone(Tone::NOTE_A4, 200), SoundStep::Pause(200), SoundStep::Tone(Tone::NOTE_B4, 200), SoundStep::Pause(200), SoundStep::Tone(Tone::NOTE_AS4, 200), SoundStep::Tone(Tone::NOTE_A4, 200), SoundStep::Pause(200), SoundStep::Tone(Tone::NOTE_G4, 140), SoundStep::Tone(Tone::NOTE_E5, 140), SoundStep::Tone(Tone::NOTE_G5, 140), SoundStep::Tone(Tone::NOTE_A5, 200), SoundStep::Pause(200), SoundStep::Tone(Tone::NOTE_F5, 200), SoundStep::Tone(Tone::NOTE_G5, 200), SoundStep::Pause(200), SoundStep::Tone(Tone::NOTE_E5, 200), SoundStep::Pause(200), SoundStep::Tone(Tone::NOTE_C5, 200), SoundStep::Tone(Tone::NOTE_D5, 200), SoundStep::Tone(Tone::NOTE_B4, 200), SoundStep::Pause(440)];
        assert(s@ =~= spec_supermario_score());
        s
    }

    /// The first part of the Imperial March, note by note.
    pub fn starwars_first_session() -> (s: Vec<SoundStep>)
        ensures
            s@ == spec_starwars_first_session(),
    {
        let s = vec![SoundStep::Tone(Tone::NOTE_A4, 500), SoundStep::Tone(Tone::NOTE_A4, 500), SoundStep::Tone(Tone::NOTE_A4, 500), SoundStep::Tone(Tone::NOTE_F4, 350), SoundStep::Tone(Tone::NOTE_C5, 150), SoundStep::Tone(Tone::NOTE_A4, 500), SoundStep::Tone(Tone::NOTE_F4, 350), SoundStep::Tone(Tone::NOTE_C5, 150), SoundStep::Tone(Tone::NOTE_A4, 650), SoundStep::Pause(500), SoundStep::Tone(Tone::NOTE_E5, 500), SoundStep::Tone(Tone::NOTE_E5, 500), SoundStep::Tone(Tone::NOTE_E5, 500), SoundStep::Tone(Tone::NOTE_F5, 350), SoundStep::Tone(Tone::NOTE_C5, 150), SoundStep::Tone(Tone::NOTE_GS4, 500), SoundStep::Tone(Tone::NOTE_F4, 350), SoundStep::Tone(Tone::NOTE_C5, 150), SoundStep::Tone(Tone::NOTE_A4, 650), SoundStep::Pause(500)];
        assert(s@ =~= spec_starwars_first_session());
        s
    }

    /// The second part of the Imperial March, note by note.
    pub fn starwars_second_session() -> (s: Vec<SoundStep>)
        ensures
            s@ == spec_starwars_second_session(),
    {
        let s = vec![SoundStep::Tone(Tone::NOTE_A5, 500), SoundStep::Tone(Tone::NOTE_A4, 300), SoundStep::Tone(Tone::NOTE_A4, 150), SoundStep::Tone(Tone::NOTE_A5, 500), SoundStep::Tone(Tone::NOTE_GS5, 325), SoundStep::Tone(Tone::NOTE_G5, 175), SoundStep::Tone(Tone::NOTE_FS5, 125), SoundStep::Tone(Tone::NOTE_F5, 125), SoundStep::Tone(Tone::NOTE_FS5, 250), SoundStep::Pause(325), SoundStep::Tone(Tone::NOTE_AS4, 250), SoundStep::Tone(Tone::NOTE_DS5, 500), SoundStep::Tone(Tone::NOTE_D5, 325), SoundStep::Tone(Tone::NOTE_CS5, 175), SoundStep::Tone(Tone::NOTE_C5, 125), SoundStep::Tone(Tone::NOTE_B4, 125), SoundStep::Tone(Tone::NOTE_C5, 250), SoundStep::Pause(350)];
        assert(s@ =~= spec_starwars_second_session());
        s
    }

    /// The first variation of the Imperial March, note by note.
    pub fn starwars_variant1() -> (s: Vec<SoundStep>)
        ensures
            s@ == spec_starwars_variant1(),
    {
        let s = vec![SoundStep::Tone(Tone::NOTE_F4, 250), SoundStep::Tone(Tone::NOTE_GS4, 500), SoundStep::Tone(Tone::NOTE_F4, 350), SoundStep::Tone(Tone::NOTE_A4, 125), SoundStep::Tone(Tone::NOTE_C5, 500), SoundStep::Tone(Tone::NOTE_A4, 375), SoundStep::Tone(Tone::NOTE_C5, 125), SoundStep::Tone(Tone::NOTE_E5, 650), SoundStep::Pause(500)];
        assert(s@ =~= spec_starwars_variant1());
        s
    }

    /// The second variation of the Imperial March, note by note.
    pub fn starwars_variant2() -> (s: Vec<SoundStep>)
        ensures
            s@ == spec_starwars_variant2(),
    {
        let s = vec![SoundStep::Tone(Tone::NOTE_F4, 250), SoundStep::Tone(Tone::NOTE_GS4, 500), SoundStep::Tone(Tone::NOTE_F4, 375), SoundStep::Tone(Tone::NOTE_C5, 125), SoundStep::Tone(Tone::NOTE_A4, 500), SoundStep::Tone(Tone::NOTE_F4, 375), SoundStep::Tone(Tone::NOTE_C5, 125), SoundStep::Tone(Tone::NOTE_A4, 650), SoundStep::Pause(650)];
        assert(s@ =~= spec_starwars_variant2());
        s
    }

    /// "Do-Re-Mi-Fa", note by note.
    pub fn doremifa_score() -> (s: Vec<SoundStep>)
        ensures
            s@ == spec_doremifa_score(),
    {
        let s = vec![SoundStep::Tone(Tone::NOTE_C4, 600), SoundStep::Tone(Tone::NOTE_D4, 600), SoundStep::Tone(Tone::NOTE_E4, 600), SoundStep::Tone(Tone::NOTE_F4, 600), SoundStep::Pause(100), SoundStep::Tone(Tone::NOTE_F4, 400), SoundStep::Pause(100), SoundStep::Tone(Tone::NOTE_F4, 400), SoundStep::Tone(Tone::NOTE_C4, 600), SoundStep::Tone(Tone::NOTE_D4, 600), SoundStep::Tone(Tone::NOTE_C4, 600), SoundStep::Tone(Tone::NOTE_D4, 600), SoundStep::Pause(100), SoundStep::Tone(Tone::NOTE_D4, 400), SoundStep::Pause(100), SoundStep::Tone(Tone::NOTE_D4, 400), SoundStep::Tone(Tone::NOTE_C4, 600), SoundStep::Tone(Tone::NOTE_G4, 600), SoundStep::Tone(Tone::NOTE_F4, 600), SoundStep::Tone(Tone::NOTE_E4, 600), SoundStep::Pause(100), SoundStep::Tone(Tone::NOTE_E4, 400), SoundStep::Pause(100), SoundStep::Tone(Tone::NOTE_E4, 400), SoundStep::Tone(Tone::NOTE_C4, 600), SoundStep::Tone(Tone::NOTE_D4, 600), SoundStep::Tone(Tone::NOTE_E4, 600), SoundStep::Tone(Tone::NOTE_F4, 600), SoundStep::Pause(100), SoundStep::Tone(Tone::NOTE_F4, 400), SoundStep::Pause(100), SoundStep::Tone(Tone::NOTE_F4, 400)];
        assert(s@ =~= spec_doremifa_score());
        s
    }

    /// The Imperial March, note by note: first part, second part, first
    /// variation, second part, second variation.
    pub fn starwars_score() -> (s: Vec<SoundStep>)
        ensures
            s@ == spec_starwars_first_session() + spec_starwars_second_session()
                + spec_starwars_variant1() + spec_starwars_second_session() + spec_starwars_variant2(),
    {
        let mut s: Vec<SoundStep> = Vec::new();
        extend_from(&mut s, &Sounds::starwars_first_session());
        extend_from(&mut s, &Sounds::starwars_second_session());
        extend_from(&mut s, &Sounds::starwars_variant1());
        extend_from(&mut s, &Sounds::starwars_second_session());
        extend_from(&mut s, &Sounds::starwars_variant2());
        s
    }
}

} // verus!
