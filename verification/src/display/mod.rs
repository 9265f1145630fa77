//! Displays: which animation to show, in which color.
use vstd::prelude::*;
use crate::text::str_is;

pub mod neopixel;

verus! {

/// What an animation tells the user.
#[derive(Debug, Clone, Copy, PartialEq, Eq, Structural)]
pub enum AnimationType {
    Waiting,
    Error,
    Success,
}

/// The animations a display can show.
#[derive(Debug, Clone, Copy, PartialEq, Eq, Structural)]
pub enum Animation {
    NoAnimation,
    MaterialSpinner,
    BlinkLoop,
    Blink,
    Wipe,
}

/// The colors of the animations.
#[derive(Debug, Clone, Copy, PartialEq, Eq, Structural)]
pub enum AnimationColor {
    Orange,
    Red,
    Green,
    Blue,
}

impl AnimationColor {
    /// The color as 0xRRGGBB.
    pub open spec fn rgb(self) -> u32 {
        match self {
            AnimationColor::Orange => 0xFF8000,
            AnimationColor::Red => 0xFF0000,
            AnimationColor::Green => 0x00FF00,
            AnimationColor::Blue => 0x0000FF,
        }
    }

    pub fn value(&self) -> (v: u32)
        ensures
            v == self.rgb(),
    {
        match self {
            AnimationColor::Orange => 0xFF8000,
            AnimationColor::Red => 0xFF0000,
            AnimationColor::Green => 0x00FF00,
            AnimationColor::Blue => 0x0000FF,
        }
    }

    /// The red, green and blue bytes of the color.
    pub fn components(&self) -> (r: (u8, u8, u8))
        ensures
            r.0 == self.rgb() / 65536,
            r.1 == (self.rgb() / 256) % 256,
            r.2 == self.rgb() % 256,
    {
        let v = self.value();
        let red = ((v >> 16) & 0xFF) as u8;
        let green = ((v >> 8) & 0xFF) as u8;
        let blue = (v & 0xFF) as u8;
        assert(((v >> 16) & 0xFF) == v / 65536 && ((v >> 8) & 0xFF) == (v / 256) % 256 && (v & 0xFF)
            == v % 256) by (bit_vector)
            requires
                v <= 0xFFFFFF,
        ;
        (red, green, blue)
    }
}

/// The colors are what their names say, as red, green and blue bytes:
/// red is full exactly in red and orange, green is full exactly in green and
/// half in orange, blue is full exactly in blue, and every other byte is 0.
/// So red is (255, 0, 0), green (0, 255, 0), orange (255, 128, 0) and blue
/// (0, 0, 255), and no two colors are the same.
pub proof fn lemma_colors_are_their_names(c: AnimationColor, d: AnimationColor)
    ensures
        ({
            let r = c.rgb() / 65536;
            let g = (c.rgb() / 256) % 256;
            let b = c.rgb() % 256;
            &&& c.rgb() <= 0xFFFFFF
            &&& (r == 255 <==> (c == AnimationColor::Red || c == AnimationColor::Orange))
            &&& (r != 255 ==> r == 0)
            &&& (g == 255 <==> c == AnimationColor::Green)
            &&& (g == 128 <==> c == AnimationColor::Orange)
            &&& (g != 255 && g != 128 ==> g == 0)
            &&& (b == 255 <==> c == AnimationColor::Blue)
            &&& (b != 255 ==> b == 0)
        }),
        c.rgb() == d.rgb() ==> c == d,
{
}

/// The display drivers that can be chosen by name.
#[derive(Debug, Clone, Copy, PartialEq, Eq, Structural)]
pub enum DisplayKind {
    NeoPixel,
}

impl DisplayKind {
    /// The name the driver of this kind reports.
    pub open spec fn spec_signature(self) -> Seq<char> {
        match self {
            DisplayKind::NeoPixel => "NeoPixel display module"@,
        }
    }

    /// The name the driver of this kind reports (see `spec_signature`).
    pub fn signature(&self) -> (s: String)
        ensures
            s@ == self.spec_signature(),
    {
        match self {
            DisplayKind::NeoPixel => "NeoPixel display module".to_owned(),
        }
    }
}

/// The display driver called `name` ("neopixel"), if any.
pub fn display_by_name(name: &str) -> (r: Option<DisplayKind>)
    ensures
        name@ == "neopixel"@ ==> r == Some(DisplayKind::NeoPixel),
        name@ != "neopixel"@ ==> r is None,
        r matches Some(k) ==> k.spec_signature() == "NeoPixel display module"@,
{
    if str_is(name, "neopixel") {
        Some(DisplayKind::NeoPixel)
    } else {
        None
    }
}

/// A display driver: shows animations until they end or are dismissed.
pub trait Display {
    fn init(&mut self) -> Result<(), String>;
    fn show_animation(
        &mut self,
        animation: Animation,
        color: AnimationColor,
        animation_type: AnimationType,
        message: &str,
        dismiss: u64,
    ) -> Result<(), String>;
    fn wait_animation_ends(&mut self) -> Result<(), String>;
    fn clear_and_stop_animations(&mut self) -> Result<(), String>;
    fn unload(&mut self) -> Result<(), String>;
    fn signature(&self) -> String;
}

} // verus!
