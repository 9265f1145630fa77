//! NeoPixel ring: the animations, one frame at a time, and when they end.
use vstd::prelude::*;
use crate::display::{Animation, AnimationColor};

verus! {

/// One LED and its color, as the kernel driver takes it.
#[derive(Debug, Clone, Copy, PartialEq, Eq, Structural)]
pub struct Pixel {
    pub pixel: i32,
    pub red: u8,
    pub green: u8,
    pub blue: u8,
}

/// The message that stops a running animation.
#[derive(Debug, Clone, Copy, PartialEq, Eq, Structural)]
pub enum NeoPixelThreadCommand {
    Stop,
}

/// The way a wipe runs round the ring.
#[derive(Debug, Clone, Copy, PartialEq, Eq, Structural)]
pub enum NeoPixelAnimationDirection {
    Normal,
    Backwards,
}

/// A wipe: lights the LEDs one by one, then, once `dismiss` seconds have
/// passed, turns them off one by one backwards.
pub struct NeoPixelWipeAnimation {
    pub direction: NeoPixelAnimationDirection,
    pub current_pixel: i32,
    pub dismiss: u64,
    pub red: u8,
    pub green: u8,
    pub blue: u8,
}

/// A spinner: an arc of lit LEDs that turns while it grows and shrinks.
pub struct NeoPixelSpinnerAnimation {
    pub current_pixel: i32,
    pub interaction: i32,
    pub size: i32,
    pub size_direction: i32,
    pub red: u8,
    pub green: u8,
    pub blue: u8,
}

/// A blink: all LEDs on and off, `repeat` half-periods left, or forever.
pub struct NeoPixelBlinkAnimation {
    pub repeat: i32,
    pub infinity: bool,
    pub red: u8,
    pub green: u8,
    pub blue: u8,
}

/// What one frame of an animation does: the LEDs it sets, whether it shows
/// them, and whether the animation goes on.
pub struct AnimationFrame {
    pub pixels: Vec<Pixel>,
    pub show: bool,
    pub next: bool,
}

impl NeoPixelWipeAnimation {
    /// A wipe in the given color that turns back after `dismiss` seconds.
    pub fn new(red: u8, green: u8, blue: u8, dismiss: u64) -> (a: Self)
        ensures
            a.direction == NeoPixelAnimationDirection::Normal,
            a.current_pixel == 0,
            a.dismiss == dismiss,
            a.red == red && a.green == green && a.blue == blue,
    {
        NeoPixelWipeAnimation {
            direction: NeoPixelAnimationDirection::Normal,
            dismiss: dismiss,
            current_pixel: 0,
            red: red,
            green: green,
            blue: blue,
        }
    }
}

impl NeoPixelSpinnerAnimation {
    /// A spinner in the given color: an arc of two LEDs from LED 0.
    pub fn new(red: u8, green: u8, blue: u8) -> (a: Self)
        ensures
            a.current_pixel == 0 && a.interaction == 0 && a.size_direction == 0 && a.size == 2,
            a.red == red && a.green == green && a.blue == blue,
    {
        NeoPixelSpinnerAnimation {
            current_pixel: 0,
            interaction: 0,
            size_direction: 0,
            size: 2,
            red: red,
            green: green,
            blue: blue,
        }
    }
}

impl NeoPixelBlinkAnimation {
    /// A blink in the given color, `repeat` times (two half-periods each);
    /// no blink for a count of zero or less.
    pub fn new(red: u8, green: u8, blue: u8, repeat: i32) -> (a: Self)
        requires
            repeat <= i32::MAX / 2,
        ensures
            a.repeat == if repeat <= 0 { 0 } else { repeat * 2 },
            !a.infinity,
            a.red == red && a.green == green && a.blue == blue,
    {
        NeoPixelBlinkAnimation {
            repeat: if repeat <= 0 { 0 } else { repeat * 2 },
            red: red,
            green: green,
            blue: blue,
            infinity: false,
        }
    }

    /// A blink in the given color that never ends by itself.
    pub fn new_loop(red: u8, green: u8, blue: u8) -> (a: Self)
        ensures
            a.repeat == 0,
            a.infinity,
            a.red == red && a.green == green && a.blue == blue,
    {
        NeoPixelBlinkAnimation { repeat: 0, red: red, green: green, blue: blue, infinity: true }
    }
}

/// A pixel set to a color.
pub open spec fn px(pixel: int, red: u8, green: u8, blue: u8) -> Pixel {
    Pixel { pixel: pixel as i32, red, green, blue }
}

/// A pixel index brought back once round a ring of `n` LEDs.
pub open spec fn wrap(i: int, n: int) -> int {
    if i >= n {
        i - n
    } else {
        i
    }
}

/// The LEDs one blink frame sets: all of them, in the color on odd counts
/// and off on even ones.
pub open spec fn blink_pixels(a: NeoPixelBlinkAnimation, n: int) -> Seq<Pixel> {
    Seq::new(
        if n > 0 { n as nat } else { 0 },
        |p: int|
            if a.repeat % 2 != 0 {
                px(p, a.red, a.green, a.blue)
            } else {
                px(p, 0, 0, 0)
            },
    )
}

/// One frame of a blink on a ring of `num_leds` LEDs (none when the count is
/// unknown): set all LEDs, show them, count one half-period down. The blink
/// goes on while the count is not negative, or forever.
pub fn blink_step(info: &mut NeoPixelBlinkAnimation, num_leds: Option<i32>) -> (f: AnimationFrame)
    requires
        num_leds is Some ==> old(info).repeat > i32::MIN,
    ensures
        final(info).infinity == old(info).infinity,
        final(info).red == old(info).red && final(info).green == old(info).green && final(info).blue
            == old(info).blue,
        num_leds matches Some(n) ==> f.pixels@ == blink_pixels(*old(info), n as int) && f.show
            && final(info).repeat == old(info).repeat - 1,
        num_leds is None ==> f.pixels@.len() == 0 && !f.show && final(info).repeat == old(info).repeat,
        f.next == (final(info).repeat >= 0 || final(info).infinity),
{
    let mut pixels: Vec<Pixel> = Vec::new();
    let mut show = false;
    if let Some(num_leds) = num_leds {
        let mut pixel: i32 = 0;
        while pixel < num_leds
            invariant
                0 <= pixel,
                pixel <= num_leds || num_leds < 0,
                num_leds < 0 ==> pixel == 0,
                pixels@ == blink_pixels(*info, num_leds as int).take(pixel as int),
            decreases num_leds - pixel,
        {
            let pixel_info: Pixel;
            if info.repeat % 2 != 0 {
                pixel_info = Pixel { pixel: pixel, red: info.red, green: info.green, blue: info.blue };
            } else {
                pixel_info = Pixel { pixel: pixel, red: 0, green: 0, blue: 0 };
            }
            pixels.push(pixel_info);
            pixel = pixel + 1;
            assert(pixels@ =~= blink_pixels(*info, num_leds as int).take(pixel as int));
        }
        assert(pixels@ =~= blink_pixels(*info, num_leds as int));
        show = true;
        info.repeat -= 1;
    }
    let next = info.repeat >= 0 || info.infinity == true;
    AnimationFrame { pixels, show, next }
}

/// The states a spinner on a ring of `n` LEDs stays in: a position on the
/// ring, an arc of two LEDs up to four short of the ring, a growth direction.
pub open spec fn spinner_wf(a: NeoPixelSpinnerAnimation, n: int) -> bool {
    &&& 3 <= n <= 0x3fff_ffff
    &&& 0 <= a.current_pixel < n
    &&& 2 <= a.size
    &&& (a.size <= n - 4 || a.size == 2)
    &&& (a.size_direction == 0 || a.size_direction == 1)
    &&& 0 <= a.interaction
}

/// The position, arc size and growth direction after one spinner frame:
/// the arc moves one LED every third frame; it grows up to four LEDs short
/// of the ring, then shrinks back to two, moving one LED with each shrink.
pub open spec fn spinner_next(a: NeoPixelSpinnerAnimation, n: int) -> (int, int, int) {
    let c1 = if a.interaction % 3 == 0 {
        a.current_pixel + 1
    } else {
        a.current_pixel as int
    };
    let (size, dir, c2) = if a.size < n - 4 && a.size_direction == 0 {
        (a.size + 1, 0int, c1)
    } else if a.size >= n - 4 && a.size_direction == 0 {
        (a.size as int, 1int, c1)
    } else if a.size > 2 && a.size_direction == 1 {
        (a.size - 1, 1int, c1 + 1)
    } else {
        (a.size as int, 0int, c1)
    };
    (wrap(c2, n), size, dir)
}

/// The LEDs a spinner frame sets, with the new position `c` and arc size
/// `size`: the arc of `size` LEDs from `c` on, in the color, then the rest of
/// the ring off, going on round from the end of the arc (whose index is not
/// brought back onto the ring).
pub open spec fn spinner_pixels(c: int, size: int, n: int, red: u8, green: u8, blue: u8) -> Seq<Pixel> {
    Seq::new(size as nat, |t: int| px(wrap(c + t, n), red, green, blue)) + Seq::new(
        (n - size) as nat,
        |t: int|
            if t == 0 {
                px(c + size, 0, 0, 0)
            } else {
                px(wrap(c + size + t, n), 0, 0, 0)
            },
    )
}

/// One frame of a spinner on a ring of `num_leds` LEDs (nothing when the
/// count is unknown): move and resize the arc, set the LEDs, show them.
/// A spinner goes on until stopped.
pub fn spinner_step(info: &mut NeoPixelSpinnerAnimation, num_leds: Option<i32>) -> (f: AnimationFrame)
    requires
        num_leds matches Some(n) ==> spinner_wf(*old(info), n as int) && old(info).interaction
            < i32::MAX,
    ensures
        final(info).red == old(info).red && final(info).green == old(info).green && final(info).blue
            == old(info).blue,
        num_leds matches Some(n) ==> ({
            let (c, size, dir) = spinner_next(*old(info), n as int);
            &&& final(info).current_pixel == c
            &&& final(info).size == size
            &&& final(info).size_direction == dir
            &&& final(info).interaction == old(info).interaction + 1
            &&& f.pixels@ == spinner_pixels(c, size, n as int, old(info).red, old(info).green, old(info).blue)
            &&& f.show
            &&& spinner_wf(*final(info), n as int)
        }),
        num_leds is None ==> f.pixels@.len() == 0 && !f.show && final(info).current_pixel == old(
            info,
        ).current_pixel && final(info).size == old(info).size && final(info).size_direction == old(
            info,
        ).size_direction && final(info).interaction == old(info).interaction,
        f.next,
{
    let mut pixels: Vec<Pixel> = Vec::new();
    let mut show = false;
    if let Some(num_leds) = num_leds {
        let ghost old_info = *info;
        let ghost n = num_leds as int;
        if info.interaction % 3 == 0 {
            info.current_pixel += 1;
        }
        if info.size < num_leds - 4 && info.size_direction == 0 {
            info.size += 1;
        } else if info.size >= num_leds - 4 && info.size_direction == 0 {
            info.size_direction = 1;
        } else if info.size > 2 && info.size_direction == 1 {
            info.size -= 1;
            info.current_pixel += 1;
        } else {
            info.size_direction = 0;
        }
        if info.current_pixel >= num_leds {
            info.current_pixel -= num_leds;
        }
        info.interaction += 1;
        let c = info.current_pixel;
        let size = info.size;
        let ghost want = spinner_pixels(c as int, size as int, n, info.red, info.green, info.blue);
        let mut i: i32 = c;
        while i < c + size
            invariant
                0 <= c < num_leds,
                2 <= size < num_leds,
                num_leds <= 0x3fff_ffff,
                n == num_leds,
                c <= i <= c + size,
                want == spinner_pixels(c as int, size as int, n, info.red, info.green, info.blue),
                pixels@ == want.take(i - c),
            decreases c + size - i,
        {
            let mut pixel = i;
            if pixel >= num_leds {
                pixel -= num_leds;
            }
            pixels.push(Pixel { pixel: pixel, red: info.red, green: info.green, blue: info.blue });
            i = i + 1;
            assert(pixels@ =~= want.take(i - c));
        }
        let mut pixel: i32 = c + size;
        let ghost mut k: int = 0;
        while pixel != c
            invariant
                0 <= c < num_leds,
                2 <= size < num_leds,
                num_leds <= 0x3fff_ffff,
                n == num_leds,
                0 <= k <= n - size,
                k == 0 ==> pixel == c + size,
                k > 0 ==> pixel == wrap(c + size + k, n),
                k == n - size ==> pixel == c,
                want == spinner_pixels(c as int, size as int, n, info.red, info.green, info.blue),
                pixels@ == want.take(size + k),
            decreases n - size - k,
        {
            assert(k < n - size);
            pixels.push(Pixel { pixel: pixel, red: 0, green: 0, blue: 0 });
            pixel += 1;
            if pixel >= num_leds {
                pixel -= num_leds;
            }
            proof {
                k = k + 1;
            }
            assert(pixels@ =~= want.take(size + k));
        }
        assert(pixels@ =~= want);
        show = true;
    }
    AnimationFrame { pixels, show, next: true }
}

/// One frame of a wipe on a ring of `num_leds` LEDs, `elapsed` seconds after
/// it started: light (or, backwards, turn off) the current LED and step on;
/// once all LEDs are lit and `dismiss` seconds have passed, turn back from
/// the last LED with the color off. A wipe ends when it has gone back past LED 0.
pub fn wipe_step(info: &mut NeoPixelWipeAnimation, num_leds: i32, elapsed: u64) -> (f: AnimationFrame)
    requires
        num_leds > i32::MIN,
    ensures
        final(info).dismiss == old(info).dismiss,
        ({
            let a = *old(info);
            let lit = 0 <= a.current_pixel < num_leds;
            let c1: int = if !lit {
                a.current_pixel as int
            } else if a.direction == NeoPixelAnimationDirection::Normal {
                a.current_pixel + 1
            } else {
                a.current_pixel - 1
            };
            let turn = a.direction == NeoPixelAnimationDirection::Normal && c1 >= num_leds && elapsed
                > a.dismiss;
            &&& f.pixels@ == if lit {
                seq![px(a.current_pixel as int, a.red, a.green, a.blue)]
            } else {
                Seq::<Pixel>::empty()
            }
            &&& f.show == lit
            &&& turn ==> final(info).direction == NeoPixelAnimationDirection::Backwards
                && final(info).current_pixel == num_leds - 1 && final(info).red == 0
                && final(info).green == 0 && final(info).blue == 0 && f.next
            &&& !turn ==> final(info).direction == a.direction && final(info).current_pixel == c1
                && final(info).red == a.red && final(info).green == a.green && final(info).blue
                == a.blue && f.next == !(a.direction == NeoPixelAnimationDirection::Backwards && c1
                < 0)
        }),
{
    let mut pixels: Vec<Pixel> = Vec::new();
    let mut show = false;
    if info.current_pixel >= 0 && info.current_pixel < num_leds {
        pixels.push(
            Pixel { pixel: info.current_pixel, red: info.red, green: info.green, blue: info.blue },
        );
        show = true;
        if info.direction == NeoPixelAnimationDirection::Normal {
            info.current_pixel += 1;
        } else {
            info.current_pixel -= 1;
        }
    }
    if info.direction == NeoPixelAnimationDirection::Normal && info.current_pixel >= num_leds
        && elapsed > info.dismiss {
        info.direction = NeoPixelAnimationDirection::Backwards;
        info.current_pixel = num_leds - 1;
        info.red = 0;
        info.green = 0;
        info.blue = 0;
    } else if info.direction == NeoPixelAnimationDirection::Backwards && info.current_pixel < 0 {
        return AnimationFrame { pixels, show, next: false };
    }
    AnimationFrame { pixels, show, next: true }
}

/// How long a spinner waits before its next frame, `elapsed` seconds after it
/// started: 100 ms, or the end (-1) once `dismiss` seconds have passed (a
/// `dismiss` of 0 never ends it).
pub fn spinner_timing(dismiss: u64, elapsed: u64) -> (r: i64)
    ensures
        r == if elapsed > dismiss && dismiss > 0 { -1int } else { 100 },
{
    if elapsed > dismiss && dismiss > 0 {
        return -1;
    }
    100
}

/// How long a wipe waits before its next frame: 100 ms.
pub fn wipe_timing() -> (r: i64)
    ensures
        r == 100,
{
    100
}

/// How long a counted blink waits before its next frame: 500 ms.
pub fn blink_timing() -> (r: i64)
    ensures
        r == 500,
{
    500
}

/// How long an endless blink waits before its next frame: 500 ms, or the end
/// (-1) once `dismiss` seconds have passed and the LEDs were just turned off.
pub fn blink_loop_timing(dismiss: u64, elapsed: u64, repeat: i32) -> (r: i64)
    ensures
        r == if dismiss > 0 && elapsed > dismiss && repeat % 2 != 0 { -1int } else { 500 },
{
    if dismiss > 0 && elapsed > dismiss && repeat % 2 != 0 {
        return -1;
    }
    500
}

/// What an animation does after a frame.
#[derive(Debug, PartialEq, Eq)]
pub enum TickOutcome {
    /// Wait this many milliseconds, then draw the next frame.
    Continue(u64),
    /// Clear the LEDs and end.
    Finish,
    /// Clear the LEDs and end with this error.
    Fail(String),
}

/// What an animation does after a frame whose step said `step_next`, when a
/// stop was requested or not, given what the timing function said: it ends
/// when the step or the stop says so or the timing is negative, and fails
/// with the timing function's error.
pub fn animation_tick(step_next: bool, stop_requested: bool, timing: Result<i64, String>) -> (r: TickOutcome)
    ensures
        timing matches Err(e) ==> r == TickOutcome::Fail(e),
        timing matches Ok(t) ==> (if step_next && !stop_requested && t >= 0 {
            r == TickOutcome::Continue(t as u64)
        } else {
            r == TickOutcome::Finish
        }),
{
    let mut next = true;
    if !step_next {
        next = false;
    }
    if stop_requested {
        next = false;
    }
    let mut wait: u64 = 0;
    match timing {
        Ok(t) => {
            if t >= 0 {
                wait = t as u64;
            } else {
                next = false;
            }
        },
        Err(e) => {
            return TickOutcome::Fail(e);
        },
    }
    if next == false {
        return TickOutcome::Finish;
    }
    TickOutcome::Continue(wait)
}

/// An animation ready to run, with what decides its timing.
pub enum AnimationPlan {
    /// A spinner that ends after `dismiss` seconds (0: never).
    Spinner(NeoPixelSpinnerAnimation, u64),
    /// A wipe.
    Wipe(NeoPixelWipeAnimation),
    /// A counted blink.
    Blink(NeoPixelBlinkAnimation),
    /// An endless blink that ends after `dismiss` seconds (0: never).
    BlinkLoop(NeoPixelBlinkAnimation, u64),
}

/// The animation `animation` in `color` with `dismiss` (seconds, or a blink
/// count for Blink); no animation is refused with "Invalid animation".
pub fn plan_animation(animation: Animation, color: AnimationColor, dismiss: u64) -> (r: Result<AnimationPlan, String>)
    requires
        animation == Animation::Blink ==> (dismiss as i32) <= i32::MAX / 2,
    ensures
        animation == Animation::NoAnimation <==> r is Err,
        ({
            let red = (color.rgb() / 65536) as u8;
            let green = ((color.rgb() / 256) % 256) as u8;
            let blue = (color.rgb() % 256) as u8;
            match r {
                Ok(AnimationPlan::Spinner(a, d)) => animation == Animation::MaterialSpinner && d
                    == dismiss && a.current_pixel == 0 && a.interaction == 0 && a.size == 2
                    && a.size_direction == 0 && a.red == red && a.green == green && a.blue == blue,
                Ok(AnimationPlan::Wipe(a)) => animation == Animation::Wipe && a.direction
                    == NeoPixelAnimationDirection::Normal && a.current_pixel == 0 && a.dismiss
                    == dismiss && a.red == red && a.green == green && a.blue == blue,
                Ok(AnimationPlan::Blink(a)) => animation == Animation::Blink && a.repeat == (if (
                dismiss as i32) <= 0 {
                    0
                } else {
                    (dismiss as i32) * 2
                }) && !a.infinity && a.red == red && a.green == green && a.blue == blue,
                Ok(AnimationPlan::BlinkLoop(a, d)) => animation == Animation::BlinkLoop && d
                    == dismiss && a.repeat == 0 && a.infinity && a.red == red && a.green == green
                    && a.blue == blue,
                Err(e) => e@ == "Invalid animation"@,
            }
        }),
{
    let (red, green, blue) = color.components();
    match animation {
        Animation::MaterialSpinner => Ok(
            AnimationPlan::Spinner(NeoPixelSpinnerAnimation::new(red, green, blue), dismiss),
        ),
        Animation::Wipe => Ok(
            AnimationPlan::Wipe(NeoPixelWipeAnimation::new(red, green, blue, dismiss)),
        ),
        Animation::Blink => Ok(
            AnimationPlan::Blink(NeoPixelBlinkAnimation::new(red, green, blue, dismiss as i32)),
        ),
        Animation::BlinkLoop => Ok(
            AnimationPlan::BlinkLoop(NeoPixelBlinkAnimation::new_loop(red, green, blue), dismiss),
        ),
        _ => Err("Invalid animation".to_owned()),
    }
}

/// The animation that tests the LEDs at start-up: a blue spinner for five seconds.
pub fn test_hardware_plan() -> (r: AnimationPlan)
    ensures
        r matches AnimationPlan::Spinner(a, d) && d == 5 && a.current_pixel == 0 && a.size == 2
            && a.red == 0 && a.green == 0 && a.blue == 255,
{
    AnimationPlan::Spinner(NeoPixelSpinnerAnimation::new(0, 0, 255), 5)
}

} // verus!
