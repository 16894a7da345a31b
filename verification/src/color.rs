//! RGBA colors with straight-alpha byte channels.
//!
//! Interpolation weights are fixed-point milli-units (`0` = fully the
//! first color, `1000` = fully the second), matching the animation
//! subsystem's scalar scale.

use vstd::prelude::*;

verus! {

/// One interpolation unit: weights run from `0` to `MILLI`.
pub const MILLI: i64 = 1000;

/// An RGBA color; `a` is straight alpha, `255` meaning opaque.
#[derive(Clone, Copy, Debug, PartialEq, Eq, Structural)]
pub struct Color {
    pub r: u8,
    pub g: u8,
    pub b: u8,
    pub a: u8,
}

/// One channel interpolated `t` milli-units of the way from `a` to `b`:
/// the scaled difference is divided out before being applied, so the
/// result always lies between the two endpoint channels.
pub open spec fn spec_lerp_channel(a: u8, b: u8, t: i64) -> u8 {
    if b >= a {
        (a + (b - a) * t / (MILLI as int)) as u8
    } else {
        (a - (a - b) * t / (MILLI as int)) as u8
    }
}

fn lerp_channel(a: u8, b: u8, t: i64) -> (r: u8)
    requires
        0 <= t <= MILLI,
    ensures
        r == spec_lerp_channel(a, b, t),
{
    if b >= a {
        let diff: u64 = (b - a) as u64;
        assert(diff * t <= 255000 && diff * t / 1000 <= diff) by (nonlinear_arith)
            requires
                0 <= t <= 1000 && 0 <= diff <= 255,
        ;
        let step: u64 = diff * t as u64 / MILLI as u64;
        a + step as u8
    } else {
        let diff: u64 = (a - b) as u64;
        assert(diff * t <= 255000 && diff * t / 1000 <= diff) by (nonlinear_arith)
            requires
                0 <= t <= 1000 && 0 <= diff <= 255,
        ;
        let step: u64 = diff * t as u64 / MILLI as u64;
        a - step as u8
    }
}

impl Color {
    /// Pure white, fully opaque.
    pub fn white() -> (c: Color)
        ensures
            c == (Color { r: 255, g: 255, b: 255, a: 255 }),
    {
        Color { r: 255, g: 255, b: 255, a: 255 }
    }

    /// Pure black, fully opaque.
    pub fn black() -> (c: Color)
        ensures
            c == (Color { r: 0, g: 0, b: 0, a: 255 }),
    {
        Color { r: 0, g: 0, b: 0, a: 255 }
    }

    /// The accent red of the default palette.
    pub fn red() -> (c: Color)
        ensures
            c == (Color { r: 244, g: 63, b: 94, a: 255 }),
    {
        Color { r: 244, g: 63, b: 94, a: 255 }
    }

    /// The accent green of the default palette.
    pub fn green() -> (c: Color)
        ensures
            c == (Color { r: 16, g: 185, b: 129, a: 255 }),
    {
        Color { r: 16, g: 185, b: 129, a: 255 }
    }

    /// The accent blue of the default palette.
    pub fn blue() -> (c: Color)
        ensures
            c == (Color { r: 79, g: 70, b: 229, a: 255 }),
    {
        Color { r: 79, g: 70, b: 229, a: 255 }
    }

    /// The darker slate surface tone of the default palette.
    pub fn slate_800() -> (c: Color)
        ensures
            c == (Color { r: 30, g: 41, b: 59, a: 255 }),
    {
        Color { r: 30, g: 41, b: 59, a: 255 }
    }

    /// The darkest slate background tone of the default palette.
    pub fn slate_900() -> (c: Color)
        ensures
            c == (Color { r: 15, g: 23, b: 42, a: 255 }),
    {
        Color { r: 15, g: 23, b: 42, a: 255 }
    }

    /// Fully transparent black.
    pub fn transparent() -> (c: Color)
        ensures
            c == (Color { r: 0, g: 0, b: 0, a: 0 }),
    {
        Color { r: 0, g: 0, b: 0, a: 0 }
    }

    /// The color `t` milli-units of the way from `a` to `b`, channel by
    /// channel: `t = 0` gives `a`, `t = MILLI` gives `b`.
    pub fn lerp(a: Color, b: Color, t: i64) -> (c: Color)
        requires
            0 <= t <= MILLI,
        ensures
            c.r == spec_lerp_channel(a.r, b.r, t),
            c.g == spec_lerp_channel(a.g, b.g, t),
            c.b == spec_lerp_channel(a.b, b.b, t),
            c.a == spec_lerp_channel(a.a, b.a, t),
    {
        Color {
            r: lerp_channel(a.r, b.r, t),
            g: lerp_channel(a.g, b.g, t),
            b: lerp_channel(a.b, b.b, t),
            a: lerp_channel(a.a, b.a, t),
        }
    }

    /// The same color with its alpha channel replaced.
    pub fn alpha(self, a_val: u8) -> (c: Color)
        ensures
            c == (Color { a: a_val, ..self }),
    {
        Color { a: a_val, ..self }
    }
}

} // verus!
