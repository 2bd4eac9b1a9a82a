//! Colours and the fill operations that frames and baked textures are made of.
use vstd::prelude::*;

verus! {

/// A colour with 8-bit red, green, blue and alpha channels.
#[derive(Clone, Copy, Debug, PartialEq, Eq, Structural)]
pub struct Rgba {
    pub r: u8,
    pub g: u8,
    pub b: u8,
    pub a: u8,
}

impl Rgba {
    /// An opaque colour.
    pub fn rgb(r: u8, g: u8, b: u8) -> (c: Rgba)
        ensures
            c == (Rgba { r, g, b, a: 255 }),
    {
        Rgba { r, g, b, a: 255 }
    }

    /// A colour with the given alpha.
    pub fn rgba(r: u8, g: u8, b: u8, a: u8) -> (c: Rgba)
        ensures
            c == (Rgba { r, g, b, a }),
    {
        Rgba { r, g, b, a }
    }
}

/// One fill operation on a render target. Positions, radii and angles are in
/// integer pixel and degree units; angles are kept unbounded here, and
/// `normalize_degrees` brings one into a single turn.
#[derive(Clone, Copy, Debug, PartialEq, Eq, Structural)]
pub enum DrawCommand {
    /// Fills the whole target.
    Clear { color: Rgba },
    /// Fills the disk of the given radius around (cx, cy).
    FilledCircle { cx: i16, cy: i16, radius: i16, color: Rgba },
    /// Fills the sector of the given radius around (cx, cy), from angle
    /// `start` to angle `end`, in degrees.
    FilledPie { cx: i16, cy: i16, radius: i16, start: i32, end: i32, color: Rgba },
}

/// The angle `degrees` brought into `[0, 360)`: the same direction, the same
/// sector when used as a bound.
pub fn normalize_degrees(degrees: i32) -> (r: i16)
    ensures
        0 <= r < 360,
        r == degrees % 360,
{
    match degrees.checked_rem_euclid(360) {
        Some(m) => m as i16,
        None => 0,
    }
}

} // verus!
