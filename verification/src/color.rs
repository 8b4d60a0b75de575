//! Vertex colours as the renderer takes them: four 8-bit channels.

use vstd::prelude::*;

verus! {

/// An 8-bit red, green, blue, alpha colour.
#[derive(Clone, Copy, Debug, PartialEq, Eq, Structural)]
pub struct Rgba {
    pub r: u8,
    pub g: u8,
    pub b: u8,
    pub a: u8,
}

/// Opaque white.
pub open spec fn white() -> Rgba {
    Rgba { r: 255, g: 255, b: 255, a: 255 }
}

/// Opaque red.
pub open spec fn red() -> Rgba {
    Rgba { r: 255, g: 0, b: 0, a: 255 }
}

/// Fully transparent red.
pub open spec fn clear_red() -> Rgba {
    Rgba { r: 255, g: 0, b: 0, a: 0 }
}

/// A grey: the three colour channels all equal `level`, and the alpha is `alpha`.
pub open spec fn grey(level: u8, alpha: u8) -> Rgba {
    Rgba { r: level, g: level, b: level, a: alpha }
}

impl Rgba {
    /// Builds a colour from its four channels.
    pub fn new(r: u8, g: u8, b: u8, a: u8) -> (c: Rgba)
        ensures
            c == (Rgba { r, g, b, a }),
    {
        Rgba { r, g, b, a }
    }

    /// Opaque white.
    pub fn white() -> (c: Rgba)
        ensures
            c == white(),
            c == (Rgba { r: 255, g: 255, b: 255, a: 255 }),
    {
        Rgba { r: 255, g: 255, b: 255, a: 255 }
    }

    /// Opaque red.
    pub fn red() -> (c: Rgba)
        ensures
            c == red(),
            c == (Rgba { r: 255, g: 0, b: 0, a: 255 }),
    {
        Rgba { r: 255, g: 0, b: 0, a: 255 }
    }
}

/// Law: a grey has its level on each of the red, green and blue channels, for every
/// level, and keeps the alpha it is given.
pub proof fn lemma_grey_channels(level: u8, alpha: u8)
    ensures
        grey(level, alpha).r == level,
        grey(level, alpha).g == level,
        grey(level, alpha).b == level,
        grey(level, alpha).a == alpha,
{
}

} // verus!
