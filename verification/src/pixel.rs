//! The 8-bit colour value shared by the renderer and the LED encoder.

use vstd::prelude::*;

verus! {

/// One LED colour, eight bits per channel.
#[derive(Clone, Copy, Debug, PartialEq, Eq, Structural)]
pub struct Rgb8 {
    pub r: u8,
    pub g: u8,
    pub b: u8,
}

impl Rgb8 {
    /// The colour with the given red, green and blue levels.
    pub fn new(r: u8, g: u8, b: u8) -> (c: Self)
        ensures
            c == (Rgb8 { r, g, b }),
    {
        Rgb8 { r, g, b }
    }

    /// An unlit LED.
    pub open spec fn black() -> Self {
        Rgb8 { r: 0, g: 0, b: 0 }
    }
}

} // verus!
