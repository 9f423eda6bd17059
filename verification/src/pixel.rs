//! The colour of one LED.

use vstd::prelude::*;

verus! {

/// One LED's colour: red, green and blue, eight bits each.
#[derive(Clone, Copy, Debug, PartialEq, Eq, Hash, Structural)]
pub struct Pixel {
    pub r: u8,
    pub g: u8,
    pub b: u8,
}

impl Pixel {
    /// The colour of an LED that is switched off.
    pub open spec fn black() -> Pixel {
        Pixel { r: 0, g: 0, b: 0 }
    }

    /// The channels in the order in which they travel on the wire.
    pub open spec fn channels(self) -> Seq<u8> {
        seq![self.r, self.g, self.b]
    }

    /// Builds a colour from its three channels.
    pub fn new(r: u8, g: u8, b: u8) -> (p: Pixel)
        ensures
            p == (Pixel { r, g, b }),
    {
        Pixel { r, g, b }
    }
}

impl Default for Pixel {
    /// Black, the colour every cell starts with.
    fn default() -> (p: Pixel)
        ensures
            p == Pixel::black(),
    {
        Pixel { r: 0, g: 0, b: 0 }
    }
}

} // verus!
