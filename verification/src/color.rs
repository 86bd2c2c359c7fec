//! A plain RGBA colour value, used by the presentation layer.

use vstd::prelude::*;

verus! {

/// An RGBA colour with one byte per channel.
#[derive(Clone, Copy, PartialEq, Eq, Structural, Debug)]
pub struct Color(pub u8, pub u8, pub u8, pub u8);

impl Color {
    /// Builds a colour from its four channels.
    pub fn new(r: u8, g: u8, b: u8, a: u8) -> (c: Self)
        ensures
            c == (Color(r, g, b, a)),
    {
        Color(r, g, b, a)
    }
}

} // verus!
