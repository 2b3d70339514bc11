//! Colors as the canvas stores them.

use vstd::prelude::*;

verus! {

/// A color: a red, a green and a blue channel.
///
/// Each channel is kept as the 64-bit pattern of an IEEE 754 double, so a
/// color is carried and stored without loss and without any arithmetic.
/// Channels are not clamped: every pattern is a valid channel. Two colors are
/// equal when their patterns are identical.
#[derive(Clone, Copy, Debug, PartialEq, Eq, Structural)]
pub struct Color {
    pub red: u64,
    pub green: u64,
    pub blue: u64,
}

/// Black: all three channels are positive zero, whose pattern is zero.
pub open spec fn spec_black() -> Color {
    Color { red: 0, green: 0, blue: 0 }
}

/// The color with the given channel patterns.
pub fn color(red: u64, green: u64, blue: u64) -> (c: Color)
    ensures
        c == (Color { red, green, blue }),
{
    Color { red, green, blue }
}

/// Black, the color of every cell of a new canvas.
#[verifier::when_used_as_spec(spec_black)]
pub fn black() -> (c: Color)
    ensures
        c == spec_black(),
{
    color(0, 0, 0)
}

impl Color {
    /// The pattern of the red channel.
    pub fn red(&self) -> (bits: u64)
        ensures
            bits == self.red,
    {
        self.red
    }

    /// The pattern of the green channel.
    pub fn green(&self) -> (bits: u64)
        ensures
            bits == self.green,
    {
        self.green
    }

    /// The pattern of the blue channel.
    pub fn blue(&self) -> (bits: u64)
        ensures
            bits == self.blue,
    {
        self.blue
    }
}

} // verus!
