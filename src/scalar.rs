use vstd::prelude::*;

verus! {

/// A coordinate or length, held as the IEEE-754 bits of a double.
#[derive(Clone, Copy, Debug, PartialEq, Eq, Structural)]
pub struct Scalar {
    pub bits: u64,
}

/// A color channel, held as the IEEE-754 bits of a single-precision float.
#[derive(Clone, Copy, Debug, PartialEq, Eq, Structural)]
pub struct Channel {
    pub bits: u32,
}

/// Bits of the single-precision value `1.0`.
pub const CHANNEL_ONE_BITS: u32 = 0x3f80_0000;

/// Mask that clears the sign bit of a single-precision value.
pub const CHANNEL_MAGNITUDE_MASK: u32 = 0x7fff_ffff;

impl Channel {
    /// The channel compares equal to zero (either `0.0` or `-0.0`).
    pub open spec fn spec_is_zero(self) -> bool {
        self.bits & CHANNEL_MAGNITUDE_MASK == 0
    }

    /// The channel compares equal to one.
    pub open spec fn spec_is_one(self) -> bool {
        self.bits == CHANNEL_ONE_BITS
    }

    pub fn is_zero(&self) -> (r: bool)
        ensures
            r == self.spec_is_zero(),
    {
        self.bits & CHANNEL_MAGNITUDE_MASK == 0
    }

    pub fn is_one(&self) -> (r: bool)
        ensures
            r == self.spec_is_one(),
    {
        self.bits == CHANNEL_ONE_BITS
    }
}

} // verus!

verus! {

/// A color as `(r, g, b, a)`; channels are passed through unclamped.
#[derive(Clone, Copy, Debug, PartialEq, Eq, Structural)]
pub struct Color {
    pub r: Channel,
    pub g: Channel,
    pub b: Channel,
    pub a: Channel,
}

} // verus!
