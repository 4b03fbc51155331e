use vstd::prelude::*;

verus! {

/// Multiplier applied to a unit's pitch, held as the bit pattern of a 32-bit
/// IEEE-754 float.
///
/// Negative values will cause crashes or other unpleasant behaviour in pxtone,
/// so use with caution.
#[derive(Clone, Copy, Debug, PartialEq, Eq)]
pub struct Tuning(u32);

impl View for Tuning {
    type V = u32;

    closed spec fn view(&self) -> u32 {
        self.0
    }
}

impl Tuning {
    /// Bit pattern of the float 1.0.
    pub const ONE_BITS: u32 = 0x3f80_0000;

    /// Converts from the bit pattern of a 32-bit float.
    pub fn from_bits(bits: u32) -> (r: Self)
        ensures
            r@ == bits,
    {
        Self(bits)
    }

    /// Returns the bit pattern of the 32-bit float.
    pub fn to_bits(&self) -> (r: u32)
        ensures
            r == self@,
    {
        self.0
    }
}

impl Default for Tuning {
    /// A multiplier of 1.
    fn default() -> (r: Self)
        ensures
            r@ == Tuning::ONE_BITS,
    {
        Self(Self::ONE_BITS)
    }
}

} // verus!
