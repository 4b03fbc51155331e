use vstd::prelude::*;

verus! {

/// Expression of pitch where 256 "key" increments = 1 semitone.
///
/// A value of 0 is equivalent to A(-4); "key" is thus represented as the
/// distance from A(-4) in 1/256th-semitone increments. For example, A4 is 96
/// semitones above A(-4), so it is represented using a key value of
/// 96 × 256 = `0x6000`.
///
/// Conversions between the key and its offsets wrap around on overflow.
#[derive(Clone, Copy, Debug, PartialEq, Eq)]
pub struct Key(i32);

/// Key value of A4 (440 Hz).
pub const A4_VALUE: i32 = 0x6000;

/// The key whose offset from A4 is `a4_offset`.
pub open spec fn key_of_a4_offset(a4_offset: i32) -> i32 {
    vstd::wrapping::i32_specs::wrapping_add(A4_VALUE, a4_offset)
}

/// The key whose "basic key" value is `basic`.
pub open spec fn key_of_basic(basic: i32) -> i32 {
    key_of_a4_offset(vstd::wrapping::i32_specs::wrapping_sub(Key::BASIC, basic))
}

/// The "basic key" value of the key `key`.
pub open spec fn basic_of_key(key: i32) -> i32 {
    vstd::wrapping::i32_specs::wrapping_sub(
        Key::BASIC,
        vstd::wrapping::i32_specs::wrapping_sub(key, A4_VALUE),
    )
}

impl View for Key {
    type V = i32;

    closed spec fn view(&self) -> i32 {
        self.0
    }
}

impl Key {
    /// Basic key reference value.
    pub const BASIC: i32 = 0x4500;

    /// A4 (440 Hz) tone.
    pub fn a4() -> (r: Self)
        ensures
            r@ == A4_VALUE,
    {
        Self(A4_VALUE)
    }

    /// Middle C tone, 9 semitones below A4.
    pub fn c4() -> (r: Self)
        ensures
            r@ == 0x5700,
    {
        Self(0x5700)
    }

    /// A6 tone, 24 semitones above A4.
    pub fn a6() -> (r: Self)
        ensures
            r@ == 0x7800,
    {
        Self(0x7800)
    }

    /// Converts from key relative to A4.
    ///
    /// pxtone sometimes refers to key relative to A4 instead of A(-4) so that
    /// commonly used pitches can be encoded into shorter sequences.
    pub fn from_a4_offset(a4_offset: i32) -> (r: Self)
        ensures
            r@ == key_of_a4_offset(a4_offset),
    {
        Self(A4_VALUE.wrapping_add(a4_offset))
    }

    /// Converts from a "basic key" value.
    ///
    /// Samples that are not inherently pitched to A4 can be corrected by
    /// modifying the voice's "basic key", which causes its key to be offset by
    /// a constant reference value ([`Key::BASIC`]) minus that voice's basic key
    /// value. As such, *increasing* the voice's basic key value will
    /// *decrease* its pitch and vice versa.
    pub fn from_basic(basic: i32) -> (r: Self)
        ensures
            r@ == key_of_basic(basic),
    {
        Self::from_a4_offset(Self::BASIC.wrapping_sub(basic))
    }

    /// Returns key value as [`i32`].
    pub fn as_value(&self) -> (r: i32)
        ensures
            r == self@,
    {
        self.0
    }

    /// Returns key relative to A4.
    pub fn as_a4_offset(&self) -> (r: i32)
        ensures
            r == vstd::wrapping::i32_specs::wrapping_sub(self@, A4_VALUE),
    {
        self.as_value().wrapping_sub(A4_VALUE)
    }

    /// Returns "basic key" value.
    pub fn as_basic(&self) -> (r: i32)
        ensures
            r == basic_of_key(self@),
    {
        Self::BASIC.wrapping_sub(self.as_a4_offset())
    }
}

/// A key read back from its "basic key" value is the key itself.
pub proof fn lemma_key_basic_round_trip(key: i32)
    ensures
        key_of_basic(basic_of_key(key)) == key,
{
}

impl Default for Key {
    fn default() -> (r: Self)
        ensures
            r@ == A4_VALUE,
    {
        Self::a4()
    }
}

impl From<i32> for Key {
    fn from(value: i32) -> (r: Self)
        ensures
            r@ == value,
    {
        Key(value)
    }
}

impl vstd::std_specs::convert::FromSpecImpl<i32> for Key {
    open spec fn obeys_from_spec() -> bool {
        true
    }

    closed spec fn from_spec(v: i32) -> Key {
        Key(v)
    }
}

} // verus!
