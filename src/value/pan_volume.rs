use vstd::prelude::*;

verus! {

/// Represents relative volume between stereo channels; 0 = full left,
/// 64 = equal, 128 = full right.
///
/// Due to how pxtone calculates volume for each channel, values < 0 will
/// invert and gradually amplify the *right* channel, while values > 128 will
/// do the same to the *left* channel.
#[derive(Clone, Copy, Debug, PartialEq, Eq)]
pub struct PanVolume(i32);

impl View for PanVolume {
    type V = i32;

    closed spec fn view(&self) -> i32 {
        self.0
    }
}

/// The panning of separate left and right values out of 64: a left value
/// under 64 turns the balance right, otherwise the right value gives it.
pub open spec fn pan_of_separate(left: i32, right: i32) -> i32 {
    if left < 64 {
        vstd::wrapping::i32_specs::wrapping_sub(128, left)
    } else {
        right
    }
}

/// The smaller of two values.
pub open spec fn min_i32(a: i32, b: i32) -> i32 {
    if a <= b {
        a
    } else {
        b
    }
}

impl PanVolume {
    /// Center (equal) panning.
    pub fn center() -> (r: Self)
        ensures
            r@ == 64,
    {
        Self(64)
    }

    /// Full-left panning.
    pub fn left() -> (r: Self)
        ensures
            r@ == 0,
    {
        Self(0)
    }

    /// Full-right panning.
    pub fn right() -> (r: Self)
        ensures
            r@ == 128,
    {
        Self(128)
    }

    /// Converts from separate left and right values out of 64.
    pub fn from_separate(left: i32, right: i32) -> (r: Self)
        ensures
            r@ == pan_of_separate(left, right),
    {
        Self(
            if left < 64 {
                128i32.wrapping_sub(left)
            } else {
                right
            },
        )
    }

    /// Returns panning as a single [`i32`].
    pub fn as_value(&self) -> (r: i32)
        ensures
            r == self@,
    {
        self.0
    }

    /// Returns panning as left and right values out of 64.
    pub fn as_separate(&self) -> (r: (i32, i32))
        ensures
            r == (min_i32(64, vstd::wrapping::i32_specs::wrapping_sub(128, self@)), min_i32(64, self@)),
    {
        let left = 128i32.wrapping_sub(self.0);
        (if left < 64 {
            left
        } else {
            64
        }, if self.0 < 64 {
            self.0
        } else {
            64
        })
    }
}

impl Default for PanVolume {
    fn default() -> (r: Self)
        ensures
            r@ == 64,
    {
        Self::center()
    }
}

impl From<i32> for PanVolume {
    fn from(value: i32) -> (r: Self)
        ensures
            r@ == value,
    {
        PanVolume(value)
    }
}

impl vstd::std_specs::convert::FromSpecImpl<i32> for PanVolume {
    open spec fn obeys_from_spec() -> bool {
        true
    }

    closed spec fn from_spec(v: i32) -> PanVolume {
        PanVolume(v)
    }
}

} // verus!
