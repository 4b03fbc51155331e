use vstd::prelude::*;

verus! {

/// Volume ratio where a value of 128 = 100% volume.
#[derive(Clone, Copy, Debug, PartialEq, Eq)]
pub struct Volume(i32);

impl View for Volume {
    type V = i32;

    closed spec fn view(&self) -> i32 {
        self.0
    }
}

impl Volume {
    /// Returns volume value as [`i32`].
    pub fn as_value(&self) -> (r: i32)
        ensures
            r == self@,
    {
        self.0
    }
}

impl Default for Volume {
    fn default() -> (r: Self)
        ensures
            r@ == 128,
    {
        Self(128)
    }
}

impl From<i32> for Volume {
    fn from(value: i32) -> (r: Self)
        ensures
            r@ == value,
    {
        Volume(value)
    }
}

impl vstd::std_specs::convert::FromSpecImpl<i32> for Volume {
    open spec fn obeys_from_spec() -> bool {
        true
    }

    closed spec fn from_spec(v: i32) -> Volume {
        Volume(v)
    }
}

} // verus!
