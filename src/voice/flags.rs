use crate::data::{le_u32_bytes, var_bytes, WriteTo, WriteVarTo};
use crate::ptvoice::PtvError;
use vstd::prelude::*;

verus! {

/// Voice-unit configuration.
#[derive(Clone, Copy, Debug, PartialEq, Eq, Structural)]
pub struct VoiceFlags {
    /// Repeats the waveform for the full note duration (vs. being a one-off sample).
    pub wave_loop: bool,
    /// Adds a very slight fadeout on note release.
    pub smooth: bool,
    /// Stretches the sample to be one beat in length, regardless of note duration.
    pub beat_fit: bool,
}

/// Bit of [`VoiceFlags::wave_loop`].
pub const WAVE_LOOP: u32 = 1;
/// Bit of [`VoiceFlags::smooth`].
pub const SMOOTH: u32 = 2;
/// Bit of [`VoiceFlags::beat_fit`].
pub const BEAT_FIT: u32 = 4;
/// Bits that no flag uses.
pub const RESERVED: u32 = 0xffff_fff8;

/// The bit set of `f`.
pub open spec fn flags_bits(f: VoiceFlags) -> u32 {
    (if f.wave_loop { WAVE_LOOP } else { 0 }) | (if f.smooth { SMOOTH } else { 0 }) | (if f.beat_fit {
        BEAT_FIT
    } else {
        0
    })
}

/// The flags that the bit set `v` holds, or `None` where a reserved bit is set.
pub open spec fn flags_of_bits(v: u32) -> Option<VoiceFlags> {
    if v & RESERVED != 0 {
        None
    } else {
        Some(
            VoiceFlags {
                wave_loop: v & WAVE_LOOP != 0,
                smooth: v & SMOOTH != 0,
                beat_fit: v & BEAT_FIT != 0,
            },
        )
    }
}

impl VoiceFlags {
    /// Reads a flag set, or `None` where a reserved bit is set.
    pub fn from_u32(value: u32) -> (r: Option<Self>)
        ensures
            r == flags_of_bits(value),
    {
        if (value & RESERVED) != 0 {
            return None;
        }
        Some(
            Self {
                wave_loop: (value & WAVE_LOOP) != 0,
                smooth: (value & SMOOTH) != 0,
                beat_fit: (value & BEAT_FIT) != 0,
            },
        )
    }

    /// Returns the flag set as bits.
    pub fn as_u32(&self) -> (r: u32)
        ensures
            r == flags_bits(*self),
    {
        (if self.wave_loop {
            WAVE_LOOP
        } else {
            0
        }) | (if self.smooth {
            SMOOTH
        } else {
            0
        }) | (if self.beat_fit {
            BEAT_FIT
        } else {
            0
        })
    }
}

impl View for VoiceFlags {
    type V = VoiceFlags;

    open spec fn view(&self) -> VoiceFlags {
        *self
    }
}

impl WriteTo for VoiceFlags {
    open spec fn fits(m: VoiceFlags) -> bool {
        true
    }

    open spec fn wire(m: VoiceFlags) -> Seq<u8> {
        le_u32_bytes(flags_bits(m))
    }

    fn write_to(&self, sink: &mut Vec<u8>) -> (r: Result<usize, PtvError>) {
        self.as_u32().write_to(sink)
    }
}

impl WriteVarTo for VoiceFlags {
    open spec fn var_wire(&self) -> Seq<u8> {
        var_bytes(flags_bits(*self))
    }

    fn write_var_to(&self, sink: &mut Vec<u8>) -> (r: Result<usize, PtvError>) {
        self.as_u32().write_var_to(sink)
    }
}

/// Reading back the bits of a flag set gives the same flags.
pub proof fn lemma_flags_round_trip(f: VoiceFlags)
    ensures
        flags_of_bits(flags_bits(f)) == Some(f),
{
    let a = if f.wave_loop { 1u32 } else { 0u32 };
    let b = if f.smooth { 2u32 } else { 0u32 };
    let c = if f.beat_fit { 4u32 } else { 0u32 };
    assert((a == 0 || a == 1) && (b == 0 || b == 2) && (c == 0 || c == 4) ==> ((a | b | c)
        & 0xffff_fff8 == 0 && ((a | b | c) & 1 != 0) == (a == 1) && ((a | b | c) & 2 != 0) == (b
        == 2) && ((a | b | c) & 4 != 0) == (c == 4))) by (bit_vector);
}

} // verus!
