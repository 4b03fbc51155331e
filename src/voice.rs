//! General functionality for all voice types.

mod flags;

pub use self::flags::{
    flags_bits, flags_of_bits, lemma_flags_round_trip, VoiceFlags, BEAT_FIT, RESERVED, SMOOTH,
    WAVE_LOOP,
};

use crate::ptvoice::Ptvoice;
use vstd::prelude::*;

verus! {

/// A single reusable sample or synthesized instrument.
#[derive(Debug)]
pub enum Voice {
    Ptv(Ptvoice),
}

impl From<Ptvoice> for Voice {
    fn from(value: Ptvoice) -> (r: Self) {
        Voice::Ptv(value)
    }
}

impl vstd::std_specs::convert::FromSpecImpl<Ptvoice> for Voice {
    open spec fn obeys_from_spec() -> bool {
        true
    }

    open spec fn from_spec(v: Ptvoice) -> Voice {
        Voice::Ptv(v)
    }
}

} // verus!
