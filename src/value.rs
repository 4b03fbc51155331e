//! Types for pxtone-specific quantities.

mod key;
mod max_len;
mod pan_volume;
mod tuning;
mod volume;

pub use self::key::{
    basic_of_key, key_of_a4_offset, key_of_basic, lemma_key_basic_round_trip, Key, A4_VALUE,
};
pub use self::max_len::{MaxLen, MaxLenI32};
pub use self::pan_volume::{min_i32, pan_of_separate, PanVolume};
pub use self::tuning::Tuning;
pub use self::volume::Volume;
