//! Reading and writing pxtone voice data.
//!
//! The codec works on bytes in memory: decoding reads from a byte slice at a
//! cursor, encoding appends to a byte vector. Every decoder is specified by a
//! spec function that says what the bytes at a position decode to, and every
//! encoder by a spec function that gives the bytes it appends.

mod value;
pub use self::value::{
    basic_of_key, key_of_a4_offset, key_of_basic, lemma_key_basic_round_trip, min_i32,
    pan_of_separate, Key, MaxLen, MaxLenI32, PanVolume, Tuning, Volume, A4_VALUE,
};

pub mod data;
pub mod ptvoice;
pub mod voice;
