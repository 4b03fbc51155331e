//! (De)serializing pxtone data structures.
//!
//! Decoders read from a byte slice at a cursor that they move past what they
//! consumed; encoders append to a byte vector and return the position at which
//! they started writing.

mod fixed;
mod from_read;
mod from_read_var;
mod varint;
mod wire;
mod write_to;
mod write_var_to;

pub use self::fixed::{le_i32, le_u32, le_u32_bytes, lemma_le_round_trip};
pub use self::from_read::{byte_at, FromRead};
pub use self::from_read_var::FromReadVar;
pub use self::varint::{
    lemma_var_round_trip, lemma_var_round_trip_i32, var_byte, var_bytes, var_bytes_i32, var_len,
    var_read, var_read_from, var_read_i32,
};
pub use self::wire::{bytes_at, lemma_bytes_at_split};
pub use self::write_to::WriteTo;
pub use self::write_var_to::WriteVarTo;
