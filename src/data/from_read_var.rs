use super::varint::{var_read, var_read_from, var_read_i32};
use crate::ptvoice::PtvError;
use vstd::prelude::*;

verus! {

/// Provides a constructor that reads an unsigned LEB128 sequence from a byte
/// slice.
///
/// pxtone only uses this encoding for 32-bit data types, so up to 5 bytes of
/// encoded data are consumed. Only the lower 4 bits of a potential 5th byte
/// are used in the result.
pub trait FromReadVar: Sized {
    /// The value that the bytes at `pos` of `s` decode to, with the position
    /// after them.
    spec fn var_parse(s: Seq<u8>, pos: int) -> Result<(Self, int), PtvError>;

    /// Decodes a value at `*pos` of `source` and moves `*pos` past it.
    fn from_read_var(source: &[u8], pos: &mut usize) -> (r: Result<Self, PtvError>)
        ensures
            match Self::var_parse(source@, *old(pos) as int) {
                Ok((v, end)) => r == Ok::<Self, PtvError>(v) && *final(pos) as int == end,
                Err(e) => r == Err::<Self, PtvError>(e),
            },
    ;
}

impl FromReadVar for u32 {
    open spec fn var_parse(s: Seq<u8>, pos: int) -> Result<(u32, int), PtvError> {
        var_read(s, pos)
    }

    fn from_read_var(source: &[u8], pos: &mut usize) -> (r: Result<u32, PtvError>) {
        let ghost start = *pos as int;
        proof {
            reveal(var_read);
        }
        let mut result: u32 = 0;
        let mut i: u32 = 0;
        while i < 5
            invariant
                i <= 5,
                start == *old(pos) as int,
                *pos as int == start + i,
                var_read(source@, start) == var_read_from(source@, start, i as nat, result),
            decreases 5 - i,
        {
            if *pos >= source.len() {
                return Err(PtvError::IoFailure);
            }
            let byte = source[*pos];
            *pos = *pos + 1;
            result = result | (((byte & 0x7f) as u32) << (7 * i));
            if (byte & 0x80) == 0 {
                return Ok(result);
            }
            i = i + 1;
        }
        Ok(result)
    }
}

impl FromReadVar for i32 {
    open spec fn var_parse(s: Seq<u8>, pos: int) -> Result<(i32, int), PtvError> {
        var_read_i32(s, pos)
    }

    fn from_read_var(source: &[u8], pos: &mut usize) -> (r: Result<i32, PtvError>) {
        match u32::from_read_var(source, pos) {
            Ok(v) => Ok(v as i32),
            Err(e) => Err(e),
        }
    }
}

impl<X: FromReadVar, Y: FromReadVar> FromReadVar for (X, Y) {
    open spec fn var_parse(s: Seq<u8>, pos: int) -> Result<((X, Y), int), PtvError> {
        match X::var_parse(s, pos) {
            Ok((x, p)) => match Y::var_parse(s, p) {
                Ok((y, end)) => Ok(((x, y), end)),
                Err(e) => Err(e),
            },
            Err(e) => Err(e),
        }
    }

    fn from_read_var(source: &[u8], pos: &mut usize) -> (r: Result<(X, Y), PtvError>) {
        match X::from_read_var(source, pos) {
            Ok(x) => match Y::from_read_var(source, pos) {
                Ok(y) => Ok((x, y)),
                Err(e) => Err(e),
            },
            Err(e) => Err(e),
        }
    }
}

} // verus!
