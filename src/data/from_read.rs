use super::fixed::{le_i32, le_u32};
use crate::ptvoice::PtvError;
use vstd::prelude::*;

verus! {

/// Provides a constructor that reads data from a byte slice.
pub trait FromRead: Sized + View {
    /// What the bytes at `pos` of `s` decode to, with the position after them.
    spec fn parse(s: Seq<u8>, pos: int) -> Result<(Self::V, int), PtvError>;

    /// Decodes a value at `*pos` of `source` and moves `*pos` past it.
    fn from_read(source: &[u8], pos: &mut usize) -> (r: Result<Self, PtvError>)
        ensures
            match Self::parse(source@, *old(pos) as int) {
                Ok((v, end)) => r is Ok && r->Ok_0@ == v && *final(pos) as int == end,
                Err(e) => r is Err && r->Err_0 == e,
            },
    ;
}

/// The byte at `pos` of `s`, with the position after it.
pub open spec fn byte_at(s: Seq<u8>, pos: int) -> Result<(u8, int), PtvError> {
    if 0 <= pos < s.len() {
        Ok((s[pos], pos + 1))
    } else {
        Err(PtvError::IoFailure)
    }
}

/// Reads the byte at `*pos` of `source`.
fn read_byte(source: &[u8], pos: &mut usize) -> (r: Result<u8, PtvError>)
    ensures
        match byte_at(source@, *old(pos) as int) {
            Ok((v, end)) => r == Ok::<u8, PtvError>(v) && *final(pos) as int == end,
            Err(e) => r == Err::<u8, PtvError>(e),
        },
{
    if *pos < source.len() {
        let b = source[*pos];
        *pos = *pos + 1;
        Ok(b)
    } else {
        Err(PtvError::IoFailure)
    }
}

impl FromRead for u8 {
    open spec fn parse(s: Seq<u8>, pos: int) -> Result<(u8, int), PtvError> {
        byte_at(s, pos)
    }

    fn from_read(source: &[u8], pos: &mut usize) -> (r: Result<u8, PtvError>) {
        read_byte(source, pos)
    }
}

impl FromRead for i8 {
    open spec fn parse(s: Seq<u8>, pos: int) -> Result<(i8, int), PtvError> {
        match byte_at(s, pos) {
            Ok((b, end)) => Ok((b as i8, end)),
            Err(e) => Err(e),
        }
    }

    fn from_read(source: &[u8], pos: &mut usize) -> (r: Result<i8, PtvError>) {
        match read_byte(source, pos) {
            Ok(b) => Ok(b as i8),
            Err(e) => Err(e),
        }
    }
}

impl FromRead for u32 {
    open spec fn parse(s: Seq<u8>, pos: int) -> Result<(u32, int), PtvError> {
        if 0 <= pos && pos + 4 <= s.len() {
            Ok((le_u32(s, pos), pos + 4))
        } else {
            Err(PtvError::IoFailure)
        }
    }

    fn from_read(source: &[u8], pos: &mut usize) -> (r: Result<u32, PtvError>) {
        if source.len() < 4 || *pos > source.len() - 4 {
            return Err(PtvError::IoFailure);
        }
        let p = *pos;
        let v = (source[p] as u32) | ((source[p + 1] as u32) << 8) | ((source[p + 2] as u32) << 16)
            | ((source[p + 3] as u32) << 24);
        *pos = p + 4;
        Ok(v)
    }
}

impl FromRead for i32 {
    open spec fn parse(s: Seq<u8>, pos: int) -> Result<(i32, int), PtvError> {
        if 0 <= pos && pos + 4 <= s.len() {
            Ok((le_i32(s, pos), pos + 4))
        } else {
            Err(PtvError::IoFailure)
        }
    }

    fn from_read(source: &[u8], pos: &mut usize) -> (r: Result<i32, PtvError>) {
        match u32::from_read(source, pos) {
            Ok(v) => Ok(v as i32),
            Err(e) => Err(e),
        }
    }
}

impl<X: FromRead, Y: FromRead> FromRead for (X, Y) {
    open spec fn parse(s: Seq<u8>, pos: int) -> Result<((X::V, Y::V), int), PtvError> {
        match X::parse(s, pos) {
            Ok((x, p)) => match Y::parse(s, p) {
                Ok((y, end)) => Ok(((x, y), end)),
                Err(e) => Err(e),
            },
            Err(e) => Err(e),
        }
    }

    fn from_read(source: &[u8], pos: &mut usize) -> (r: Result<(X, Y), PtvError>) {
        match X::from_read(source, pos) {
            Ok(x) => match Y::from_read(source, pos) {
                Ok(y) => Ok((x, y)),
                Err(e) => Err(e),
            },
            Err(e) => Err(e),
        }
    }
}

} // verus!
