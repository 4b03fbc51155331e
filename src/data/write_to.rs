use super::fixed::le_u32_bytes;
use crate::ptvoice::PtvError;
use vstd::prelude::*;

verus! {

/// Allows encoding `self` as bytes appended to a byte vector.
pub trait WriteTo: View {
    /// Whether a value can be encoded: every count it holds fits the wire.
    spec fn fits(m: Self::V) -> bool;

    /// The bytes that encode a value.
    spec fn wire(m: Self::V) -> Seq<u8>;

    /// Appends the encoding of `self` to `sink`.
    ///
    /// Returns the position before writing, or `OverMax` where a count of
    /// `self` does not fit the wire.
    fn write_to(&self, sink: &mut Vec<u8>) -> (r: Result<usize, PtvError>)
        ensures
            Self::fits(self@) ==> r == Ok::<usize, PtvError>(old(sink)@.len() as usize)
                && final(sink)@ == old(sink)@ + Self::wire(self@),
            !Self::fits(self@) ==> r == Err::<usize, PtvError>(PtvError::OverMax),
    ;
}

/// Appends the four little-endian bytes of `v` to `sink`.
fn push_le_u32(v: u32, sink: &mut Vec<u8>)
    ensures
        final(sink)@ == old(sink)@ + le_u32_bytes(v),
{
    sink.push((v & 0xff) as u8);
    sink.push(((v >> 8) & 0xff) as u8);
    sink.push(((v >> 16) & 0xff) as u8);
    sink.push(((v >> 24) & 0xff) as u8);
    assert(sink@ == old(sink)@ + le_u32_bytes(v));
}

impl WriteTo for u8 {
    open spec fn fits(m: u8) -> bool {
        true
    }

    open spec fn wire(m: u8) -> Seq<u8> {
        seq![m]
    }

    fn write_to(&self, sink: &mut Vec<u8>) -> (r: Result<usize, PtvError>) {
        let start_pos = sink.len();
        sink.push(*self);
        assert(sink@ == old(sink)@ + seq![*self]);
        Ok(start_pos)
    }
}

impl WriteTo for i8 {
    open spec fn fits(m: i8) -> bool {
        true
    }

    open spec fn wire(m: i8) -> Seq<u8> {
        seq![m as u8]
    }

    fn write_to(&self, sink: &mut Vec<u8>) -> (r: Result<usize, PtvError>) {
        let start_pos = sink.len();
        sink.push(*self as u8);
        assert(sink@ == old(sink)@ + seq![*self as u8]);
        Ok(start_pos)
    }
}

impl WriteTo for u32 {
    open spec fn fits(m: u32) -> bool {
        true
    }

    open spec fn wire(m: u32) -> Seq<u8> {
        le_u32_bytes(m)
    }

    fn write_to(&self, sink: &mut Vec<u8>) -> (r: Result<usize, PtvError>) {
        let start_pos = sink.len();
        push_le_u32(*self, sink);
        Ok(start_pos)
    }
}

impl WriteTo for i32 {
    open spec fn fits(m: i32) -> bool {
        true
    }

    open spec fn wire(m: i32) -> Seq<u8> {
        le_u32_bytes(m as u32)
    }

    fn write_to(&self, sink: &mut Vec<u8>) -> (r: Result<usize, PtvError>) {
        let start_pos = sink.len();
        push_le_u32(*self as u32, sink);
        Ok(start_pos)
    }
}

impl<X: WriteTo, Y: WriteTo> WriteTo for (X, Y) {
    open spec fn fits(m: (X::V, Y::V)) -> bool {
        X::fits(m.0) && Y::fits(m.1)
    }

    open spec fn wire(m: (X::V, Y::V)) -> Seq<u8> {
        X::wire(m.0) + Y::wire(m.1)
    }

    fn write_to(&self, sink: &mut Vec<u8>) -> (r: Result<usize, PtvError>) {
        match self.0.write_to(sink) {
            Ok(start_pos) => match self.1.write_to(sink) {
                Ok(_) => {
                    assert(sink@ == old(sink)@ + Self::wire(self@));
                    Ok(start_pos)
                },
                Err(e) => Err(e),
            },
            Err(e) => Err(e),
        }
    }
}

} // verus!
