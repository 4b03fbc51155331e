use super::varint::{lemma_var_step, var_bytes, var_bytes_i32, var_len};
use crate::ptvoice::PtvError;
use vstd::prelude::*;

verus! {

/// Allows encoding `self` as an unsigned LEB128 sequence appended to a byte
/// vector.
pub trait WriteVarTo {
    /// The bytes that encode `self`.
    spec fn var_wire(&self) -> Seq<u8>;

    /// Appends the encoding of `self` to `sink`.
    ///
    /// Returns the position before writing.
    fn write_var_to(&self, sink: &mut Vec<u8>) -> (r: Result<usize, PtvError>)
        ensures
            r == Ok::<usize, PtvError>(old(sink)@.len() as usize),
            final(sink)@ == old(sink)@ + self.var_wire(),
    ;
}

impl WriteVarTo for u32 {
    open spec fn var_wire(&self) -> Seq<u8> {
        var_bytes(*self)
    }

    fn write_var_to(&self, sink: &mut Vec<u8>) -> (r: Result<usize, PtvError>) {
        let start_pos = sink.len();
        let ghost start = sink@;
        proof {
            reveal(var_bytes);
        }
        let mut value: u32 = *self;
        let mut i: u32 = 0;
        let mut shift: u32 = 0;
        assert(*self >> 0u32 == *self) by (bit_vector);
        loop
            invariant_except_break
                i < 5,
                i < var_len(*self),
                shift == 7 * i,
                value == *self >> shift,
                sink@ == start + var_bytes(*self).take(i as int),
            ensures
                sink@ == start + var_bytes(*self),
            decreases 5 - i,
        {
            let mut byte = (value & 0x7f) as u8;
            proof {
                reveal(var_bytes);
                lemma_var_step(*self, i, shift);
            }
            value = value >> 7;
            if value != 0 {
                byte = byte | 0x80;
            }
            sink.push(byte);
            assert(var_bytes(*self).take(i + 1) == var_bytes(*self).take(i as int).push(byte));
            if value == 0 {
                assert(var_bytes(*self).take(i + 1) == var_bytes(*self));
                break;
            }
            i = i + 1;
            shift = shift + 7;
        }
        Ok(start_pos)
    }
}

impl WriteVarTo for i32 {
    open spec fn var_wire(&self) -> Seq<u8> {
        var_bytes_i32(*self)
    }

    fn write_var_to(&self, sink: &mut Vec<u8>) -> (r: Result<usize, PtvError>) {
        (*self as u32).write_var_to(sink)
    }
}

impl<X: WriteVarTo, Y: WriteVarTo> WriteVarTo for (X, Y) {
    open spec fn var_wire(&self) -> Seq<u8> {
        self.0.var_wire() + self.1.var_wire()
    }

    fn write_var_to(&self, sink: &mut Vec<u8>) -> (r: Result<usize, PtvError>) {
        let start_pos = sink.len();
        let _ = self.0.write_var_to(sink);
        let _ = self.1.write_var_to(sink);
        assert(sink@ == old(sink)@ + self.var_wire());
        Ok(start_pos)
    }
}

} // verus!
