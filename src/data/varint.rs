use super::wire::bytes_at;
use crate::ptvoice::PtvError;
use vstd::prelude::*;

verus! {

/// Number of bytes in the unsigned LEB128 encoding of `v`: one for each
/// started group of 7 bits, and at least one.
pub open spec fn var_len(v: u32) -> nat {
    if v >> 7u32 == 0 {
        1
    } else if v >> 14u32 == 0 {
        2
    } else if v >> 21u32 == 0 {
        3
    } else if v >> 28u32 == 0 {
        4
    } else {
        5
    }
}

/// Byte `k` of the unsigned LEB128 encoding of `v`: the `k`-th group of 7 bits,
/// with the high bit set on every byte but the last.
pub open spec fn var_byte(v: u32, k: nat) -> u8 {
    let group = ((v >> ((7 * k) as u32)) & 0x7f) as u8;
    if k + 1 < var_len(v) {
        group | 0x80
    } else {
        group
    }
}

/// The unsigned LEB128 encoding of `v`.
#[verifier::opaque]
pub open spec fn var_bytes(v: u32) -> Seq<u8> {
    Seq::new(var_len(v), |k: int| var_byte(v, k as nat))
}

/// The unsigned LEB128 encoding of the bits of `v`.
pub open spec fn var_bytes_i32(v: i32) -> Seq<u8> {
    var_bytes(v as u32)
}

/// Decodes the var-int at `pos` of `s` from its byte `i` on, where `acc` holds
/// the bits of bytes `0..i`: each byte adds its low 7 bits at bit `7 * i`; the
/// value ends after the first byte whose high bit is clear, or after 5 bytes.
/// Gives the value and the position after its last byte.
pub open spec fn var_read_from(s: Seq<u8>, pos: int, i: nat, acc: u32) -> Result<(u32, int), PtvError>
    decreases 5 - i,
{
    if i >= 5 {
        Ok((acc, pos + i))
    } else if pos + i < 0 || pos + i >= s.len() {
        Err(PtvError::IoFailure)
    } else {
        let b = s[pos + i];
        let next = acc | (((b & 0x7f) as u32) << ((7 * i) as u32));
        if b & 0x80 == 0 {
            Ok((next, pos + i + 1))
        } else {
            var_read_from(s, pos, i + 1, next)
        }
    }
}

/// The 32-bit pattern that the var-int at `pos` of `s` holds, with the position
/// after it.
#[verifier::opaque]
pub open spec fn var_read(s: Seq<u8>, pos: int) -> Result<(u32, int), PtvError> {
    var_read_from(s, pos, 0, 0)
}

/// The var-int at `pos` of `s` read as a signed value of the same bits.
pub open spec fn var_read_i32(s: Seq<u8>, pos: int) -> Result<(i32, int), PtvError> {
    match var_read(s, pos) {
        Ok((v, end)) => Ok((v as i32, end)),
        Err(e) => Err(e),
    }
}

/// What one step of the encoder computes from the bits still to be written,
/// `v >> shift` with `shift == 7 * i`.
pub proof fn lemma_var_step(v: u32, i: u32, shift: u32)
    requires
        i < 5,
        i < var_len(v),
        shift == 7 * i,
    ensures
        shift + 7 == 7 * (i + 1),
        (v >> shift) >> 7u32 == v >> ((shift + 7) as u32),
        ((v >> shift) >> 7u32 != 0) == (i + 1 < var_len(v)),
        (if (v >> shift) >> 7u32 != 0 {
            (((v >> shift) & 0x7f) as u8) | 0x80
        } else {
            ((v >> shift) & 0x7f) as u8
        }) == var_byte(v, i as nat),
{
    assert(v >> 0u32 == v) by (bit_vector);
    assert((v >> 7u32) >> 7u32 == v >> 14u32) by (bit_vector);
    assert((v >> 14u32) >> 7u32 == v >> 21u32) by (bit_vector);
    assert((v >> 21u32) >> 7u32 == v >> 28u32) by (bit_vector);
    assert((v >> 28u32) >> 7u32 == 0) by (bit_vector);
    assert(v >> 7u32 == 0 ==> v >> 14u32 == 0) by (bit_vector);
    assert(v >> 14u32 == 0 ==> v >> 21u32 == 0) by (bit_vector);
    assert(v >> 21u32 == 0 ==> v >> 28u32 == 0) by (bit_vector);
    assert(v >> 28u32 >> 7u32 == 0) by (bit_vector);
    assert(v >> 35u32 == 0) by (bit_vector);
}

/// Decoding the encoding of any 32-bit pattern gives the same bits back, after
/// 1 to 5 bytes, whatever follows them.
pub proof fn lemma_var_round_trip(v: u32, s: Seq<u8>, pos: int)
    requires
        bytes_at(s, pos, var_bytes(v)),
    ensures
        1 <= var_len(v) <= 5,
        var_bytes(v).len() == var_len(v),
        var_read(s, pos) == Ok::<(u32, int), PtvError>((v, pos + var_len(v))),
{
    reveal(var_bytes);
    reveal(var_read);
    let n = var_len(v);
    assert(var_bytes(v).len() == n);
    assert forall|k: int| 0 <= k < n implies #[trigger] s[pos + k] == var_byte(v, k as nat) by {
        assert(s.subrange(pos, pos + n)[k] == s[pos + k]);
    }
    let b0 = s[pos];
    let g0 = (v & 0x7f) as u8;
    assert(v >> 0u32 == v) by (bit_vector);
    if n == 1 {
        assert(b0 == g0);
        assert((v >> 7u32 == 0 && b0 == (v & 0x7f) as u8) ==> (b0 & 0x80 == 0 && (0u32 | (((b0
            & 0x7f) as u32) << 0u32)) == v)) by (bit_vector);
        assert(var_read(s, pos) == Ok::<(u32, int), PtvError>((v, pos + n)));
    } else {
        let b1 = s[pos + 1];
        assert(b0 == g0 | 0x80);
        let a1 = 0u32 | (((b0 & 0x7f) as u32) << 0u32);
        assert(b0 == ((v & 0x7f) as u8) | 0x80 ==> (b0 & 0x80 != 0 && 0u32 | (((b0 & 0x7f) as u32)
            << 0u32) == v & 0x7f)) by (bit_vector);
        assert(var_read(s, pos) == var_read_from(s, pos, 1, a1));
        if n == 2 {
            assert(b1 == ((v >> 7u32) & 0x7f) as u8);
            assert((v >> 14u32 == 0 && b1 == ((v >> 7u32) & 0x7f) as u8) ==> (b1 & 0x80 == 0 && ((v
                & 0x7f) | (((b1 & 0x7f) as u32) << 7u32)) == v)) by (bit_vector);
            assert(var_read_from(s, pos, 1, a1) == Ok::<(u32, int), PtvError>((v, pos + n)));
        } else {
            let b2 = s[pos + 2];
            assert(b1 == (((v >> 7u32) & 0x7f) as u8) | 0x80);
            let a2 = a1 | (((b1 & 0x7f) as u32) << 7u32);
            assert(b1 == (((v >> 7u32) & 0x7f) as u8) | 0x80 ==> (b1 & 0x80 != 0 && ((v & 0x7f) | (((
            b1 & 0x7f) as u32) << 7u32)) == v & 0x3fff)) by (bit_vector);
            assert(var_read(s, pos) == var_read_from(s, pos, 2, a2));
            if n == 3 {
                assert(b2 == ((v >> 14u32) & 0x7f) as u8);
                assert((v >> 21u32 == 0 && b2 == ((v >> 14u32) & 0x7f) as u8) ==> (b2 & 0x80 == 0
                    && ((v & 0x3fff) | (((b2 & 0x7f) as u32) << 14u32)) == v)) by (bit_vector);
                assert(var_read_from(s, pos, 2, a2) == Ok::<(u32, int), PtvError>((v, pos + n)));
            } else {
                let b3 = s[pos + 3];
                assert(b2 == (((v >> 14u32) & 0x7f) as u8) | 0x80);
                let a3 = a2 | (((b2 & 0x7f) as u32) << 14u32);
                assert(b2 == (((v >> 14u32) & 0x7f) as u8) | 0x80 ==> (b2 & 0x80 != 0 && ((v
                    & 0x3fff) | (((b2 & 0x7f) as u32) << 14u32)) == v & 0x1fffff)) by (bit_vector);
                assert(var_read(s, pos) == var_read_from(s, pos, 3, a3));
                if n == 4 {
                    assert(b3 == ((v >> 21u32) & 0x7f) as u8);
                    assert((v >> 28u32 == 0 && b3 == ((v >> 21u32) & 0x7f) as u8) ==> (b3 & 0x80
                        == 0 && ((v & 0x1fffff) | (((b3 & 0x7f) as u32) << 21u32)) == v))
                        by (bit_vector);
                    assert(var_read_from(s, pos, 3, a3) == Ok::<(u32, int), PtvError>((v, pos + n)));
                } else {
                    let b4 = s[pos + 4];
                    assert(b3 == (((v >> 21u32) & 0x7f) as u8) | 0x80);
                    let a4 = a3 | (((b3 & 0x7f) as u32) << 21u32);
                    assert(b3 == (((v >> 21u32) & 0x7f) as u8) | 0x80 ==> (b3 & 0x80 != 0 && ((v
                        & 0x1fffff) | (((b3 & 0x7f) as u32) << 21u32)) == v & 0xfffffff))
                        by (bit_vector);
                    assert(var_read(s, pos) == var_read_from(s, pos, 4, a4));
                    assert(b4 == ((v >> 28u32) & 0x7f) as u8);
                    assert(b4 == ((v >> 28u32) & 0x7f) as u8 ==> ((v & 0xfffffff) | (((b4 & 0x7f)
                        as u32) << 28u32)) == v) by (bit_vector);
                    let a5 = a4 | (((b4 & 0x7f) as u32) << 28u32);
                    assert(var_read_from(s, pos, 5, a5) == Ok::<(u32, int), PtvError>((v, pos + n)));
                    assert(var_read_from(s, pos, 4, a4) == Ok::<(u32, int), PtvError>((v, pos + n)));
                }
            }
        }
    }
}

/// The signed form of the var-int round trip.
pub proof fn lemma_var_round_trip_i32(v: i32, s: Seq<u8>, pos: int)
    requires
        bytes_at(s, pos, var_bytes_i32(v)),
    ensures
        var_read_i32(s, pos) == Ok::<(i32, int), PtvError>((v, pos + var_bytes_i32(v).len())),
{
    lemma_var_round_trip(v as u32, s, pos);
    assert((v as u32) as i32 == v) by (bit_vector);
}

} // verus!
