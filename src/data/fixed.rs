use super::wire::bytes_at;
use vstd::prelude::*;

verus! {

/// The 32-bit pattern that the four bytes at `pos` of `s` hold, least
/// significant byte first.
pub open spec fn le_u32(s: Seq<u8>, pos: int) -> u32 {
    (s[pos] as u32) | ((s[pos + 1] as u32) << 8u32) | ((s[pos + 2] as u32) << 16u32) | ((s[pos
        + 3] as u32) << 24u32)
}

/// The signed value of the four little-endian bytes at `pos` of `s`.
pub open spec fn le_i32(s: Seq<u8>, pos: int) -> i32 {
    le_u32(s, pos) as i32
}

/// The four bytes of `v`, least significant first.
pub open spec fn le_u32_bytes(v: u32) -> Seq<u8> {
    seq![
        (v & 0xff) as u8,
        ((v >> 8u32) & 0xff) as u8,
        ((v >> 16u32) & 0xff) as u8,
        ((v >> 24u32) & 0xff) as u8,
    ]
}

/// Reading back the four little-endian bytes of a 32-bit pattern gives the
/// same pattern, whatever surrounds them.
pub proof fn lemma_le_round_trip(v: u32, s: Seq<u8>, pos: int)
    requires
        bytes_at(s, pos, le_u32_bytes(v)),
    ensures
        le_u32(s, pos) == v,
        le_i32(s, pos) == v as i32,
{
    assert(le_u32_bytes(v).len() == 4);
    assert(s[pos] == s.subrange(pos, pos + 4)[0]);
    assert(s[pos + 1] == s.subrange(pos, pos + 4)[1]);
    assert(s[pos + 2] == s.subrange(pos, pos + 4)[2]);
    assert(s[pos + 3] == s.subrange(pos, pos + 4)[3]);
    let b0 = s[pos];
    let b1 = s[pos + 1];
    let b2 = s[pos + 2];
    let b3 = s[pos + 3];
    assert((b0 == (v & 0xff) as u8 && b1 == ((v >> 8u32) & 0xff) as u8 && b2 == ((v >> 16u32)
        & 0xff) as u8 && b3 == ((v >> 24u32) & 0xff) as u8) ==> ((b0 as u32) | ((b1 as u32)
        << 8u32) | ((b2 as u32) << 16u32) | ((b3 as u32) << 24u32)) == v) by (bit_vector);
}

} // verus!
