//! Little-endian words in byte sequences.

use vstd::prelude::*;

verus! {

/// The little-endian 32-bit word at `offset`.
pub open spec fn spec_le_u32(bytes: Seq<u8>, offset: int) -> u32 {
    (bytes[offset] + 256 * bytes[offset + 1] + 65536 * bytes[offset + 2] + 16777216 * bytes[offset
        + 3]) as u32
}

/// Reads the little-endian 32-bit word at `offset`.
pub fn le_u32(bytes: &[u8], offset: usize) -> (word: u32)
    requires
        offset + 4 <= bytes@.len(),
    ensures
        word == spec_le_u32(bytes@, offset as int),
        word as int == bytes@[offset as int] + 256 * bytes@[offset + 1] + 65536 * bytes@[offset
            + 2] + 16777216 * bytes@[offset + 3],
{
    let b0 = bytes[offset] as u32;
    let b1 = bytes[offset + 1] as u32;
    let b2 = bytes[offset + 2] as u32;
    let b3 = bytes[offset + 3] as u32;
    b0 + 256 * b1 + 65536 * b2 + 16777216 * b3
}


/// The big-endian 32-bit word at `offset`.
pub open spec fn spec_be_u32(bytes: Seq<u8>, offset: int) -> u32 {
    (bytes[offset + 3] + 256 * bytes[offset + 2] + 65536 * bytes[offset + 1] + 16777216
        * bytes[offset]) as u32
}

/// The 32-bit word at `offset`, least significant byte first when
/// `little_endian`, most significant first otherwise.
pub open spec fn spec_u32_in_order(bytes: Seq<u8>, offset: int, little_endian: bool) -> u32 {
    if little_endian {
        spec_le_u32(bytes, offset)
    } else {
        spec_be_u32(bytes, offset)
    }
}

/// Reads the 32-bit word at `offset` in the given byte order.
pub fn u32_in_order(bytes: &[u8], offset: usize, little_endian: bool) -> (word: u32)
    requires
        offset + 4 <= bytes@.len(),
    ensures
        word == spec_u32_in_order(bytes@, offset as int, little_endian),
{
    if little_endian {
        le_u32(bytes, offset)
    } else {
        let b0 = bytes[offset] as u32;
        let b1 = bytes[offset + 1] as u32;
        let b2 = bytes[offset + 2] as u32;
        let b3 = bytes[offset + 3] as u32;
        b3 + 256 * b2 + 65536 * b1 + 16777216 * b0
    }
}

} // verus!

verus! {

/// The four bytes of `w`, least significant first.
pub open spec fn spec_u32_le_bytes(w: u32) -> Seq<u8> {
    seq![
        (w % 256) as u8,
        ((w / 256) % 256) as u8,
        ((w / 65536) % 256) as u8,
        ((w / 16777216) % 256) as u8,
    ]
}

/// The eight bytes of `w`, least significant first.
pub open spec fn spec_u64_le_bytes(w: u64) -> Seq<u8> {
    spec_u32_le_bytes((w % 0x1_0000_0000) as u32) + spec_u32_le_bytes((w / 0x1_0000_0000) as u32)
}

/// Appends the four bytes of `w`, least significant first.
pub fn push_u32_le(bytes: &mut Vec<u8>, w: u32)
    ensures
        final(bytes)@ == old(bytes)@ + spec_u32_le_bytes(w),
{
    bytes.push((w % 256) as u8);
    bytes.push(((w / 256) % 256) as u8);
    bytes.push(((w / 65536) % 256) as u8);
    bytes.push(((w / 16777216) % 256) as u8);
    assert(final(bytes)@ =~= old(bytes)@ + spec_u32_le_bytes(w));
}

/// Appends the eight bytes of `w`, least significant first.
pub fn push_u64_le(bytes: &mut Vec<u8>, w: u64)
    ensures
        final(bytes)@ == old(bytes)@ + spec_u64_le_bytes(w),
{
    push_u32_le(bytes, (w % 0x1_0000_0000) as u32);
    push_u32_le(bytes, (w / 0x1_0000_0000) as u32);
    assert(final(bytes)@ =~= old(bytes)@ + spec_u64_le_bytes(w));
}

/// Reading back the word written by [`push_u32_le`] gives the word.
pub proof fn lemma_u32_le_round_trip(w: u32)
    ensures
        spec_le_u32(spec_u32_le_bytes(w), 0) == w,
{
    let b = spec_u32_le_bytes(w);
    assert(b[0] + 256 * b[1] + 65536 * b[2] + 16777216 * b[3] == w) by (nonlinear_arith)
        requires
            b[0] == w % 256,
            b[1] == (w / 256) % 256,
            b[2] == (w / 65536) % 256,
            b[3] == (w / 16777216) % 256,
            w <= u32::MAX,
    ;
}

} // verus!
