//! Fixed-width readers over a byte slice, and the reversal of a fixed-size
//! byte array.
//!
//! Every multi-byte header field is assembled with the byte at the lowest
//! offset as the least significant one.

use vstd::prelude::*;

verus! {

/// The number whose base-256 digits, least significant first, are the
/// `width` bytes of `bytes` that start at `offset`.
pub open spec fn le_value(bytes: Seq<u8>, offset: int, width: nat) -> nat
    decreases width,
{
    if width == 0 {
        0
    } else {
        bytes[offset] as nat + 256 * le_value(bytes, offset + 1, (width - 1) as nat)
    }
}

/// How the values of one, two, four and eight bytes are built up, and that
/// each fits the unsigned integer of its width.
pub proof fn lemma_le_value_bounds(bytes: Seq<u8>, offset: int)
    ensures
        le_value(bytes, offset, 1) == bytes[offset],
        le_value(bytes, offset, 2) == bytes[offset] + 0x100 * bytes[offset + 1],
        le_value(bytes, offset, 4) == le_value(bytes, offset, 2) + 0x1_0000 * le_value(
            bytes,
            offset + 2,
            2,
        ),
        le_value(bytes, offset, 8) == le_value(bytes, offset, 4) + 0x1_0000_0000 * le_value(
            bytes,
            offset + 4,
            4,
        ),
        le_value(bytes, offset, 1) <= u8::MAX,
        le_value(bytes, offset, 2) <= u16::MAX,
        le_value(bytes, offset, 4) <= u32::MAX,
        le_value(bytes, offset, 8) <= u64::MAX,
{
    reveal_with_fuel(le_value, 9);
}

proof fn lemma_join_u16(lo: u8, hi: u8)
    by (bit_vector)
    ensures
        ((hi as u16) << 8 | (lo as u16)) == lo as u16 + 0x100 * (hi as u16),
{
}

proof fn lemma_join_u32(b0: u8, b1: u8, b2: u8, b3: u8)
    by (bit_vector)
    ensures
        ((b3 as u32) << 24 | (b2 as u32) << 16 | (b1 as u32) << 8 | (b0 as u32)) == b0 as u32
            + 0x100 * (b1 as u32) + 0x1_0000 * (b2 as u32) + 0x100_0000 * (b3 as u32),
{
}

proof fn lemma_join_u64(lo: u32, hi: u32)
    by (bit_vector)
    ensures
        ((hi as u64) << 32 | (lo as u64)) == lo as u64 + 0x1_0000_0000 * (hi as u64),
{
}

/// What masking and shifting a byte yields, as quotients and remainders.
pub proof fn lemma_byte_fields(b: u8)
    by (bit_vector)
    ensures
        (b & 0xF0) >> 4 == b / 16,
        (b & 0x0F) >> 0 == b % 16,
        (b & 0x01) >> 0 == b % 2,
        (b & 0x02) >> 1 == b / 2 % 2,
        (b & 0x04) >> 2 == b / 4 % 2,
        (b & 0x08) >> 3 == b / 8 % 2,
        (b & 0x10) >> 4 == b / 16 % 2,
        (b & 0x20) >> 5 == b / 32 % 2,
        (b & 0x40) >> 6 == b / 64 % 2,
        (b & 0x80) >> 7 == b / 128,
        (b & 0xE0) >> 5 == b / 32,
        (b & 0x1F) == b % 32,
{
}


/// Reads the byte at `i`.
pub fn be2leu8(data: &[u8], i: usize) -> (r: u8)
    requires
        i < data.len(),
    ensures
        r == data@[i as int],
        r == le_value(data@, i as int, 1),
{
    proof {
        lemma_le_value_bounds(data@, i as int);
    }
    data[i]
}

/// Reads the two bytes at `i` as a 16-bit number, the byte at `i` being the
/// low one.
pub fn be2leu16(data: &[u8], i: usize) -> (r: u16)
    requires
        i + 2 <= data.len(),
    ensures
        r == (data@[i + 1] as u16) << 8 | (data@[i as int] as u16),
        r == le_value(data@, i as int, 2),
{
    proof {
        lemma_le_value_bounds(data@, i as int);
        lemma_join_u16(data@[i as int], data@[i + 1]);
    }
    (data[i + 1] as u16) << 8 | (data[i] as u16)
}

/// Reads the four bytes at `i` as a 32-bit number, the byte at `i` being the
/// lowest one.
pub fn be2leu32(data: &[u8], i: usize) -> (r: u32)
    requires
        i + 4 <= data.len(),
    ensures
        r == (data@[i + 3] as u32) << 24 | (data@[i + 2] as u32) << 16 | (data@[i + 1] as u32) << 8
            | (data@[i as int] as u32),
        r == le_value(data@, i as int, 4),
{
    proof {
        lemma_le_value_bounds(data@, i as int);
        lemma_le_value_bounds(data@, i + 2);
        lemma_join_u32(data@[i as int], data@[i + 1], data@[i + 2], data@[i + 3]);
    }
    (data[i + 3] as u32) << 24 | (data[i + 2] as u32) << 16 | (data[i + 1] as u32) << 8 | (
    data[i] as u32)
}

/// Reads the eight bytes at `i` as a 64-bit number, the byte at `i` being
/// the lowest one.
pub fn be2leu64(data: &[u8], i: usize) -> (r: u64)
    requires
        i + 8 <= data.len(),
    ensures
        r == le_value(data@, i as int, 8),
{
    let lo = be2leu32(data, i);
    let hi = be2leu32(data, i + 4);
    proof {
        lemma_le_value_bounds(data@, i as int);
        lemma_join_u64(lo, hi);
    }
    (hi as u64) << 32 | (lo as u64)
}

/// Reverses a fixed-size byte array end to end: the first byte changes
/// places with the last, the second with the last but one, and so on.
pub fn be_to_fe<const C: usize>(bytes: [u8; C]) -> (r: [u8; C])
    ensures
        r@ == bytes@.reverse(),
{
    let mut out = bytes;
    let middle: usize = C / 2;
    let mut i: usize = 0;
    while i < middle
        invariant
            middle == C / 2,
            i <= middle,
            out@.len() == C,
            bytes@.len() == C,
            forall|k: int| 0 <= k < i ==> out@[k] == bytes@[C - 1 - k],
            forall|k: int| C - i <= k < C ==> out@[k] == bytes@[C - 1 - k],
            forall|k: int| i <= k < C - i ==> out@[k] == bytes@[k],
        decreases middle - i,
    {
        let front = out[i];
        let back = out[C - 1 - i];
        out[i] = back;
        out[C - 1 - i] = front;
        i += 1;
    }
    assert(out@ =~= bytes@.reverse());
    out
}

} // verus!
