//! Extraction of a range of bits from a byte slice.

use crate::endian::{be2leu16, be2leu32, be2leu64, be2leu8, le_value, lemma_le_value_bounds};
use crate::error::{Error, Layer};
use core::ops::Range;
use vstd::arithmetic::power2::{lemma2_to64, lemma_pow2_pos, pow2};
use vstd::bits::{
    lemma_u64_low_bits_mask_is_mod, lemma_u64_pow2_no_overflow, lemma_u64_shl_is_mul,
    lemma_u64_shr_is_div,
};
use vstd::prelude::*;

verus! {

/// The widest range of bits that can be extracted.
pub const MAX_RANGE_BITS: usize = 64;

/// The number of bits in the half-open range from `start` to `end`; a range
/// that ends before it starts holds none.
pub open spec fn span(start: int, end: int) -> int {
    if end > start {
        end - start
    } else {
        0
    }
}

/// The number of bytes read for a range of `bits` bits: the least of 1, 2,
/// 4 and 8 that holds as many bits.
pub open spec fn word_bytes(bits: int) -> nat {
    if bits <= 8 {
        1
    } else if bits <= 16 {
        2
    } else if bits <= 32 {
        4
    } else {
        8
    }
}

/// The value of the bits from `start` to `end`: the word read at the byte
/// that holds bit `start`, without its `start % 8` lowest bits and without
/// all bits above the width of the range.
pub open spec fn bit_range(bytes: Seq<u8>, start: int, end: int) -> nat {
    let word = le_value(bytes, start / 8, word_bytes(span(start, end)));
    (word / pow2((start % 8) as nat)) % pow2(span(start, end) as nat)
}

/// What extracting the bits from `start` to `end` of `bytes` comes to: the
/// value, or the reason why there is none.
pub open spec fn extraction(bytes: Seq<u8>, start: int, end: int) -> Result<nat, Error> {
    let bits = span(start, end);
    if bits > MAX_RANGE_BITS {
        Err(Error::InvalidRange { width: bits as usize })
    } else if start / 8 + word_bytes(bits) > bytes.len() {
        Err(
            Error::TooShort {
                layer: Layer::BitField,
                needed: (start / 8 + word_bytes(bits)) as usize,
                got: bytes.len() as usize,
            },
        )
    } else {
        Ok(bit_range(bytes, start, end))
    }
}

/// The full range of a single byte is that byte.
pub proof fn lemma_whole_byte(bytes: Seq<u8>)
    requires
        bytes.len() >= 1,
    ensures
        bit_range(bytes, 0, 8) == bytes[0],
        extraction(bytes, 0, 8) == Ok::<nat, Error>(bytes[0] as nat),
{
    lemma2_to64();
    lemma_le_value_bounds(bytes, 0);
    assert(span(0, 8) == 8);
    assert(le_value(bytes, 0int / 8, word_bytes(8)) == bytes[0]);
    assert(pow2((0int % 8) as nat) == 1);
    assert(pow2(8) == 256);
    assert((bytes[0] as nat / 1) % 256 == bytes[0]);
}

/// Extracting a range yields a value below two to the width of the range.
pub proof fn lemma_bit_range_bound(bytes: Seq<u8>, start: int, end: int)
    ensures
        bit_range(bytes, start, end) < pow2(span(start, end) as nat),
{
    lemma_pow2_pos(span(start, end) as nat);
}

/// A byte slice addressed by bit.
pub struct BitArray<'a> {
    data: &'a [u8],
}

impl<'a> BitArray<'a> {
    /// The bytes that the bits are taken from.
    pub closed spec fn view(&self) -> Seq<u8> {
        self.data@
    }

    /// The bits of `data`.
    pub fn new(data: &'a [u8]) -> (r: Self)
        ensures
            r@ == data@,
    {
        Self { data }
    }

    /// The value of the bits in `range`, cut to the machine word.
    pub fn at(&self, range: Range<usize>) -> (r: Result<usize, Error>)
        ensures
            match extraction(self@, range.start as int, range.end as int) {
                Ok(value) => r == Ok::<usize, Error>(value as usize),
                Err(e) => r == Err::<usize, Error>(e),
            },
    {
        let bits: usize = if range.end > range.start {
            range.end - range.start
        } else {
            0
        };
        if bits > MAX_RANGE_BITS {
            return Err(Error::InvalidRange { width: bits });
        }
        let first: usize = range.start / 8;
        let needed: usize = if bits <= 8 {
            1
        } else if bits <= 16 {
            2
        } else if bits <= 32 {
            4
        } else {
            8
        };
        let len = self.data.len();
        if len < needed || first > len - needed {
            return Err(Error::TooShort { layer: Layer::BitField, needed: first + needed, got: len });
        }
        proof {
            lemma_le_value_bounds(self.data@, first as int);
        }
        let word: u64 = if bits <= 8 {
            be2leu8(self.data, first) as u64
        } else if bits <= 16 {
            be2leu16(self.data, first) as u64
        } else if bits <= 32 {
            be2leu32(self.data, first) as u64
        } else {
            be2leu64(self.data, first)
        };
        let shift: u64 = (range.start % 8) as u64;
        let width: u64 = bits as u64;
        let shifted: u64 = word >> shift;
        proof {
            lemma_u64_shr_is_div(word, shift);
        }
        let value: u64 = if width >= 64 {
            proof {
                lemma2_to64();
                vstd::arithmetic::power2::lemma2_to64_rest();
                assert(shifted as nat % pow2(64) == shifted);
            }
            shifted
        } else {
            proof {
                lemma_u64_pow2_no_overflow(width as nat);
                lemma_u64_shl_is_mul(1, width);
                lemma_u64_low_bits_mask_is_mod(shifted, width as nat);
            }
            shifted & ((1u64 << width) - 1)
        };
        Ok(#[verifier::truncate] (value as usize))
    }
}

} // verus!
