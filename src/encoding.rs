//! The single 64-bit word passed to and returned by a guest export.
//!
//! The high 32 bits carry an offset or a failure code, the low 32 bits a
//! length. A non-zero low half marks a payload in guest memory; with a zero
//! low half, a zero high half is `Success` and any other value is a failure
//! code. Every word decodes to exactly one value, and back.
use vstd::prelude::*;

use crate::allocation::AllocationDescriptor;

verus! {

/// The value carried by one encoded word.
#[derive(Clone, Copy, Debug, PartialEq, Eq, Structural)]
pub enum EncodedResult {
    Success,
    Failure(u32),
    DataAt(AllocationDescriptor),
}

/// The high half of a word.
pub open spec fn high_half(w: u64) -> u32 {
    (w >> 32u64) as u32
}

/// The low half of a word.
pub open spec fn low_half(w: u64) -> u32 {
    (w & 0xffff_ffffu64) as u32
}

/// The word made of a high and a low half.
pub open spec fn join_halves(hi: u32, lo: u32) -> u64 {
    ((hi as u64) << 32u64) | (lo as u64)
}

impl EncodedResult {
    /// A value that has a word: failure codes are non-zero and payloads
    /// are never empty (an empty payload is written as `Success`).
    pub open spec fn representable(self) -> bool {
        match self {
            EncodedResult::Success => true,
            EncodedResult::Failure(code) => code != 0,
            EncodedResult::DataAt(d) => d.length != 0,
        }
    }
}

/// The word of a representable value.
pub open spec fn encode_spec(x: EncodedResult) -> u64 {
    match x {
        EncodedResult::Success => 0,
        EncodedResult::Failure(code) => join_halves(code, 0),
        EncodedResult::DataAt(d) => join_halves(d.offset, d.length),
    }
}

/// The value that a word carries.
pub open spec fn decode_spec(w: u64) -> EncodedResult {
    if low_half(w) != 0 {
        EncodedResult::DataAt(AllocationDescriptor { offset: high_half(w), length: low_half(w) })
    } else if high_half(w) == 0 {
        EncodedResult::Success
    } else {
        EncodedResult::Failure(high_half(w))
    }
}

proof fn lemma_halves_of_join(hi: u32, lo: u32)
    ensures
        high_half(join_halves(hi, lo)) == hi,
        low_half(join_halves(hi, lo)) == lo,
{
    assert((((((hi as u64) << 32u64) | (lo as u64)) >> 32u64) as u32) == hi) by (bit_vector);
    assert((((((hi as u64) << 32u64) | (lo as u64)) & 0xffff_ffffu64) as u32) == lo)
        by (bit_vector);
}

proof fn lemma_join_of_halves(w: u64)
    ensures
        join_halves(high_half(w), low_half(w)) == w,
        w == 0 <==> (high_half(w) == 0 && low_half(w) == 0),
{
    assert(((((w >> 32u64) as u32) as u64) << 32u64) | (((w & 0xffff_ffffu64) as u32) as u64)
        == w) by (bit_vector);
    assert(w == 0 <==> (((w >> 32u64) as u32) == 0 && ((w & 0xffff_ffffu64) as u32) == 0))
        by (bit_vector);
}

/// Decoding the word of a representable value gives that value back.
pub proof fn lemma_decode_encode(x: EncodedResult)
    requires
        x.representable(),
    ensures
        decode_spec(encode_spec(x)) == x,
{
    match x {
        EncodedResult::Success => {
            lemma_join_of_halves(0);
        },
        EncodedResult::Failure(code) => {
            lemma_halves_of_join(code, 0);
        },
        EncodedResult::DataAt(d) => {
            lemma_halves_of_join(d.offset, d.length);
        },
    }
}

/// Every word decodes to a representable value whose word is the word itself:
/// no word is left without a meaning.
pub proof fn lemma_encode_decode(w: u64)
    ensures
        decode_spec(w).representable(),
        encode_spec(decode_spec(w)) == w,
{
    lemma_join_of_halves(w);
    if low_half(w) == 0 {
        assert(join_halves(0, 0) == 0) by (bit_vector);
    }
}

/// Packs a representable value into its word.
pub fn encode(x: EncodedResult) -> (w: u64)
    requires
        x.representable(),
    ensures
        w == encode_spec(x),
        decode_spec(w) == x,
{
    proof {
        lemma_decode_encode(x);
    }
    match x {
        EncodedResult::Success => 0,
        EncodedResult::Failure(code) => ((code as u64) << 32u64) | (0u32 as u64),
        EncodedResult::DataAt(d) => ((d.offset as u64) << 32u64) | (d.length as u64),
    }
}

/// Reads the value that a word carries; every word has one.
pub fn decode(w: u64) -> (x: EncodedResult)
    ensures
        x == decode_spec(w),
        x.representable(),
        encode_spec(x) == w,
{
    proof {
        lemma_encode_decode(w);
    }
    let hi: u32 = (w >> 32u64) as u32;
    let lo: u32 = (w & 0xffff_ffffu64) as u32;
    if lo != 0 {
        EncodedResult::DataAt(AllocationDescriptor { offset: hi, length: lo })
    } else if hi == 0 {
        EncodedResult::Success
    } else {
        EncodedResult::Failure(hi)
    }
}

} // verus!
