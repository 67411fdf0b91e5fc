//! A byte range of the linear region, and the one word that names it across
//! the boundary.
//!
//! The word is 32 bits wide. Its upper 16 bits hold the offset of the range and
//! its lower 16 bits hold the length. Both sides of the boundary read it so.

use vstd::prelude::*;
use crate::error::RibosomeErrorCode;

verus! {

/// Number of bits that each of the two fields takes in an encoded allocation.
pub const FIELD_BITS: u32 = 16;

/// Largest offset, and largest length, that an encoded allocation can carry.
pub const FIELD_MAX: u32 = 0xFFFF;

/// The bytes `[offset, offset + length)` of the linear region.
#[derive(Clone, Copy, Debug, PartialEq, Eq, Structural)]
pub struct Allocation {
    /// Index of the first byte of the range.
    pub offset: u32,
    /// Number of bytes in the range.
    pub length: u32,
}

impl Allocation {
    /// Index of the first byte after the range.
    pub open spec fn end(self) -> int {
        self.offset + self.length
    }

    /// Whether the range lies inside a region of `capacity` bytes.
    pub open spec fn within(self, capacity: int) -> bool {
        self.end() <= capacity
    }

    /// Whether both fields fit the width that the encoded word gives them.
    pub open spec fn encodable(self) -> bool {
        self.offset <= FIELD_MAX && self.length <= FIELD_MAX
    }

    /// The word that names this allocation: the offset above the length.
    pub open spec fn encode_spec(self) -> int {
        self.offset * 0x1_0000 + self.length
    }

    /// The allocation that `word` names.
    pub open spec fn decode_spec(word: u32) -> Allocation {
        Allocation { offset: (word / 0x1_0000) as u32, length: (word % 0x1_0000) as u32 }
    }

    /// Returns the allocation of `length` bytes that starts at `offset`.
    pub fn new(offset: u32, length: u32) -> (allocation: Allocation)
        ensures
            allocation == (Allocation { offset, length }),
    {
        Allocation { offset, length }
    }

    /// Packs this allocation into one word, or fails with `EncodingOverflow`
    /// where the offset or the length is too large for its field.
    pub fn encode(self) -> (encoded: Result<u32, RibosomeErrorCode>)
        ensures
            self.encodable() ==> encoded == Ok::<u32, RibosomeErrorCode>(self.encode_spec() as u32),
            self.encodable() ==> Self::decode_spec(self.encode_spec() as u32) == self,
            !self.encodable() ==> encoded == Err::<u32, RibosomeErrorCode>(
                RibosomeErrorCode::EncodingOverflow,
            ),
    {
        if self.offset > FIELD_MAX || self.length > FIELD_MAX {
            return Err(RibosomeErrorCode::EncodingOverflow);
        }
        let offset: u32 = self.offset;
        let length: u32 = self.length;
        assert((offset << 16) | length == offset * 0x1_0000 + length) by (bit_vector)
            requires
                offset <= 0xFFFF,
                length <= 0xFFFF,
        ;
        Ok((offset << FIELD_BITS) | length)
    }

    /// Unpacks the allocation that `word` names. Every word names one.
    pub fn decode(word: u32) -> (allocation: Allocation)
        ensures
            allocation == Self::decode_spec(word),
            allocation.encodable(),
            allocation.encode_spec() == word,
    {
        assert(word >> 16 == word / 0x1_0000) by (bit_vector);
        assert(word & 0xFFFF == word % 0x1_0000) by (bit_vector);
        Allocation { offset: word >> FIELD_BITS, length: word & FIELD_MAX }
    }

    /// Tells whether the range holds no byte.
    pub fn is_empty(self) -> (empty: bool)
        ensures
            empty == (self.length == 0),
    {
        self.length == 0
    }
}

/// Decoding the word of an allocation whose fields fit gives that allocation
/// back.
pub proof fn lemma_decode_inverts_encode(allocation: Allocation)
    requires
        allocation.encodable(),
    ensures
        allocation.encode_spec() <= u32::MAX,
        Allocation::decode_spec(allocation.encode_spec() as u32) == allocation,
{
}

/// Encoding the allocation that a word names gives that word back, so the
/// words and the allocations whose fields fit correspond one to one.
pub proof fn lemma_encode_inverts_decode(word: u32)
    ensures
        Allocation::decode_spec(word).encodable(),
        Allocation::decode_spec(word).encode_spec() == word,
{
}

/// Two allocations whose fields fit and that differ have different words.
pub proof fn lemma_encode_injective(first: Allocation, second: Allocation)
    requires
        first.encodable(),
        second.encodable(),
        first.encode_spec() == second.encode_spec(),
    ensures
        first == second,
{
    lemma_decode_inverts_encode(first);
    lemma_decode_inverts_encode(second);
}

} // verus!
