//! The linear region: the one run of bytes that a guest and its host share.

use vstd::prelude::*;
use crate::allocation::Allocation;
use crate::error::RibosomeErrorCode;

verus! {

/// The bytes that `allocation` names in `memory`.
pub open spec fn bytes_at(memory: Seq<u8>, allocation: Allocation) -> Seq<u8>
    recommends
        allocation.within(memory.len() as int),
{
    memory.subrange(allocation.offset as int, allocation.end())
}

/// `memory` after `bytes` were written from index `offset` on.
pub open spec fn written(memory: Seq<u8>, offset: int, bytes: Seq<u8>) -> Seq<u8>
    recommends
        0 <= offset,
        offset + bytes.len() <= memory.len(),
{
    Seq::new(
        memory.len(),
        |i: int|
            if offset <= i < offset + bytes.len() {
                bytes[i - offset]
            } else {
                memory[i]
            },
    )
}

/// Whether two allocations share no byte.
pub open spec fn disjoint(first: Allocation, second: Allocation) -> bool {
    first.end() <= second.offset || second.end() <= first.offset
}

/// A region of a fixed number of bytes. Its view is the sequence of its bytes.
#[derive(Debug)]
pub struct LinearRegion {
    bytes: Vec<u8>,
}

impl View for LinearRegion {
    type V = Seq<u8>;

    closed spec fn view(&self) -> Seq<u8> {
        self.bytes@
    }
}

impl LinearRegion {
    /// The size of a region fits the offsets that an allocation can hold.
    #[verifier::type_invariant]
    pub closed spec fn well_formed(self) -> bool {
        self.bytes@.len() <= u32::MAX
    }

    /// What the invariant means for the view: the number of bytes fits a word.
    pub proof fn lemma_bounds(self)
        requires
            self.well_formed(),
        ensures
            self@.len() <= u32::MAX,
    {
    }

    /// Returns a region of `capacity` bytes, all of them zero.
    pub fn new(capacity: u32) -> (region: LinearRegion)
        ensures
            region@ == Seq::new(capacity as nat, |i: int| 0u8),
    {
        let mut bytes: Vec<u8> = Vec::new();
        let mut filled: u32 = 0;
        while filled < capacity
            invariant
                filled <= capacity,
                bytes@ == Seq::new(filled as nat, |i: int| 0u8),
            decreases capacity - filled,
        {
            bytes.push(0u8);
            filled = filled + 1;
        }
        LinearRegion { bytes }
    }

    /// Returns the number of bytes of the region.
    pub fn capacity(&self) -> (capacity: u32)
        ensures
            capacity == self@.len(),
    {
        proof {
            use_type_invariant(self);
        }
        self.bytes.len() as u32
    }

    /// Returns a copy of the bytes that `allocation` names, or `None` where the
    /// allocation does not lie inside the region.
    pub fn read(&self, allocation: Allocation) -> (bytes: Option<Vec<u8>>)
        ensures
            allocation.within(self@.len() as int) ==> bytes is Some && bytes->Some_0@ == bytes_at(
                self@,
                allocation,
            ),
            !allocation.within(self@.len() as int) ==> bytes is None,
    {
        proof {
            use_type_invariant(self);
        }
        let size: usize = self.bytes.len();
        let start: usize = allocation.offset as usize;
        let count: usize = allocation.length as usize;
        if start > size || count > size - start {
            return None;
        }
        let mut copy: Vec<u8> = Vec::new();
        let mut done: usize = 0;
        while done < count
            invariant
                done <= count,
                start + count <= size,
                size == self.bytes@.len(),
                copy@ == self.bytes@.subrange(start as int, start + done),
            decreases count - done,
        {
            copy.push(self.bytes[start + done]);
            done = done + 1;
        }
        Some(copy)
    }

    /// Writes `bytes` from index `offset` on and returns the allocation that
    /// now holds them. Fails with `OutOfMemory`, and writes nothing, where the
    /// bytes do not fit between `offset` and the end of the region.
    pub fn write(&mut self, offset: u32, bytes: &[u8]) -> (stored: Result<
        Allocation,
        RibosomeErrorCode,
    >)
        ensures
            final(self)@.len() == old(self)@.len(),
            offset + bytes@.len() <= old(self)@.len() ==> stored == Ok::<
                Allocation,
                RibosomeErrorCode,
            >(Allocation { offset, length: bytes@.len() as u32 }) && final(self)@ == written(
                old(self)@,
                offset as int,
                bytes@,
            ),
            offset + bytes@.len() > old(self)@.len() ==> stored == Err::<
                Allocation,
                RibosomeErrorCode,
            >(RibosomeErrorCode::OutOfMemory) && final(self)@ == old(self)@,
    {
        proof {
            use_type_invariant(&*self);
        }
        let size: usize = self.bytes.len();
        let start: usize = offset as usize;
        let count: usize = bytes.len();
        if start > size || count > size - start {
            return Err(RibosomeErrorCode::OutOfMemory);
        }
        let mut done: usize = 0;
        while done < count
            invariant
                done <= count,
                start + count <= size,
                count == bytes@.len(),
                size <= u32::MAX,
                size == self.bytes@.len(),
                size == old(self).bytes@.len(),
                self.bytes@ == written(
                    old(self).bytes@,
                    start as int,
                    bytes@.subrange(0, done as int),
                ),
            decreases count - done,
        {
            self.bytes[start + done] = bytes[done];
            done = done + 1;
        }
        assert(bytes@.subrange(0, count as int) == bytes@);
        Ok(Allocation { offset, length: count as u32 })
    }
}

/// The bytes just written are the bytes read back from the allocation that the
/// write returned.
pub proof fn lemma_read_after_write(memory: Seq<u8>, offset: int, bytes: Seq<u8>)
    requires
        0 <= offset,
        offset + bytes.len() <= memory.len(),
    ensures
        written(memory, offset, bytes).subrange(offset, offset + bytes.len()) == bytes,
{
}

/// A write leaves every allocation that shares no byte with it as it was.
pub proof fn lemma_write_keeps_disjoint(
    memory: Seq<u8>,
    offset: u32,
    bytes: Seq<u8>,
    other: Allocation,
)
    requires
        offset + bytes.len() <= memory.len(),
        memory.len() <= u32::MAX,
        other.within(memory.len() as int),
        disjoint(Allocation { offset, length: bytes.len() as u32 }, other),
    ensures
        bytes_at(written(memory, offset as int, bytes), other) == bytes_at(memory, other),
{
}

} // verus!
