//! The stack allocator of the linear region.
//!
//! The stack is a cursor, `top`, at the first free byte of the region. Bytes
//! are taken from `top` upwards and given back in the reverse order only. The
//! region is reset between calls, so nothing more general is needed.

use vstd::prelude::*;
use crate::allocation::Allocation;
use crate::error::RibosomeErrorCode;

verus! {

/// What a stack is to its callers: the index of its first free byte and the
/// number of bytes of the region that it may use.
pub struct StackView {
    pub top: nat,
    pub capacity: nat,
}

/// A cursor into the linear region. It owns no bytes; it only tracks where the
/// free bytes begin.
#[derive(Clone, Copy, Debug)]
pub struct Stack {
    top: u32,
    capacity: u32,
}

impl View for Stack {
    type V = StackView;

    closed spec fn view(&self) -> StackView {
        StackView { top: self.top as nat, capacity: self.capacity as nat }
    }
}

impl StackView {
    /// Whether this is the view of a stack: the first free byte lies at or
    /// below the capacity, and both fit a word.
    pub open spec fn valid(self) -> bool {
        self.top <= self.capacity <= u32::MAX
    }

    /// Whether `length` more bytes fit.
    pub open spec fn has_room(self, length: nat) -> bool {
        self.top + length <= self.capacity
    }

    /// Whether `allocation` is the most recent live allocation: the one that
    /// ends at the first free byte.
    pub open spec fn is_top(self, allocation: Allocation) -> bool {
        allocation.end() == self.top
    }

    /// The stack after `length` bytes were taken from it, with the allocation
    /// that holds them; `OutOfMemory` where they do not fit.
    pub open spec fn allocated(self, length: nat) -> Result<
        (StackView, Allocation),
        RibosomeErrorCode,
    > {
        if self.has_room(length) {
            Ok(
                (
                    StackView { top: self.top + length, capacity: self.capacity },
                    Allocation { offset: self.top as u32, length: length as u32 },
                ),
            )
        } else {
            Err(RibosomeErrorCode::OutOfMemory)
        }
    }

    /// The stack after `allocation` was given back; `StackCorruption` where it
    /// is not the most recent live allocation.
    pub open spec fn deallocated(self, allocation: Allocation) -> Result<
        StackView,
        RibosomeErrorCode,
    > {
        if self.is_top(allocation) {
            Ok(StackView { top: allocation.offset as nat, capacity: self.capacity })
        } else {
            Err(RibosomeErrorCode::StackCorruption)
        }
    }
}

impl Stack {
    /// The first free byte never lies beyond the capacity.
    #[verifier::type_invariant]
    pub closed spec fn well_formed(self) -> bool {
        self.top <= self.capacity
    }

    /// What the invariant means for the view: the first free byte lies at or
    /// below the capacity, and both fit a word.
    pub proof fn lemma_bounds(self)
        requires
            self.well_formed(),
        ensures
            self@.valid(),
    {
    }

    /// Returns a stack over `capacity` bytes, none of them taken.
    pub fn new(capacity: u32) -> (stack: Stack)
        ensures
            stack@ == (StackView { top: 0, capacity: capacity as nat }),
    {
        Stack { top: 0, capacity }
    }

    /// Returns the stack of a call whose input is named by `word`, over a
    /// region of `capacity` bytes. The input is taken as occupied, so the first
    /// free byte is the one after it. Fails with `OutOfMemory` where the input
    /// does not lie inside the region.
    pub fn from_encoded(word: u32, capacity: u32) -> (made: Result<Stack, RibosomeErrorCode>)
        ensures
            Allocation::decode_spec(word).within(capacity as int) ==> made is Ok && made->Ok_0@ == (
            StackView {
                top: Allocation::decode_spec(word).end() as nat,
                capacity: capacity as nat,
            }),
            !Allocation::decode_spec(word).within(capacity as int) ==> made == Err::<
                Stack,
                RibosomeErrorCode,
            >(RibosomeErrorCode::OutOfMemory),
    {
        let input: Allocation = Allocation::decode(word);
        let end: u32 = input.offset + input.length;
        if end > capacity {
            return Err(RibosomeErrorCode::OutOfMemory);
        }
        Ok(Stack { top: end, capacity })
    }

    /// Takes the next `length` bytes. Fails with `OutOfMemory`, and changes
    /// nothing, where fewer than `length` bytes are free.
    pub fn allocate(&mut self, length: u32) -> (taken: Result<Allocation, RibosomeErrorCode>)
        ensures
            match old(self)@.allocated(length as nat) {
                Ok((after, allocation)) => {
                    &&& taken == Ok::<Allocation, RibosomeErrorCode>(allocation)
                    &&& final(self)@ == after
                },
                Err(failure) => {
                    &&& taken == Err::<Allocation, RibosomeErrorCode>(failure)
                    &&& final(self)@ == old(self)@
                },
            },
    {
        proof {
            use_type_invariant(&*self);
        }
        if length > self.capacity - self.top {
            return Err(RibosomeErrorCode::OutOfMemory);
        }
        let offset: u32 = self.top;
        self.top = offset + length;
        Ok(Allocation { offset, length })
    }

    /// Gives `allocation` back. Succeeds only for the most recent live
    /// allocation, the one that ends at the first free byte, and then moves the
    /// first free byte to its start. Fails with `StackCorruption`, and changes
    /// nothing, for any other allocation.
    pub fn deallocate(&mut self, allocation: Allocation) -> (given: Result<(), RibosomeErrorCode>)
        ensures
            match old(self)@.deallocated(allocation) {
                Ok(after) => {
                    &&& given == Ok::<(), RibosomeErrorCode>(())
                    &&& final(self)@ == after
                },
                Err(failure) => {
                    &&& given == Err::<(), RibosomeErrorCode>(failure)
                    &&& final(self)@ == old(self)@
                },
            },
    {
        proof {
            use_type_invariant(&*self);
        }
        if allocation.offset > self.top || self.top - allocation.offset != allocation.length {
            return Err(RibosomeErrorCode::StackCorruption);
        }
        self.top = allocation.offset;
        Ok(())
    }

    /// Returns the index of the first free byte.
    pub fn top(&self) -> (top: u32)
        ensures
            top == self@.top,
            top <= self@.capacity,
    {
        proof {
            use_type_invariant(self);
        }
        self.top
    }

    /// Returns the number of bytes of the region that this stack may use.
    pub fn capacity(&self) -> (capacity: u32)
        ensures
            capacity == self@.capacity,
    {
        self.capacity
    }

    /// Returns the number of bytes that are still free.
    pub fn available(&self) -> (free: u32)
        ensures
            free == self@.capacity - self@.top,
    {
        proof {
            use_type_invariant(self);
        }
        self.capacity - self.top
    }
}

/// The stack discipline: giving back the allocation that was just made puts
/// the stack back where it was before the allocation.
pub proof fn lemma_deallocate_undoes_allocate(stack: StackView, length: u32)
    requires
        stack.valid(),
    ensures
        stack.allocated(length as nat) matches Ok((grown, allocation)) ==> {
            &&& grown.valid()
            &&& allocation.offset == stack.top
            &&& grown.deallocated(allocation) == Ok::<StackView, RibosomeErrorCode>(stack)
        },
{
}

/// Only the most recent live allocation can be given back: any other is
/// refused with `StackCorruption`, so an allocation made earlier cannot leave
/// before one made after it.
pub proof fn lemma_deallocate_refuses_lower(stack: StackView, first: u32, second: u32)
    requires
        stack.valid(),
        second > 0,
    ensures
        stack.allocated(first as nat) matches Ok((once, lower)) ==> (once.allocated(
            second as nat,
        ) matches Ok((twice, upper)) ==> {
            &&& twice.deallocated(lower) == Err::<StackView, RibosomeErrorCode>(
                RibosomeErrorCode::StackCorruption,
            )
            &&& twice.deallocated(upper) == Ok::<StackView, RibosomeErrorCode>(once)
        }),
{
}

/// A stack without room refuses the allocation, and a stack with room never
/// does: `OutOfMemory` is returned exactly where `top + length` exceeds the
/// capacity.
pub proof fn lemma_allocate_exhaustion(stack: StackView, length: u32)
    ensures
        stack.allocated(length as nat) is Err <==> stack.top + length > stack.capacity,
        stack.allocated(length as nat) is Err ==> stack.allocated(length as nat) == Err::<
            (StackView, Allocation),
            RibosomeErrorCode,
        >(RibosomeErrorCode::OutOfMemory),
{
}

} // verus!
