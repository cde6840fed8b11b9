//! The state of one entry into the runtime.
//!
//! A [`HostState`] is made when the runtime is entered and dropped when the
//! entry returns. Every host function called in between shares it. The
//! registry and the allocator sit in slots that can be emptied for the length
//! of one operation and must be filled again before the operation ends.

use vstd::prelude::*;

use crate::allocator::{
    allocation_counters, allocation_outcome, allocator_allocate, allocator_deallocate,
    allocator_stats, block_size, deallocation_outcome, freed, occupied_block, AllocationStats,
    HEADER_SIZE, MAX_COUNTED_BYTES,
};
use crate::error::{AllocatorError, HostError};
use crate::memory::{
    page_count, same_but_range, LinearMemory, Memory, MAX_POSSIBLE_ALLOCATION,
};
use crate::store::{InstanceEntry, Store};

verus! {

/// The state that host calls of one runtime entry share.
pub struct HostState {
    sandbox_store: Option<Box<Store>>,
    allocator: Option<sc_allocator::FreeingBumpHeapAllocator>,
    panic_message: Option<String>,
}

/// The result of a host call for what the allocator answered: its value, or
/// its refusal as a failure of the call.
pub open spec fn call_result<T>(outcome: Result<T, AllocatorError>) -> Result<T, HostError> {
    match outcome {
        Ok(value) => Ok(value),
        Err(error) => Err(HostError::Allocator(error)),
    }
}

/// The result of a request for `size` bytes: what the allocator answers,
/// unless its count of allocated bytes leaves no room for the largest block,
/// in which case it is not asked and the call fails.
pub open spec fn allocation_result(
    allocator: sc_allocator::FreeingBumpHeapAllocator,
    contents: Seq<u8>,
    limit: Option<u32>,
    size: u32,
) -> Result<u32, HostError> {
    if allocation_counters(allocator).bytes_allocated > MAX_COUNTED_BYTES {
        Err(HostError::HeapCounterFull)
    } else {
        call_result(allocation_outcome(allocator, contents, limit, size))
    }
}

impl HostState {
    /// The registry, unless it is taken out at the moment.
    pub closed spec fn registry(&self) -> Option<Store> {
        match self.sandbox_store {
            Some(store) => Some(*store),
            None => None,
        }
    }

    /// Whether the allocator is in its slot.
    pub open spec fn allocator_present(&self) -> bool {
        self.allocator_slot() is Some
    }

    /// The allocator slot itself.
    pub closed spec fn allocator_slot(&self) -> Option<sc_allocator::FreeingBumpHeapAllocator> {
        self.allocator
    }

    /// The counters of the allocator that is in the slot.
    pub open spec fn counters(&self) -> AllocationStats
        recommends
            self.allocator_present(),
    {
        allocation_counters(self.allocator_slot()->0)
    }

    /// The panic message a guest has left, if any.
    pub closed spec fn message(&self) -> Option<Seq<char>> {
        match self.panic_message {
            Some(text) => Some(text@),
            None => None,
        }
    }

    /// The invariant of the host state: a registry that is present is well
    /// formed.
    pub open spec fn wf(&self) -> bool {
        self.registry() matches Some(store) ==> store.wf()
    }

    /// Constructs the state for a runtime entry: an empty registry, the given
    /// allocator and no panic message.
    pub fn new(allocator: sc_allocator::FreeingBumpHeapAllocator) -> (state: HostState)
        ensures
            state.wf(),
            state.allocator_slot() == Some(allocator),
            state.allocator_present(),
            state.message() is None,
            state.registry() matches Some(store) && store.instances() == Seq::<
                Option<InstanceEntry>,
            >::empty() && store.memories() == Seq::<Option<LinearMemory>>::empty(),
    {
        HostState {
            sandbox_store: Some(Box::new(Store::new())),
            allocator: Some(allocator),
            panic_message: None,
        }
    }

    /// Takes the panic message out of the host state, leaving none behind.
    pub fn take_panic_message(&mut self) -> (taken: Option<String>)
        ensures
            final(self).message() is None,
            final(self).registry() == old(self).registry(),
            final(self).allocator_slot() == old(self).allocator_slot(),
            match taken {
                Some(text) => old(self).message() == Some(text@),
                None => old(self).message() is None,
            },
    {
        self.panic_message.take()
    }

    /// Records `message` as the panic message, over any earlier one.
    pub fn register_panic_error_message(&mut self, message: &str)
        ensures
            final(self).message() == Some(message@),
            final(self).registry() == old(self).registry(),
            final(self).allocator_slot() == old(self).allocator_slot(),
    {
        self.panic_message = Some(message.to_owned());
    }

    /// Whether the registry is in its slot.
    pub fn has_sandbox_store(&self) -> (present: bool)
        ensures
            present == self.registry() is Some,
    {
        self.sandbox_store.is_some()
    }

    /// Whether the allocator is in its slot.
    pub fn has_allocator(&self) -> (present: bool)
        ensures
            present == self.allocator_present(),
    {
        self.allocator.is_some()
    }

    /// The counters of the allocator that is in the slot.
    pub fn allocation_stats(&self) -> (stats: AllocationStats)
        requires
            self.allocator_present(),
        ensures
            stats == self.counters(),
    {
        allocator_stats(self.allocator.as_ref().unwrap())
    }

    /// Takes the allocator out of its slot. Allocating needs the memory and
    /// the allocator at once, and both are reached through the same store.
    pub fn take_allocator(&mut self) -> (allocator: sc_allocator::FreeingBumpHeapAllocator)
        requires
            old(self).allocator_present(),
        ensures
            old(self).allocator_slot() == Some(allocator),
            !final(self).allocator_present(),
            final(self).registry() == old(self).registry(),
            final(self).message() == old(self).message(),
    {
        self.allocator.take().unwrap()
    }

    /// Puts the allocator back into its slot and gives the result of the host
    /// call for what the allocator answered: its value, or its refusal as a
    /// failure of the call. The allocator is back in either case.
    pub fn restore_allocator<T>(
        &mut self,
        allocator: sc_allocator::FreeingBumpHeapAllocator,
        outcome: Result<T, AllocatorError>,
    ) -> (result: Result<T, HostError>)
        ensures
            final(self).allocator_slot() == Some(allocator),
            final(self).allocator_present(),
            final(self).registry() == old(self).registry(),
            final(self).message() == old(self).message(),
            result == call_result(outcome),
    {
        self.allocator = Some(allocator);
        match outcome {
            Ok(value) => Ok(value),
            Err(error) => Err(HostError::Allocator(error)),
        }
    }

    /// Allocates `size` bytes on the heap inside `memory`.
    ///
    /// The allocator leaves its slot for the call and is back in it when the
    /// call returns, whether the allocation succeeded or not. The answer is
    /// the allocator's: its pointer, or its refusal as a failure of the call.
    /// The one request that is not put to the allocator is one made while its
    /// count of allocated bytes leaves no room for the largest block, which
    /// the allocator would add without a check; that request fails with
    /// [`HostError::HeapCounterFull`]. Of the bytes that were in the memory,
    /// only the header in front of the new block changes.
    pub fn allocate_memory(&mut self, memory: &mut LinearMemory, size: u32) -> (result: Result<
        u32,
        HostError,
    >)
        requires
            old(self).allocator_present(),
            old(memory).wf(),
        ensures
            final(self).allocator_present(),
            final(self).registry() == old(self).registry(),
            final(self).message() == old(self).message(),
            final(memory).wf(),
            final(memory).limit() == old(memory).limit(),
            final(memory)@.len() >= old(memory)@.len(),
            result == allocation_result(
                old(self).allocator_slot()->0,
                old(memory)@,
                old(memory).limit(),
                size,
            ),
            size > MAX_POSSIBLE_ALLOCATION ==> result is Err,
            old(self).counters().bytes_allocated > MAX_COUNTED_BYTES ==> final(self).allocator_slot()
                == old(self).allocator_slot(),
            result matches Ok(pointer) ==> {
                &&& HEADER_SIZE <= pointer
                &&& pointer as nat + size as nat <= final(memory)@.len()
                &&& same_but_range(
                    old(memory)@,
                    final(memory)@,
                    pointer - HEADER_SIZE,
                    HEADER_SIZE as int,
                )
                &&& occupied_block(final(memory)@, pointer) == Some(block_size(size))
                &&& final(self).counters().bytes_allocated == old(self).counters().bytes_allocated
                    + block_size(size) + HEADER_SIZE
                &&& deallocation_outcome(
                    final(self).allocator_slot()->0,
                    final(memory)@,
                    final(memory).limit(),
                    pointer,
                ) is Ok
            },
            result is Err ==> {
                &&& final(memory)@ == old(memory)@
                &&& final(self).counters() == old(self).counters()
            },
    {
        if self.allocation_stats().bytes_allocated > MAX_COUNTED_BYTES {
            return Err(HostError::HeapCounterFull);
        }
        let mut allocator = self.take_allocator();
        let outcome = allocator_allocate(&mut allocator, memory, size);
        self.restore_allocator(allocator, outcome)
    }

    /// Frees the block at `pointer` on the heap inside `memory`.
    ///
    /// The allocator leaves its slot for the call and is back in it when the
    /// call returns, whether the block was freed or not. The answer is the
    /// allocator's. A block is freed only where the eight bytes in front of
    /// the pointer are the header of an occupied block, and is then no longer
    /// occupied: freeing it again fails. Only that header changes.
    pub fn deallocate_memory(&mut self, memory: &mut LinearMemory, pointer: u32) -> (result: Result<
        (),
        HostError,
    >)
        requires
            old(self).allocator_present(),
            old(memory).wf(),
        ensures
            final(self).allocator_present(),
            final(self).registry() == old(self).registry(),
            final(self).message() == old(self).message(),
            final(memory).wf(),
            final(memory).limit() == old(memory).limit(),
            final(memory)@.len() == old(memory)@.len(),
            result == call_result(
                deallocation_outcome(
                    old(self).allocator_slot()->0,
                    old(memory)@,
                    old(memory).limit(),
                    pointer,
                ),
            ),
            same_but_range(
                old(memory)@,
                final(memory)@,
                pointer - HEADER_SIZE,
                HEADER_SIZE as int,
            ),
            result is Ok ==> {
                &&& occupied_block(old(memory)@, pointer) matches Some(block)
                &&& freed(old(self).counters(), final(self).counters(), block)
                &&& occupied_block(final(memory)@, pointer) is None
            },
            result matches Err(error) ==> {
                &&& error is Allocator
                &&& final(self).counters() == old(self).counters()
            },
    {
        let mut allocator = self.take_allocator();
        let outcome = allocator_deallocate(&mut allocator, memory, pointer);
        self.restore_allocator(allocator, outcome)
    }

    /// The registry.
    pub fn sandbox_store(&self) -> (store: &Store)
        requires
            self.registry() is Some,
        ensures
            Some(*store) == self.registry(),
    {
        self.sandbox_store.as_ref().unwrap()
    }

    /// The registry, to change it.
    pub fn sandbox_store_mut(&mut self) -> (store: &mut Store)
        requires
            old(self).registry() is Some,
        ensures
            Some(*store) == old(self).registry(),
            final(self).registry() == Some(*final(store)),
            final(self).allocator_slot() == old(self).allocator_slot(),
            final(self).message() == old(self).message(),
    {
        self.sandbox_store.as_mut().unwrap()
    }

    /// Takes the registry out of its slot for the length of an operation that
    /// may re-enter the host.
    pub fn take_sandbox_store(&mut self) -> (store: Box<Store>)
        requires
            old(self).registry() is Some,
        ensures
            Some(*store) == old(self).registry(),
            final(self).registry() is None,
            final(self).allocator_slot() == old(self).allocator_slot(),
            final(self).message() == old(self).message(),
    {
        self.sandbox_store.take().unwrap()
    }

    /// Puts a registry that was taken out back into its slot.
    pub fn restore_sandbox_store(&mut self, store: Box<Store>)
        ensures
            final(self).registry() == Some(*store),
            final(self).allocator_slot() == old(self).allocator_slot(),
            final(self).message() == old(self).message(),
    {
        self.sandbox_store = Some(store);
    }
}

} // verus!
