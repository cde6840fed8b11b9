//! The heap allocator of the runtime module.
//!
//! The freeing-bump allocator of the `sc-allocator` crate keeps its free lists
//! inside the linear memory it serves. The host only asks it to allocate, to
//! deallocate and for its statistics; how it lays out the heap is its own
//! business. Nothing here is proved about the allocator: the three functions
//! that call it say what its source shows and are trusted.

use vstd::arithmetic::power2::pow2;
use vstd::prelude::*;

use crate::error::{AllocatorError, AllocatorErrorKind};
use crate::memory::{
    effective_limit, page_count, same_but_range, LinearMemory, Memory, MAX_POSSIBLE_ALLOCATION,
};

verus! {

/// The allocator type of `sc-allocator`, carried through as an opaque value.
#[verifier::external_type_specification]
#[verifier::external_body]
pub struct ExFreeingBumpHeapAllocator(sc_allocator::FreeingBumpHeapAllocator);

/// The number of bytes the allocator puts in front of every block.
pub const HEADER_SIZE: u32 = 8;

/// Counters the allocator keeps over its lifetime.
#[derive(Clone, Copy, Debug, PartialEq, Eq)]
pub struct AllocationStats {
    /// The number of bytes allocated right now.
    pub bytes_allocated: u32,
    /// The largest value `bytes_allocated` ever had.
    pub bytes_allocated_peak: u32,
    /// The sum of every allocation ever made.
    pub bytes_allocated_sum: u128,
    /// The address space, in bytes, between the heap base and the bumper.
    pub address_space_used: u32,
}

/// The most pages of a memory that the allocator is shown. The allocator
/// keeps addresses in 32-bit integers and adds to them unchecked, so the end
/// of its heap must stay below 4 GiB: the last page is never the heap's.
pub const MAX_HEAP_PAGES: u32 = 65535;

/// A [`LinearMemory`] lent to the allocator of `sc-allocator`.
///
/// Each method hands on to the verified one of the same name, but the page
/// count and the maximum that the allocator is shown stop at
/// [`MAX_HEAP_PAGES`]: a memory of the full 65536 pages is served from its
/// first 65535. Verus proves the methods under the conditions written on
/// them. That the allocator meets them is taken from its source: it calls
/// them on the memory it was given and with closures that accept any slice
/// and leave its length alone.
pub struct MemoryWrapper<'a> {
    /// The memory that is lent out.
    pub memory: &'a mut LinearMemory,
}

impl<'a> sc_allocator::Memory for MemoryWrapper<'a> {
    fn with_access_mut<R>(&mut self, run: impl FnOnce(&mut [u8]) -> R) -> (result: R)
        requires
            old(self).memory.wf(),
            forall|bytes: &mut [u8]| bytes@ == old(self).memory@ ==> call_requires(run, (bytes, )),
            forall|bytes: &mut [u8], result: R| #[trigger]
                call_ensures(run, (bytes, ), result) ==> final(bytes)@.len() == bytes@.len(),
        ensures
            final(self).memory.wf(),
            final(self).memory.limit() == old(self).memory.limit(),
            final(self).memory@.len() == old(self).memory@.len(),
            exists|bytes: &mut [u8]|
                bytes@ == old(self).memory@ && final(bytes)@ == final(self).memory@
                    && call_ensures(run, (bytes, ), result),
    {
        Memory::with_access_mut(self.memory, run)
    }

    fn with_access<R>(&self, run: impl FnOnce(&[u8]) -> R) -> (result: R)
        requires
            self.memory.wf(),
            forall|bytes: &[u8]| bytes@ == self.memory@ ==> call_requires(run, (bytes, )),
        ensures
            exists|bytes: &[u8]| bytes@ == self.lent()@ && call_ensures(run, (bytes, ), result),
    {
        Memory::with_access(self.memory, run)
    }

    fn grow(&mut self, additional: u32) -> (result: Result<(), ()>)
        requires
            old(self).memory.wf(),
        ensures
            final(self).memory.wf(),
            final(self).memory.limit() == old(self).memory.limit(),
            final(self).memory@.len() >= old(self).memory@.len(),
            result is Ok <==> old(self).memory.can_grow(additional),
    {
        Memory::grow(self.memory, additional)
    }

    fn pages(&self) -> (count: u32)
        requires
            self.memory.wf(),
        ensures
            count == heap_pages(self.lent()@.len()),
    {
        let pages = Memory::pages(self.memory);
        if pages < MAX_HEAP_PAGES {
            pages
        } else {
            MAX_HEAP_PAGES
        }
    }

    fn max_pages(&self) -> (limit: Option<u32>)
        ensures
            limit == Some(heap_limit(self.lent().limit())),
    {
        match Memory::max_pages(self.memory) {
            Some(maximum) => if maximum < MAX_HEAP_PAGES {
                Some(maximum)
            } else {
                Some(MAX_HEAP_PAGES)
            },
            None => Some(MAX_HEAP_PAGES),
        }
    }
}

impl<'a> MemoryWrapper<'a> {
    /// The memory that is lent out, as it is at the moment.
    pub open spec fn lent(&self) -> LinearMemory {
        *self.memory
    }
}

/// The number of pages that the allocator is shown for a memory of `len`
/// bytes: its own, but no more than [`MAX_HEAP_PAGES`].
pub open spec fn heap_pages(len: nat) -> nat {
    if page_count(len) < MAX_HEAP_PAGES {
        page_count(len)
    } else {
        MAX_HEAP_PAGES as nat
    }
}

/// The largest count of allocated bytes at which the allocator is still
/// asked for a block: `u32::MAX` less the largest block and its header. The
/// counter is a 32-bit integer that the allocator adds to unchecked; up to
/// this bound the largest block and its header still fit.
pub const MAX_COUNTED_BYTES: u32 = 0xFDFF_FFF7;

/// The size of the block that serves a request for `size` bytes: the least of
/// 8, 16, 32 and so on that holds them.
pub open spec fn block_size(size: u32) -> nat {
    doubled_up_to(size as nat, 8)
}

/// The first of `from`, twice `from`, four times `from` and so on that is no
/// less than `least`.
pub open spec fn doubled_up_to(least: nat, from: nat) -> nat
    decreases
            (if from < least {
                least - from
            } else {
                0
            }),
{
    if from == 0 || from >= least {
        from
    } else {
        doubled_up_to(least, 2 * from)
    }
}

/// The order that the header in front of `pointer` records: the low four of
/// its eight bytes, read as a little-endian number.
pub open spec fn header_order(contents: Seq<u8>, pointer: u32) -> nat
    recommends
        HEADER_SIZE <= pointer <= contents.len(),
{
    (contents[pointer - 8] as nat) + 256 * (contents[pointer - 7] as nat) + 65536 * (
    contents[pointer - 6] as nat) + 16777216 * (contents[pointer - 5] as nat)
}

/// The size of the block at `pointer`, where the eight bytes in front of it
/// are the header of an occupied block: the lowest bit of the fifth byte is
/// set, and the order is one of the 23 the allocator has. A block of order
/// `k` has `8 * 2^k` bytes. `None` where there is no such header.
pub open spec fn occupied_block(contents: Seq<u8>, pointer: u32) -> Option<nat> {
    if HEADER_SIZE <= pointer <= contents.len() && contents[pointer - 4] % 2 == 1 && header_order(
        contents,
        pointer,
    ) < 23 {
        Some(8 * pow2(header_order(contents, pointer)))
    } else {
        None
    }
}

/// Whether `after` are the counters `before` once a block of `block` bytes was
/// freed: the bytes allocated are fewer by the block and its header, and the
/// other three counters are as they were.
pub open spec fn freed(before: AllocationStats, after: AllocationStats, block: nat) -> bool {
    &&& after.bytes_allocated + block + HEADER_SIZE == before.bytes_allocated
    &&& after.bytes_allocated_peak == before.bytes_allocated_peak
    &&& after.bytes_allocated_sum == before.bytes_allocated_sum
    &&& after.address_space_used == before.address_space_used
}

/// What `FreeingBumpHeapAllocator::allocate` of `sc-allocator` answers when
/// `allocator` is asked for `size` bytes on a memory with these `contents` and
/// this `limit`.
pub uninterp spec fn allocation_outcome(
    allocator: sc_allocator::FreeingBumpHeapAllocator,
    contents: Seq<u8>,
    limit: Option<u32>,
    size: u32,
) -> Result<u32, AllocatorError>;

/// What `FreeingBumpHeapAllocator::deallocate` of `sc-allocator` answers when
/// `allocator` is asked to free `pointer` on a memory with these `contents`
/// and this `limit`.
pub uninterp spec fn deallocation_outcome(
    allocator: sc_allocator::FreeingBumpHeapAllocator,
    contents: Seq<u8>,
    limit: Option<u32>,
    pointer: u32,
) -> Result<(), AllocatorError>;

/// The maximum, in pages, that the allocator is shown for a memory with this
/// `limit`: the memory's own, or the wasm limit, but no more than
/// [`MAX_HEAP_PAGES`].
pub open spec fn heap_limit(limit: Option<u32>) -> u32 {
    if effective_limit(limit) < MAX_HEAP_PAGES {
        effective_limit(limit)
    } else {
        MAX_HEAP_PAGES
    }
}

/// Calls `FreeingBumpHeapAllocator::allocate` of `sc-allocator` on `memory`.
///
/// Trusted, from the allocator's source:
/// - the answer is [`allocation_outcome`] of the allocator, the memory and the
///   size, and a request above [`MAX_POSSIBLE_ALLOCATION`] is always refused;
/// - the memory stays well formed and keeps its maximum; it may have grown by
///   zeroed pages but never shrinks;
/// - a pointer that is handed out follows an eight-byte header and leads to
///   at least `size` bytes inside the memory; the header, which records the
///   block as occupied and of the size that serves the request, is the only
///   thing the allocator writes;
/// - the count of allocated bytes then rises by the size of the block and of
///   its header, and the block could be freed at once;
/// - where the allocator refuses, it writes nothing and its counters stay.
///
/// Which block is chosen depends on the allocator's free lists and is not
/// stated. The count of allocated bytes must leave room for the largest block,
/// because the allocator adds to it unchecked. A refusal comes back with its
/// kind and with the text the allocator's error displays.
#[verifier::external_body]
pub(crate) fn allocator_allocate(
    allocator: &mut sc_allocator::FreeingBumpHeapAllocator,
    memory: &mut LinearMemory,
    size: u32,
) -> (result: Result<u32, AllocatorError>)
    requires
        old(memory).wf(),
        allocation_counters(*old(allocator)).bytes_allocated <= MAX_COUNTED_BYTES,
    ensures
        result == allocation_outcome(*old(allocator), old(memory)@, old(memory).limit(), size),
        final(memory).wf(),
        final(memory).limit() == old(memory).limit(),
        final(memory)@.len() >= old(memory)@.len(),
        size > MAX_POSSIBLE_ALLOCATION ==> result is Err,
        result matches Ok(pointer) ==> {
            &&& HEADER_SIZE <= pointer
            &&& pointer as nat + size as nat <= final(memory)@.len()
            &&& same_but_range(
                old(memory)@,
                final(memory)@,
                pointer - HEADER_SIZE,
                HEADER_SIZE as int,
            )
            &&& occupied_block(final(memory)@, pointer) == Some(block_size(size))
            &&& allocation_counters(*final(allocator)).bytes_allocated == allocation_counters(
                *old(allocator),
            ).bytes_allocated + block_size(size) + HEADER_SIZE
            &&& deallocation_outcome(
                *final(allocator),
                final(memory)@,
                final(memory).limit(),
                pointer,
            ) is Ok
        },
        result is Err ==> {
            &&& final(memory)@ == old(memory)@
            &&& allocation_counters(*final(allocator)) == allocation_counters(*old(allocator))
        },
{
    match allocator.allocate(&mut MemoryWrapper { memory }, size) {
        Ok(pointer) => Ok(u32::from(pointer)),
        Err(error) => Err(AllocatorError {
            text: error.to_string(),
            kind: match error {
                sc_allocator::Error::RequestedAllocationTooLarge => AllocatorErrorKind::RequestedAllocationTooLarge,
                sc_allocator::Error::AllocatorOutOfSpace => AllocatorErrorKind::AllocatorOutOfSpace,
                sc_allocator::Error::MemoryShrinked => AllocatorErrorKind::MemoryShrinked,
                sc_allocator::Error::Other(_) => AllocatorErrorKind::Other,
            },
        }),
    }
}

/// Calls `FreeingBumpHeapAllocator::deallocate` of `sc-allocator` on `memory`.
///
/// Trusted, from the allocator's source:
/// - the answer is [`deallocation_outcome`] of the allocator, the memory and
///   the pointer;
/// - the memory stays well formed and keeps its maximum and its size; the
///   eight bytes in front of the pointer are the only ones the allocator
///   writes;
/// - a block is freed only where those eight bytes lie inside the memory and
///   are the header of an occupied block; the count of allocated bytes then
///   falls by the size of that block and of its header, the other counters
///   stay, and the header no longer records an occupied block;
/// - where the allocator refuses, its counters stay.
///
/// A refusal comes back with its kind and with the text the allocator's error
/// displays.
#[verifier::external_body]
pub(crate) fn allocator_deallocate(
    allocator: &mut sc_allocator::FreeingBumpHeapAllocator,
    memory: &mut LinearMemory,
    pointer: u32,
) -> (result: Result<(), AllocatorError>)
    requires
        old(memory).wf(),
    ensures
        result == deallocation_outcome(*old(allocator), old(memory)@, old(memory).limit(), pointer),
        final(memory).wf(),
        final(memory).limit() == old(memory).limit(),
        final(memory)@.len() == old(memory)@.len(),
        same_but_range(
            old(memory)@,
            final(memory)@,
            pointer - HEADER_SIZE,
            HEADER_SIZE as int,
        ),
        result is Ok ==> {
            &&& occupied_block(old(memory)@, pointer) matches Some(block)
            &&& freed(
                allocation_counters(*old(allocator)),
                allocation_counters(*final(allocator)),
                block,
            )
            &&& occupied_block(final(memory)@, pointer) is None
        },
        result is Err ==> allocation_counters(*final(allocator)) == allocation_counters(
            *old(allocator),
        ),
{
    match allocator.deallocate(&mut MemoryWrapper { memory }, sp_wasm_interface::Pointer::new(pointer)) {
        Ok(()) => Ok(()),
        Err(error) => Err(AllocatorError {
            text: error.to_string(),
            kind: match error {
                sc_allocator::Error::RequestedAllocationTooLarge => AllocatorErrorKind::RequestedAllocationTooLarge,
                sc_allocator::Error::AllocatorOutOfSpace => AllocatorErrorKind::AllocatorOutOfSpace,
                sc_allocator::Error::MemoryShrinked => AllocatorErrorKind::MemoryShrinked,
                sc_allocator::Error::Other(_) => AllocatorErrorKind::Other,
            },
        }),
    }
}

/// The counters that `FreeingBumpHeapAllocator::stats` of `sc-allocator` gives
/// for `allocator`. They are read off the allocator and depend on nothing
/// else.
pub uninterp spec fn allocation_counters(
    allocator: sc_allocator::FreeingBumpHeapAllocator,
) -> AllocationStats;

/// Calls `FreeingBumpHeapAllocator::stats` of `sc-allocator` and copies the
/// four counters. Trusted: the result is [`allocation_counters`] of the
/// allocator, which is to say only that the counters are a function of the
/// allocator. Nothing is claimed of their values.
#[verifier::external_body]
pub(crate) fn allocator_stats(
    allocator: &sc_allocator::FreeingBumpHeapAllocator,
) -> (stats: AllocationStats)
    ensures
        stats == allocation_counters(*allocator),
{
    let stats = allocator.stats();
    AllocationStats {
        bytes_allocated: stats.bytes_allocated,
        bytes_allocated_peak: stats.bytes_allocated_peak,
        bytes_allocated_sum: stats.bytes_allocated_sum,
        address_space_used: stats.address_space_used,
    }
}

} // verus!
