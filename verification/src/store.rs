//! The registry of sandboxed instances and memories.
//!
//! Guest code never holds a reference into host memory. It holds small
//! integers, and every operation looks its integer up again. An id is the
//! position of its entry; tearing an entry down empties the position and never
//! frees it, so no id is handed out twice.

use vstd::prelude::*;

use crate::error::HostError;
use crate::memory::{
    bytes_at, in_bounds, overwritten, page_count, zeroes, LinearMemory, Memory, PAGE_SIZE,
};
use crate::status::MEM_UNLIMITED;
use crate::table::Func;

verus! {

/// A handle to something the engine owns, as the engine hands it out.
pub type HostPointer = u64;

/// The most instances one registry can hold. Instance ids share their integer
/// with the failure codes, so the three largest integers are never ids.
pub const MAX_INSTANCES: u32 = 0xFFFF_FFFD;

/// The most sandboxed memories one registry can hold.
pub const MAX_MEMORIES: u32 = 0xFFFF_FFFF;

/// A sandboxed instance as the registry knows it.
#[derive(Clone, Copy, Debug, PartialEq, Eq)]
pub struct InstanceEntry {
    /// The engine's handle to the instance.
    pub instance: HostPointer,
    /// The supervisor function through which the instance calls back out.
    pub dispatch_thunk: Func,
}

/// Whether `id` names an entry of `slots` that has not been torn down.
pub open spec fn is_live<T>(slots: Seq<Option<T>>, id: u32) -> bool {
    id < slots.len() && slots[id as int] is Some
}

/// The id that the next entry registered in `slots` gets.
pub open spec fn next_id<T>(slots: Seq<Option<T>>) -> nat {
    slots.len()
}

/// `slots` after `entry` was registered.
pub open spec fn registered<T>(slots: Seq<Option<T>>, entry: T) -> Seq<Option<T>> {
    slots.push(Some(entry))
}

/// `slots` after the entry under `id` was torn down.
pub open spec fn torn_down<T>(slots: Seq<Option<T>>, id: u32) -> Seq<Option<T>> {
    slots.update(id as int, None)
}

/// What looking `id` up in `slots` gives: the entry, `missing` where no entry
/// was ever registered under the id, `gone` where it was torn down.
pub open spec fn lookup<T>(slots: Seq<Option<T>>, id: u32, missing: HostError, gone: HostError) -> Result<
    T,
    HostError,
> {
    if id >= slots.len() {
        Err(missing)
    } else {
        match slots[id as int] {
            Some(entry) => Ok(entry),
            None => Err(gone),
        }
    }
}

/// Registering takes an id that names no live entry, makes it live, and moves
/// the next id on by one. Every entry that was live stays live under its id.
pub proof fn lemma_registration_takes_a_fresh_id<T>(slots: Seq<Option<T>>, entry: T, other: u32)
    requires
        slots.len() <= u32::MAX,
    ensures
        !is_live(slots, next_id(slots) as u32),
        is_live(registered(slots, entry), next_id(slots) as u32),
        registered(slots, entry)[next_id(slots) as int] == Some(entry),
        next_id(registered(slots, entry)) == next_id(slots) + 1,
        is_live(slots, other) ==> is_live(registered(slots, entry), other) && registered(
            slots,
            entry,
        )[other as int] == slots[other as int],
{
}

/// Two registrations in a row get different ids, whatever is torn down in
/// between: tearing down never lowers the next id, and registering raises it.
pub proof fn lemma_successive_ids_differ<T>(slots: Seq<Option<T>>, first: T, torn: Seq<u32>)
    ensures
        next_id(after_teardowns(registered(slots, first), torn)) > next_id(slots),
    decreases torn.len(),
{
    if torn.len() > 0 {
        lemma_successive_ids_differ(slots, first, torn.drop_last());
    }
}

/// `slots` after the entries under the ids of `torn` were torn down, ids that
/// name no entry being passed over.
pub open spec fn after_teardowns<T>(slots: Seq<Option<T>>, torn: Seq<u32>) -> Seq<Option<T>>
    decreases torn.len(),
{
    if torn.len() == 0 {
        slots
    } else {
        let before = after_teardowns(slots, torn.drop_last());
        if torn.last() < before.len() {
            torn_down(before, torn.last())
        } else {
            before
        }
    }
}

/// A torn-down id is gone for good: it names no live entry, looking it up
/// fails, no later registration gets it, and every other id is looked up as
/// before.
pub proof fn lemma_teardown_retires_the_id<T>(
    slots: Seq<Option<T>>,
    id: u32,
    other: u32,
    missing: HostError,
    gone: HostError,
)
    requires
        is_live(slots, id),
        other != id,
    ensures
        !is_live(torn_down(slots, id), id),
        lookup(torn_down(slots, id), id, missing, gone) == Err::<T, HostError>(gone),
        next_id(torn_down(slots, id)) == next_id(slots),
        next_id(torn_down(slots, id)) > id,
        lookup(torn_down(slots, id), other, missing, gone) == lookup(slots, other, missing, gone),
{
}

/// The maximum that a page count given at creation stands for.
pub open spec fn limit_of(maximum: u32) -> Option<u32> {
    if maximum == MEM_UNLIMITED {
        None
    } else {
        Some(maximum)
    }
}

/// All sandboxed instances and memories of one runtime entry.
#[derive(Clone, Debug, PartialEq, Eq)]
pub struct Store {
    instances: Vec<Option<InstanceEntry>>,
    memories: Vec<Option<LinearMemory>>,
}

impl Store {
    /// The instance slots, by id.
    pub closed spec fn instances(&self) -> Seq<Option<InstanceEntry>> {
        self.instances@
    }

    /// The memory slots, by id.
    pub closed spec fn memories(&self) -> Seq<Option<LinearMemory>> {
        self.memories@
    }

    /// The invariant of the registry: it has not outgrown its id spaces and
    /// every memory in it is well formed.
    pub open spec fn wf(&self) -> bool {
        &&& self.instances().len() <= MAX_INSTANCES
        &&& self.memories().len() <= MAX_MEMORIES
        &&& forall|i: int|
            0 <= i < self.memories().len() ==> (#[trigger] self.memories()[i] matches Some(memory)
                ==> memory.wf())
    }

    /// What looking up the instance `id` gives.
    pub open spec fn instance_at(&self, id: u32) -> Result<InstanceEntry, HostError> {
        lookup(self.instances(), id, HostError::InstanceNotFound, HostError::InstanceTornDown)
    }

    /// What looking up the memory `id` gives.
    pub open spec fn memory_at(&self, id: u32) -> Result<LinearMemory, HostError> {
        lookup(self.memories(), id, HostError::MemoryNotFound, HostError::MemoryTornDown)
    }

    /// Whether `other` holds the same memories but, possibly, under `id`.
    pub open spec fn same_memories_but(&self, other: &Store, id: u32) -> bool {
        &&& self.memories().len() == other.memories().len()
        &&& forall|i: int|
            0 <= i < self.memories().len() && i != id ==> self.memories()[i] == other.memories()[i]
    }

    /// An empty registry.
    pub fn new() -> (store: Store)
        ensures
            store.wf(),
            store.instances() == Seq::<Option<InstanceEntry>>::empty(),
            store.memories() == Seq::<Option<LinearMemory>>::empty(),
    {
        Store { instances: Vec::new(), memories: Vec::new() }
    }

    /// Creates a zeroed memory of `initial` pages that may grow to `maximum`
    /// pages ([`MEM_UNLIMITED`] for no maximum of its own) and registers it
    /// under the next free id.
    pub fn new_memory(&mut self, initial: u32, maximum: u32) -> (result: Result<u32, HostError>)
        requires
            old(self).wf(),
        ensures
            final(self).wf(),
            final(self).instances() == old(self).instances(),
            old(self).memories().len() >= MAX_MEMORIES ==> result == Err::<u32, HostError>(
                HostError::RegistryFull,
            ),
            old(self).memories().len() < MAX_MEMORIES && !LinearMemory::valid_limits(
                initial,
                limit_of(maximum),
            ) ==> result == Err::<u32, HostError>(HostError::InvalidMemoryLimits),
            old(self).memories().len() < MAX_MEMORIES && LinearMemory::valid_limits(
                initial,
                limit_of(maximum),
            ) ==> result == Ok::<u32, HostError>(next_id(old(self).memories()) as u32),
            result is Err ==> final(self).memories() == old(self).memories(),
            result is Ok ==> exists|memory: LinearMemory|
                {
                    &&& final(self).memories() == registered(old(self).memories(), memory)
                    &&& memory@ == zeroes((initial as nat) * (PAGE_SIZE as nat))
                    &&& memory.limit() == limit_of(maximum)
                },
    {
        if self.memories.len() >= MAX_MEMORIES as usize {
            return Err(HostError::RegistryFull);
        }
        let limit = if maximum == MEM_UNLIMITED {
            None
        } else {
            Some(maximum)
        };
        match LinearMemory::new(initial, limit) {
            None => Err(HostError::InvalidMemoryLimits),
            Some(memory) => {
                let id = self.memories.len() as u32;
                let ghost made = memory;
                self.memories.push(Some(memory));
                assert(self.memories@ == registered(old(self).memories(), made));
                Ok(id)
            },
        }
    }

    /// The memory registered under `memory_id`.
    pub fn memory(&self, memory_id: u32) -> (result: Result<&LinearMemory, HostError>)
        ensures
            match self.memory_at(memory_id) {
                Ok(memory) => result == Ok::<&LinearMemory, HostError>(&memory),
                Err(error) => result == Err::<&LinearMemory, HostError>(error),
            },
    {
        if memory_id as usize >= self.memories.len() {
            return Err(HostError::MemoryNotFound);
        }
        match &self.memories[memory_id as usize] {
            Some(memory) => Ok(memory),
            None => Err(HostError::MemoryTornDown),
        }
    }

    /// The `len` bytes from `offset` on of the memory `memory_id`.
    pub fn memory_read(&self, memory_id: u32, offset: u32, len: usize) -> (result: Result<
        Vec<u8>,
        HostError,
    >)
        ensures
            match self.memory_at(memory_id) {
                Ok(memory) => if in_bounds(memory@.len(), offset, len as nat) {
                    result is Ok && result->Ok_0@ == bytes_at(memory@, offset, len as nat)
                } else {
                    result == Err::<Vec<u8>, HostError>(HostError::ReadOutOfBounds)
                },
                Err(error) => result == Err::<Vec<u8>, HostError>(error),
            },
    {
        match self.memory(memory_id) {
            Ok(memory) => memory.read(offset, len),
            Err(error) => Err(error),
        }
    }

    /// Copies `data` into the memory `memory_id` from `offset` on.
    pub fn memory_write(&mut self, memory_id: u32, offset: u32, data: &[u8]) -> (result: Result<
        (),
        HostError,
    >)
        requires
            old(self).wf(),
        ensures
            final(self).wf(),
            final(self).instances() == old(self).instances(),
            final(self).same_memories_but(old(self), memory_id),
            match old(self).memory_at(memory_id) {
                Ok(memory) => if in_bounds(memory@.len(), offset, data@.len()) {
                    &&& result is Ok
                    &&& final(self).memory_at(memory_id) matches Ok(after)
                    &&& after@ == overwritten(memory@, offset, data@)
                    &&& after.limit() == memory.limit()
                } else {
                    &&& result == Err::<(), HostError>(HostError::WriteOutOfBounds)
                    &&& final(self).memories() == old(self).memories()
                },
                Err(error) => {
                    &&& result == Err::<(), HostError>(error)
                    &&& final(self).memories() == old(self).memories()
                },
            },
    {
        if memory_id as usize >= self.memories.len() {
            return Err(HostError::MemoryNotFound);
        }
        let mut slot = None;
        core::mem::swap(&mut slot, &mut self.memories[memory_id as usize]);
        match slot {
            Some(mut memory) => {
                let result = memory.write_from(offset, data);
                self.memories[memory_id as usize] = Some(memory);
                proof {
                    if result is Err {
                        assert(self.memories@ =~= old(self).memories@);
                    }
                }
                result
            },
            None => {
                assert(self.memories@ =~= old(self).memories@);
                Err(HostError::MemoryTornDown)
            },
        }
    }

    /// The size in pages of the memory `memory_id`.
    pub fn memory_size(&self, memory_id: u32) -> (result: Result<u32, HostError>)
        requires
            self.wf(),
        ensures
            match self.memory_at(memory_id) {
                Ok(memory) => result == Ok::<u32, HostError>(page_count(memory@.len()) as u32),
                Err(error) => result == Err::<u32, HostError>(error),
            },
    {
        match self.memory(memory_id) {
            Ok(memory) => Ok(memory.pages()),
            Err(error) => Err(error),
        }
    }

    /// Grows the memory `memory_id` by `pages` zeroed pages and gives the
    /// page count it had before, or refuses and leaves it as it is.
    pub fn memory_grow(&mut self, memory_id: u32, pages: u32) -> (result: Result<u32, HostError>)
        requires
            old(self).wf(),
        ensures
            final(self).wf(),
            final(self).instances() == old(self).instances(),
            final(self).same_memories_but(old(self), memory_id),
            match old(self).memory_at(memory_id) {
                Ok(memory) => if memory.can_grow(pages) {
                    &&& result == Ok::<u32, HostError>(page_count(memory@.len()) as u32)
                    &&& final(self).memory_at(memory_id) matches Ok(after)
                    &&& after@ == memory@ + zeroes((pages as nat) * (PAGE_SIZE as nat))
                    &&& after.limit() == memory.limit()
                } else {
                    &&& result == Err::<u32, HostError>(HostError::MemoryGrowthRefused)
                    &&& final(self).memories() == old(self).memories()
                },
                Err(error) => {
                    &&& result == Err::<u32, HostError>(error)
                    &&& final(self).memories() == old(self).memories()
                },
            },
    {
        if memory_id as usize >= self.memories.len() {
            return Err(HostError::MemoryNotFound);
        }
        let mut slot = None;
        core::mem::swap(&mut slot, &mut self.memories[memory_id as usize]);
        match slot {
            Some(mut memory) => {
                let before = memory.pages();
                let grown = memory.grow(pages);
                self.memories[memory_id as usize] = Some(memory);
                match grown {
                    Ok(()) => Ok(before),
                    Err(()) => {
                        assert(self.memories@ =~= old(self).memories@);
                        Err(HostError::MemoryGrowthRefused)
                    },
                }
            },
            None => {
                assert(self.memories@ =~= old(self).memories@);
                Err(HostError::MemoryTornDown)
            },
        }
    }

    /// Tears the memory `memory_id` down. Its id stays taken.
    pub fn memory_teardown(&mut self, memory_id: u32) -> (result: Result<(), HostError>)
        requires
            old(self).wf(),
        ensures
            final(self).wf(),
            final(self).instances() == old(self).instances(),
            match old(self).memory_at(memory_id) {
                Ok(_) => result is Ok && final(self).memories() == torn_down(
                    old(self).memories(),
                    memory_id,
                ),
                Err(error) => {
                    &&& result == Err::<(), HostError>(error)
                    &&& final(self).memories() == old(self).memories()
                },
            },
    {
        if memory_id as usize >= self.memories.len() {
            return Err(HostError::MemoryNotFound);
        }
        if self.memories[memory_id as usize].is_none() {
            return Err(HostError::MemoryTornDown);
        }
        self.memories[memory_id as usize] = None;
        Ok(())
    }

    /// Registers an instance with its dispatch thunk under the next free id,
    /// or gives `None` and changes nothing where no id is left.
    pub fn register_instance(&mut self, instance: HostPointer, dispatch_thunk: Func) -> (id: Option<u32>)
        requires
            old(self).wf(),
        ensures
            final(self).wf(),
            final(self).memories() == old(self).memories(),
            old(self).instances().len() < MAX_INSTANCES ==> {
                &&& id == Some(next_id(old(self).instances()) as u32)
                &&& final(self).instances() == registered(
                    old(self).instances(),
                    (InstanceEntry { instance, dispatch_thunk }),
                )
            },
            old(self).instances().len() >= MAX_INSTANCES ==> {
                &&& id is None
                &&& final(self).instances() == old(self).instances()
            },
    {
        if self.instances.len() >= MAX_INSTANCES as usize {
            return None;
        }
        let id = self.instances.len() as u32;
        self.instances.push(Some(InstanceEntry { instance, dispatch_thunk }));
        Some(id)
    }

    /// The engine's handle to the instance `instance_id`.
    pub fn instance(&self, instance_id: u32) -> (result: Result<HostPointer, HostError>)
        ensures
            match self.instance_at(instance_id) {
                Ok(entry) => result == Ok::<HostPointer, HostError>(entry.instance),
                Err(error) => result == Err::<HostPointer, HostError>(error),
            },
    {
        if instance_id as usize >= self.instances.len() {
            return Err(HostError::InstanceNotFound);
        }
        match self.instances[instance_id as usize] {
            Some(entry) => Ok(entry.instance),
            None => Err(HostError::InstanceTornDown),
        }
    }

    /// The dispatch thunk of the instance `instance_id`.
    pub fn dispatch_thunk(&self, instance_id: u32) -> (result: Result<Func, HostError>)
        ensures
            match self.instance_at(instance_id) {
                Ok(entry) => result == Ok::<Func, HostError>(entry.dispatch_thunk),
                Err(error) => result == Err::<Func, HostError>(error),
            },
    {
        if instance_id as usize >= self.instances.len() {
            return Err(HostError::InstanceNotFound);
        }
        match self.instances[instance_id as usize] {
            Some(entry) => Ok(entry.dispatch_thunk),
            None => Err(HostError::InstanceTornDown),
        }
    }

    /// Tears the instance `instance_id` down. Its id stays taken.
    pub fn instance_teardown(&mut self, instance_id: u32) -> (result: Result<(), HostError>)
        requires
            old(self).wf(),
        ensures
            final(self).wf(),
            final(self).memories() == old(self).memories(),
            match old(self).instance_at(instance_id) {
                Ok(_) => result is Ok && final(self).instances() == torn_down(
                    old(self).instances(),
                    instance_id,
                ),
                Err(error) => result == Err::<(), HostError>(error) && final(self).instances()
                    == old(self).instances(),
            },
    {
        if instance_id as usize >= self.instances.len() {
            return Err(HostError::InstanceNotFound);
        }
        if self.instances[instance_id as usize].is_none() {
            return Err(HostError::InstanceTornDown);
        }
        self.instances[instance_id as usize] = None;
        Ok(())
    }
}

} // verus!
