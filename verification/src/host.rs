//! The context of one host call.
//!
//! A [`HostContext`] lives for a single call from wasm into the host. It
//! borrows the store's data for that time and offers the two sets of
//! operations a host function works with: memory, allocation and panic
//! registration on one side, the sandbox on the other.
//!
//! Failures come in two kinds. What guest code is expected to branch on comes
//! back as a status code inside `Ok`. What only a broken caller can cause
//! comes back as `Err` and fails the host call.

use vstd::prelude::*;

use crate::allocator::{block_size, deallocation_outcome, freed, occupied_block, HEADER_SIZE};
use crate::error::HostError;
use crate::host_state::{allocation_result, call_result, HostState};
use crate::memory::{
    bytes_at, in_bounds, overwritten, page_count, same_but_range, zeroes, LinearMemory,
    MAX_POSSIBLE_ALLOCATION, PAGE_SIZE,
};
use crate::status::{
    is_failure_code, ERROR_GLOBALS_NOT_FOUND, ERROR_GLOBALS_OK, ERROR_GLOBALS_OTHER, ERR_EXECUTION,
    ERR_MODULE, ERR_OK, ERR_OUT_OF_BOUNDS,
};
use crate::store::{
    limit_of, next_id, registered, torn_down, HostPointer, InstanceEntry, Store, MAX_INSTANCES,
    MAX_MEMORIES,
};
use crate::store_data::StoreData;
use crate::table::{function_at, Func, TableElement};
use crate::value::{decode_arguments, decoded_arguments, encode_return_value, encoded_return_value, Value};

verus! {

/// How an attempt to write an exported global ended in the engine.
#[derive(Clone, Copy, Debug, PartialEq, Eq)]
pub enum GlobalSetOutcome {
    /// The instance exports no global of that name.
    NotFound,
    /// The global was written.
    Written,
    /// The global exists but is immutable or of another type.
    Refused,
}

/// The status code for the outcome of writing a global.
pub open spec fn spec_global_set_status(outcome: GlobalSetOutcome) -> u32 {
    match outcome {
        GlobalSetOutcome::NotFound => ERROR_GLOBALS_NOT_FOUND,
        GlobalSetOutcome::Written => ERROR_GLOBALS_OK,
        GlobalSetOutcome::Refused => ERROR_GLOBALS_OTHER,
    }
}

/// The status code that tells the supervisor how writing a global ended.
/// Every outcome is a status code: none of them fails the host call.
pub fn global_set_status(outcome: GlobalSetOutcome) -> (code: u32)
    ensures
        code == spec_global_set_status(outcome),
{
    match outcome {
        GlobalSetOutcome::NotFound => ERROR_GLOBALS_NOT_FOUND,
        GlobalSetOutcome::Written => ERROR_GLOBALS_OK,
        GlobalSetOutcome::Refused => ERROR_GLOBALS_OTHER,
    }
}

/// What the host needs to start an invocation: whom to call, through which
/// thunk the callee calls back, and the decoded arguments.
#[derive(Clone, Debug, PartialEq, Eq)]
pub struct Invocation {
    /// The engine's handle to the instance to invoke.
    pub instance: HostPointer,
    /// The supervisor function through which the instance calls back out.
    pub dispatch_thunk: Func,
    /// The arguments of the call.
    pub args: Vec<Value>,
}

/// How an invocation of a sandboxed export ended in the engine.
#[derive(Clone, Copy, Debug, PartialEq, Eq)]
pub enum InvocationOutcome {
    /// The export returned nothing.
    Unit,
    /// The export returned a value.
    Value(Value),
    /// The export trapped or could not be executed.
    Failed,
}

/// How the engine's attempt to instantiate a guest module ended.
#[derive(Clone, Copy, Debug, PartialEq, Eq)]
pub enum InstantiationOutcome {
    /// The module was instantiated; the engine's handle to the instance.
    Instantiated(HostPointer),
    /// The start function of the module trapped.
    StartTrapped,
    /// The module could not be instantiated for any other reason.
    Failed,
}

/// The registry while it is out of its slot, together with the dispatch thunk
/// of the instance that is being made. It is made by
/// [`HostContext::instance_new_begin`] and must be handed back to
/// [`HostContext::instance_new_complete`] or [`HostContext::instance_new_abort`].
#[derive(Debug, PartialEq, Eq)]
pub struct PendingInstantiation {
    store: Box<Store>,
    dispatch_thunk: Func,
}

impl PendingInstantiation {
    /// The registry that was taken out.
    pub closed spec fn registry(&self) -> Store {
        *self.store
    }

    /// The dispatch thunk of the instance that is being made.
    pub closed spec fn thunk(&self) -> Func {
        self.dispatch_thunk
    }

    /// The dispatch thunk of the instance that is being made.
    pub fn dispatch_thunk(&self) -> (func: Func)
        ensures
            func == self.thunk(),
    {
        self.dispatch_thunk
    }

    /// The registry that was taken out, to read it.
    pub fn store(&self) -> (store: &Store)
        ensures
            *store == self.registry(),
    {
        &self.store
    }
}

/// What the creation of an instance does after its checks.
#[derive(Debug, PartialEq, Eq)]
pub enum InstantiationStep {
    /// There is nothing to instantiate: the call returns this status code.
    Rejected(u32),
    /// The registry is out of its slot and the engine is to instantiate the
    /// module.
    Instantiate(PendingInstantiation),
}

/// What starting an invocation of `instance_id` gives, for the arguments as
/// they decoded: the arguments are looked at first, the instance second.
pub open spec fn invocation_for(store: Store, instance_id: u32, decoded: Option<Seq<Value>>) -> Result<
    (InstanceEntry, Seq<Value>),
    HostError,
> {
    match decoded {
        None => Err(HostError::ArgumentsUndecodable),
        Some(args) => match store.instance_at(instance_id) {
            Ok(entry) => Ok((entry, args)),
            Err(error) => Err(error),
        },
    }
}

/// What the creation of an instance decides before the engine is asked: a
/// failure of the call where there is no table or the index lies outside it,
/// a module error where the slot holds no function or the environment
/// definition did not decode, and otherwise the thunk to instantiate with.
pub open spec fn resolution(
    table: Option<Seq<TableElement>>,
    dispatch_thunk_id: u32,
    environment_decoded: bool,
) -> Result<Option<Func>, HostError> {
    match table {
        None => Err(HostError::NoTable),
        Some(elements) => if dispatch_thunk_id >= elements.len() {
            Err(HostError::DispatchThunkOutOfBounds)
        } else if environment_decoded {
            Ok(function_at(elements, dispatch_thunk_id))
        } else {
            Ok(None)
        },
    }
}

/// The status code the creation of an instance ends with once the engine is
/// done, and the instances the registry then holds.
pub open spec fn completion(store: Store, thunk: Func, outcome: InstantiationOutcome) -> (
    u32,
    Seq<Option<InstanceEntry>>,
) {
    match outcome {
        InstantiationOutcome::Instantiated(instance) => if store.instances().len() < MAX_INSTANCES {
            (
                next_id(store.instances()) as u32,
                registered(store.instances(), (InstanceEntry { instance, dispatch_thunk: thunk })),
            )
        } else {
            (ERR_MODULE, store.instances())
        },
        InstantiationOutcome::StartTrapped => (ERR_EXECUTION, store.instances()),
        InstantiationOutcome::Failed => (ERR_MODULE, store.instances()),
    }
}

/// An instance id is never mistaken for a failure: where the creation of an
/// instance registers one, the code it returns is none of the failure codes.
pub proof fn lemma_instance_id_is_no_failure_code(
    store: Store,
    thunk: Func,
    instance: HostPointer,
)
    requires
        store.instances().len() < MAX_INSTANCES,
    ensures
        !is_failure_code(
            completion(store, thunk, InstantiationOutcome::Instantiated(instance)).0,
        ),
        completion(store, thunk, InstantiationOutcome::Instantiated(instance)).1 == registered(
            store.instances(),
            (InstanceEntry { instance, dispatch_thunk: thunk }),
        ),
{
}

/// The context of one host call. It borrows the data of the store for as long
/// as the call lasts.
pub struct HostContext<'a> {
    /// The data of the store the call came from.
    pub data: &'a mut StoreData,
}

impl<'a> HostContext<'a> {
    /// Whether the store is in the state every host function may rely on:
    /// the host state is set, the memory is set, and both are well formed.
    pub open spec fn ready(&self) -> bool {
        &&& self.data.wf()
        &&& self.data.host_state is Some
        &&& self.data.memory is Some
    }

    /// The host state.
    pub open spec fn state(&self) -> HostState
        recommends
            self.data.host_state is Some,
    {
        self.data.host_state->0
    }

    /// The linear memory of the runtime module.
    pub open spec fn memory(&self) -> LinearMemory
        recommends
            self.data.memory is Some,
    {
        self.data.memory->0
    }

    /// Whether the context is ready and the registry is in its slot.
    pub open spec fn sandbox_ready(&self) -> bool {
        self.ready() && self.state().registry() is Some
    }

    /// The registry.
    pub open spec fn registry(&self) -> Store
        recommends
            self.sandbox_ready(),
    {
        self.state().registry()->0
    }

    /// Whether nothing but the linear memory differs from `before`.
    pub open spec fn same_but_memory(&self, before: &HostContext) -> bool {
        &&& self.data.limits == before.data.limits
        &&& self.data.table == before.data.table
        &&& self.data.host_state == before.data.host_state
    }

    /// Whether nothing but the registry differs from `before`.
    pub open spec fn same_but_registry(&self, before: &HostContext) -> bool {
        &&& self.data.limits == before.data.limits
        &&& self.data.table == before.data.table
        &&& self.data.memory == before.data.memory
        &&& self.data.host_state is Some
        &&& self.state().allocator_slot() == before.state().allocator_slot()
        &&& self.state().message() == before.state().message()
    }

    /// A context for one host call on `data`.
    pub fn new(data: &'a mut StoreData) -> (context: HostContext<'a>)
        ensures
            *context.data == *old(data),
            *final(context.data) == *final(data),
    {
        HostContext { data }
    }

    /// The host state.
    pub fn host_state(&self) -> (state: &HostState)
        requires
            self.data.host_state is Some,
        ensures
            *state == self.state(),
    {
        self.data.host_state.as_ref().unwrap()
    }

    /// The host state, to change it.
    pub fn host_state_mut(&mut self) -> (state: &mut HostState)
        requires
            old(self).data.host_state is Some,
        ensures
            *state == old(self).state(),
            final(self).data.host_state == Some(*final(state)),
            final(self).data.limits == old(self).data.limits,
            final(self).data.table == old(self).data.table,
            final(self).data.memory == old(self).data.memory,
    {
        self.data.host_state.as_mut().unwrap()
    }

    /// The registry.
    pub fn sandbox_store(&self) -> (store: &Store)
        requires
            self.data.host_state is Some,
            self.state().registry() is Some,
        ensures
            *store == self.registry(),
    {
        self.host_state().sandbox_store()
    }

    /// The registry, to change it.
    pub fn sandbox_store_mut(&mut self) -> (store: &mut Store)
        requires
            old(self).data.host_state is Some,
            old(self).state().registry() is Some,
        ensures
            *store == old(self).registry(),
            final(self).same_but_registry(old(self)),
            final(self).state().registry() == Some(*final(store)),
    {
        self.data.host_state.as_mut().unwrap().sandbox_store_mut()
    }

    /// Copies `dest.len()` bytes of the linear memory from `address` on into
    /// `dest`. A range that does not lie inside the memory fails and leaves
    /// `dest` as it was.
    pub fn read_memory_into(&self, address: u32, dest: &mut [u8]) -> (result: Result<(), HostError>)
        requires
            self.data.memory is Some,
        ensures
            in_bounds(self.memory()@.len(), address, old(dest)@.len()) ==> result is Ok
                && final(dest)@ == bytes_at(self.memory()@, address, old(dest)@.len()),
            !in_bounds(self.memory()@.len(), address, old(dest)@.len()) ==> result == Err::<
                (),
                HostError,
            >(HostError::ReadOutOfBounds) && final(dest)@ == old(dest)@,
    {
        self.data.memory().read_into(address, dest)
    }

    /// Copies `data` into the linear memory from `address` on. A range that
    /// does not lie inside the memory fails and writes nothing.
    pub fn write_memory(&mut self, address: u32, data: &[u8]) -> (result: Result<(), HostError>)
        requires
            old(self).ready(),
        ensures
            final(self).ready(),
            final(self).same_but_memory(old(self)),
            final(self).memory().limit() == old(self).memory().limit(),
            in_bounds(old(self).memory()@.len(), address, data@.len()) ==> result is Ok
                && final(self).memory()@ == overwritten(old(self).memory()@, address, data@),
            !in_bounds(old(self).memory()@.len(), address, data@.len()) ==> result == Err::<
                (),
                HostError,
            >(HostError::WriteOutOfBounds) && final(self).memory() == old(self).memory(),
    {
        self.data.memory.as_mut().unwrap().write_from(address, data)
    }

    /// Allocates `size` bytes on the heap of the runtime module and gives the
    /// address of the block.
    ///
    /// The allocator is in its slot again when the call returns, on success
    /// and on failure alike. The answer is the allocator's, asked once on the
    /// memory of the runtime module: its pointer, or its refusal as a failure
    /// of the call. A request for more than [`MAX_POSSIBLE_ALLOCATION`] bytes
    /// always fails. The one request that is not put to the allocator is one
    /// made while its count of allocated bytes leaves no room for the largest
    /// block; it fails with [`HostError::HeapCounterFull`]. Of the bytes that
    /// were in the memory, only the header in front of the new block changes.
    pub fn allocate_memory(&mut self, size: u32) -> (result: Result<u32, HostError>)
        requires
            old(self).ready(),
            old(self).state().allocator_present(),
        ensures
            final(self).ready(),
            final(self).state().allocator_present(),
            final(self).state().registry() == old(self).state().registry(),
            final(self).state().message() == old(self).state().message(),
            final(self).data.limits == old(self).data.limits,
            final(self).data.table == old(self).data.table,
            final(self).memory().limit() == old(self).memory().limit(),
            final(self).memory()@.len() >= old(self).memory()@.len(),
            result == allocation_result(
                old(self).state().allocator_slot()->0,
                old(self).memory()@,
                old(self).memory().limit(),
                size,
            ),
            size > MAX_POSSIBLE_ALLOCATION ==> result is Err,
            result matches Ok(pointer) ==> {
                &&& HEADER_SIZE <= pointer
                &&& pointer as nat + size as nat <= final(self).memory()@.len()
                &&& same_but_range(
                    old(self).memory()@,
                    final(self).memory()@,
                    pointer - HEADER_SIZE,
                    HEADER_SIZE as int,
                )
                &&& occupied_block(final(self).memory()@, pointer) == Some(block_size(size))
                &&& final(self).state().counters().bytes_allocated
                    == old(self).state().counters().bytes_allocated + block_size(size)
                    + HEADER_SIZE
                &&& deallocation_outcome(
                    final(self).state().allocator_slot()->0,
                    final(self).memory()@,
                    final(self).memory().limit(),
                    pointer,
                ) is Ok
            },
            result is Err ==> {
                &&& final(self).memory()@ == old(self).memory()@
                &&& final(self).state().counters() == old(self).state().counters()
            },
    {
        let state = self.data.host_state.as_mut().unwrap();
        let memory = self.data.memory.as_mut().unwrap();
        state.allocate_memory(memory, size)
    }

    /// Frees the block at `pointer` on the heap of the runtime module.
    ///
    /// The allocator is in its slot again when the call returns, on success
    /// and on failure alike. The answer is the allocator's. A block is freed
    /// only where the eight bytes in front of the pointer are the header of an
    /// occupied block, and is then no longer occupied: freeing it again
    /// fails. Only that header changes.
    pub fn deallocate_memory(&mut self, pointer: u32) -> (result: Result<(), HostError>)
        requires
            old(self).ready(),
            old(self).state().allocator_present(),
        ensures
            final(self).ready(),
            final(self).state().allocator_present(),
            final(self).state().registry() == old(self).state().registry(),
            final(self).state().message() == old(self).state().message(),
            final(self).data.limits == old(self).data.limits,
            final(self).data.table == old(self).data.table,
            final(self).memory().limit() == old(self).memory().limit(),
            final(self).memory()@.len() == old(self).memory()@.len(),
            result == call_result(
                deallocation_outcome(
                    old(self).state().allocator_slot()->0,
                    old(self).memory()@,
                    old(self).memory().limit(),
                    pointer,
                ),
            ),
            same_but_range(
                old(self).memory()@,
                final(self).memory()@,
                pointer - HEADER_SIZE,
                HEADER_SIZE as int,
            ),
            result is Ok ==> {
                &&& occupied_block(old(self).memory()@, pointer) matches Some(block)
                &&& freed(old(self).state().counters(), final(self).state().counters(), block)
                &&& occupied_block(final(self).memory()@, pointer) is None
            },
            result matches Err(error) ==> {
                &&& error is Allocator
                &&& final(self).state().counters() == old(self).state().counters()
            },
    {
        let state = self.data.host_state.as_mut().unwrap();
        let memory = self.data.memory.as_mut().unwrap();
        state.deallocate_memory(memory, pointer)
    }

    /// Records `message` as the panic message of this runtime entry.
    pub fn register_panic_error_message(&mut self, message: &str)
        requires
            old(self).data.host_state is Some,
        ensures
            final(self).data.host_state is Some,
            final(self).state().message() == Some(message@),
            final(self).state().registry() == old(self).state().registry(),
            final(self).state().allocator_slot() == old(self).state().allocator_slot(),
            final(self).data.limits == old(self).data.limits,
            final(self).data.table == old(self).data.table,
            final(self).data.memory == old(self).data.memory,
    {
        self.data.host_state.as_mut().unwrap().register_panic_error_message(message)
    }
    /// Copies `buf_len` bytes of the sandboxed memory `memory_id`, from
    /// `offset` on, into the caller's memory at `buf_ptr`.
    ///
    /// An id with no live memory behind it fails the call. A range that does
    /// not lie inside its memory, on either side, is reported as
    /// [`ERR_OUT_OF_BOUNDS`] and copies nothing.
    pub fn memory_get(&mut self, memory_id: u32, offset: u32, buf_ptr: u32, buf_len: u32) -> (result: Result<
        u32,
        HostError,
    >)
        requires
            old(self).sandbox_ready(),
        ensures
            final(self).sandbox_ready(),
            final(self).same_but_memory(old(self)),
            final(self).memory().limit() == old(self).memory().limit(),
            match old(self).registry().memory_at(memory_id) {
                Err(error) => {
                    &&& result == Err::<u32, HostError>(error)
                    &&& final(self).memory() == old(self).memory()
                },
                Ok(sandboxed) => if in_bounds(sandboxed@.len(), offset, buf_len as nat) && in_bounds(
                    old(self).memory()@.len(),
                    buf_ptr,
                    buf_len as nat,
                ) {
                    &&& result == Ok::<u32, HostError>(ERR_OK)
                    &&& final(self).memory()@ == overwritten(
                        old(self).memory()@,
                        buf_ptr,
                        bytes_at(sandboxed@, offset, buf_len as nat),
                    )
                } else {
                    &&& result == Ok::<u32, HostError>(ERR_OUT_OF_BOUNDS)
                    &&& final(self).memory() == old(self).memory()
                },
            },
    {
        let buffer = match self.sandbox_store().memory_read(memory_id, offset, buf_len as usize) {
            Ok(buffer) => buffer,
            Err(HostError::ReadOutOfBounds) => return Ok(ERR_OUT_OF_BOUNDS),
            Err(error) => return Err(error),
        };
        match self.write_memory(buf_ptr, buffer.as_slice()) {
            Ok(()) => Ok(ERR_OK),
            Err(_) => Ok(ERR_OUT_OF_BOUNDS),
        }
    }

    /// Copies `val_len` bytes of the caller's memory, from `val_ptr` on, into
    /// the sandboxed memory `memory_id` at `offset`.
    ///
    /// An id with no live memory behind it fails the call. A range that does
    /// not lie inside its memory, on either side, is reported as
    /// [`ERR_OUT_OF_BOUNDS`] and copies nothing.
    pub fn memory_set(&mut self, memory_id: u32, offset: u32, val_ptr: u32, val_len: u32) -> (result: Result<
        u32,
        HostError,
    >)
        requires
            old(self).sandbox_ready(),
        ensures
            final(self).sandbox_ready(),
            final(self).same_but_registry(old(self)),
            final(self).registry().instances() == old(self).registry().instances(),
            final(self).registry().same_memories_but(&old(self).registry(), memory_id),
            match old(self).registry().memory_at(memory_id) {
                Err(error) => result == Err::<u32, HostError>(error) && final(self).registry().memories()
                    == old(self).registry().memories(),
                Ok(sandboxed) => if in_bounds(sandboxed@.len(), offset, val_len as nat) && in_bounds(
                    old(self).memory()@.len(),
                    val_ptr,
                    val_len as nat,
                ) {
                    &&& result == Ok::<u32, HostError>(ERR_OK)
                    &&& final(self).registry().memory_at(memory_id) matches Ok(after)
                    &&& after@ == overwritten(
                        sandboxed@,
                        offset,
                        bytes_at(old(self).memory()@, val_ptr, val_len as nat),
                    )
                    &&& after.limit() == sandboxed.limit()
                } else {
                    &&& result == Ok::<u32, HostError>(ERR_OUT_OF_BOUNDS)
                    &&& final(self).registry().memories() == old(self).registry().memories()
                },
            },
    {
        match self.sandbox_store().memory(memory_id) {
            Ok(_) => {},
            Err(error) => return Err(error),
        }
        let buffer = match self.data.memory().read(val_ptr, val_len as usize) {
            Ok(buffer) => buffer,
            Err(_) => return Ok(ERR_OUT_OF_BOUNDS),
        };
        match self.sandbox_store_mut().memory_write(memory_id, offset, buffer.as_slice()) {
            Ok(()) => Ok(ERR_OK),
            Err(_) => Ok(ERR_OUT_OF_BOUNDS),
        }
    }

    /// Tears the sandboxed memory `memory_id` down. Its id is not used again.
    pub fn memory_teardown(&mut self, memory_id: u32) -> (result: Result<(), HostError>)
        requires
            old(self).sandbox_ready(),
        ensures
            final(self).sandbox_ready(),
            final(self).same_but_registry(old(self)),
            final(self).registry().instances() == old(self).registry().instances(),
            match old(self).registry().memory_at(memory_id) {
                Ok(_) => result is Ok && final(self).registry().memories() == torn_down(
                    old(self).registry().memories(),
                    memory_id,
                ),
                Err(error) => result == Err::<(), HostError>(error) && final(self).registry().memories()
                    == old(self).registry().memories(),
            },
    {
        self.sandbox_store_mut().memory_teardown(memory_id)
    }

    /// Creates a zeroed sandboxed memory of `initial` pages that may grow to
    /// `maximum` pages, and gives its id.
    pub fn memory_new(&mut self, initial: u32, maximum: u32) -> (result: Result<u32, HostError>)
        requires
            old(self).sandbox_ready(),
        ensures
            final(self).sandbox_ready(),
            final(self).same_but_registry(old(self)),
            final(self).registry().instances() == old(self).registry().instances(),
            old(self).registry().memories().len() >= MAX_MEMORIES ==> result == Err::<u32, HostError>(
                HostError::RegistryFull,
            ),
            old(self).registry().memories().len() < MAX_MEMORIES && !LinearMemory::valid_limits(
                initial,
                limit_of(maximum),
            ) ==> result == Err::<u32, HostError>(HostError::InvalidMemoryLimits),
            old(self).registry().memories().len() < MAX_MEMORIES && LinearMemory::valid_limits(
                initial,
                limit_of(maximum),
            ) ==> result == Ok::<u32, HostError>(next_id(old(self).registry().memories()) as u32),
            result is Err ==> final(self).registry().memories() == old(self).registry().memories(),
            result is Ok ==> exists|memory: LinearMemory|
                {
                    &&& final(self).registry().memories() == registered(
                        old(self).registry().memories(),
                        memory,
                    )
                    &&& memory@ == zeroes((initial as nat) * (PAGE_SIZE as nat))
                    &&& memory.limit() == limit_of(maximum)
                },
    {
        self.sandbox_store_mut().new_memory(initial, maximum)
    }

    /// The size of the sandboxed memory `memory_id` in pages.
    pub fn memory_size(&self, memory_id: u32) -> (result: Result<u32, HostError>)
        requires
            self.sandbox_ready(),
        ensures
            match self.registry().memory_at(memory_id) {
                Ok(memory) => result == Ok::<u32, HostError>(page_count(memory@.len()) as u32),
                Err(error) => result == Err::<u32, HostError>(error),
            },
    {
        self.sandbox_store().memory_size(memory_id)
    }

    /// Grows the sandboxed memory `memory_id` by `pages_num` zeroed pages and
    /// gives the number of pages it had before. Growing past the maximum
    /// fails and changes nothing.
    pub fn memory_grow(&mut self, memory_id: u32, pages_num: u32) -> (result: Result<u32, HostError>)
        requires
            old(self).sandbox_ready(),
        ensures
            final(self).sandbox_ready(),
            final(self).same_but_registry(old(self)),
            final(self).registry().instances() == old(self).registry().instances(),
            final(self).registry().same_memories_but(&old(self).registry(), memory_id),
            match old(self).registry().memory_at(memory_id) {
                Ok(memory) => if memory.can_grow(pages_num) {
                    &&& result == Ok::<u32, HostError>(page_count(memory@.len()) as u32)
                    &&& final(self).registry().memory_at(memory_id) matches Ok(after)
                    &&& after@ == memory@ + zeroes((pages_num as nat) * (PAGE_SIZE as nat))
                    &&& after.limit() == memory.limit()
                } else {
                    &&& result == Err::<u32, HostError>(HostError::MemoryGrowthRefused)
                    &&& final(self).registry().memories() == old(self).registry().memories()
                },
                Err(error) => {
                    &&& result == Err::<u32, HostError>(error)
                    &&& final(self).registry().memories() == old(self).registry().memories()
                },
            },
    {
        self.sandbox_store_mut().memory_grow(memory_id, pages_num)
    }

    /// Tears the instance `instance_id` down. Its id is not used again.
    pub fn instance_teardown(&mut self, instance_id: u32) -> (result: Result<(), HostError>)
        requires
            old(self).sandbox_ready(),
        ensures
            final(self).sandbox_ready(),
            final(self).same_but_registry(old(self)),
            final(self).registry().memories() == old(self).registry().memories(),
            match old(self).registry().instance_at(instance_id) {
                Ok(_) => result is Ok && final(self).registry().instances() == torn_down(
                    old(self).registry().instances(),
                    instance_id,
                ),
                Err(error) => result == Err::<(), HostError>(error) && final(self).registry().instances()
                    == old(self).registry().instances(),
            },
    {
        self.sandbox_store_mut().instance_teardown(instance_id)
    }

    /// The engine's handle to the instance `instance_id`. Operations on the
    /// globals of an instance start here: an id with no live instance behind
    /// it fails the call before the engine is asked anything.
    pub fn get_instance_ptr(&self, instance_id: u32) -> (result: Result<HostPointer, HostError>)
        requires
            self.sandbox_ready(),
        ensures
            match self.registry().instance_at(instance_id) {
                Ok(entry) => result == Ok::<HostPointer, HostError>(entry.instance),
                Err(error) => result == Err::<HostPointer, HostError>(error),
            },
    {
        self.sandbox_store().instance(instance_id)
    }

    /// Looks up whom an invocation of `instance_id` goes to, given the
    /// arguments as they decoded (`None` where they did not).
    pub fn lookup_invocation(&self, instance_id: u32, decoded: Option<Vec<Value>>) -> (result: Result<
        Invocation,
        HostError,
    >)
        requires
            self.sandbox_ready(),
        ensures
            match invocation_for(
                self.registry(),
                instance_id,
                match decoded {
                    Some(args) => Some(args@),
                    None => None,
                },
            ) {
                Ok((entry, args)) => result matches Ok(invocation) && invocation.instance
                    == entry.instance && invocation.dispatch_thunk == entry.dispatch_thunk
                    && invocation.args@ == args,
                Err(error) => result == Err::<Invocation, HostError>(error),
            },
    {
        let args = match decoded {
            Some(args) => args,
            None => return Err(HostError::ArgumentsUndecodable),
        };
        let instance = match self.sandbox_store().instance(instance_id) {
            Ok(instance) => instance,
            Err(error) => return Err(error),
        };
        let dispatch_thunk = match self.sandbox_store().dispatch_thunk(instance_id) {
            Ok(dispatch_thunk) => dispatch_thunk,
            Err(error) => return Err(error),
        };
        Ok(Invocation { instance, dispatch_thunk, args })
    }

    /// Prepares the invocation of an export of the instance `instance_id`:
    /// decodes the argument bytes and looks the instance and its dispatch
    /// thunk up. Arguments that do not decode fail the call; so does an id
    /// with no live instance behind it.
    pub fn invoke_begin(&self, instance_id: u32, args: &[u8]) -> (result: Result<Invocation, HostError>)
        requires
            self.sandbox_ready(),
        ensures
            match invocation_for(self.registry(), instance_id, decoded_arguments(args@)) {
                Ok((entry, args)) => result matches Ok(invocation) && invocation.instance
                    == entry.instance && invocation.dispatch_thunk == entry.dispatch_thunk
                    && invocation.args@ == args,
                Err(error) => result == Err::<Invocation, HostError>(error),
            },
    {
        self.lookup_invocation(instance_id, decode_arguments(args))
    }

    /// Writes an encoded return value into the caller's buffer of
    /// `return_val_len` bytes at `return_val`.
    ///
    /// A value longer than the buffer fails the call, and so does a buffer
    /// that does not lie inside the memory; in both cases nothing is written.
    pub fn write_return_value(&mut self, encoded: &[u8], return_val: u32, return_val_len: u32) -> (result:
        Result<u32, HostError>)
        requires
            old(self).ready(),
        ensures
            final(self).ready(),
            final(self).same_but_memory(old(self)),
            final(self).memory().limit() == old(self).memory().limit(),
            if encoded@.len() > return_val_len {
                &&& result == Err::<u32, HostError>(HostError::ReturnBufferTooSmall)
                &&& final(self).memory() == old(self).memory()
            } else if !in_bounds(old(self).memory()@.len(), return_val, encoded@.len()) {
                &&& result == Err::<u32, HostError>(HostError::ReturnValueUnwritable)
                &&& final(self).memory() == old(self).memory()
            } else {
                &&& result == Ok::<u32, HostError>(ERR_OK)
                &&& final(self).memory()@ == overwritten(old(self).memory()@, return_val, encoded@)
            },
    {
        if encoded.len() > return_val_len as usize {
            return Err(HostError::ReturnBufferTooSmall);
        }
        match self.write_memory(return_val, encoded) {
            Ok(()) => Ok(ERR_OK),
            Err(_) => Err(HostError::ReturnValueUnwritable),
        }
    }

    /// Finishes an invocation once the engine has run the export.
    ///
    /// No return value gives [`ERR_OK`]. A return value is encoded and
    /// written into the caller's buffer, as [`HostContext::write_return_value`]
    /// says. A failed execution gives [`ERR_EXECUTION`]: the supervisor learns
    /// that the guest failed and nothing more.
    pub fn invoke_complete(
        &mut self,
        outcome: InvocationOutcome,
        return_val: u32,
        return_val_len: u32,
    ) -> (result: Result<u32, HostError>)
        requires
            old(self).ready(),
        ensures
            final(self).ready(),
            final(self).same_but_memory(old(self)),
            final(self).memory().limit() == old(self).memory().limit(),
            match outcome {
                InvocationOutcome::Unit => {
                    &&& result == Ok::<u32, HostError>(ERR_OK)
                    &&& final(self).memory() == old(self).memory()
                },
                InvocationOutcome::Failed => {
                    &&& result == Ok::<u32, HostError>(ERR_EXECUTION)
                    &&& final(self).memory() == old(self).memory()
                },
                InvocationOutcome::Value(value) => if encoded_return_value(value).len() > return_val_len {
                    &&& result == Err::<u32, HostError>(HostError::ReturnBufferTooSmall)
                    &&& final(self).memory() == old(self).memory()
                } else if !in_bounds(
                    old(self).memory()@.len(),
                    return_val,
                    encoded_return_value(value).len(),
                ) {
                    &&& result == Err::<u32, HostError>(HostError::ReturnValueUnwritable)
                    &&& final(self).memory() == old(self).memory()
                } else {
                    &&& result == Ok::<u32, HostError>(ERR_OK)
                    &&& final(self).memory()@ == overwritten(
                        old(self).memory()@,
                        return_val,
                        encoded_return_value(value),
                    )
                },
            },
    {
        match outcome {
            InvocationOutcome::Unit => Ok(ERR_OK),
            InvocationOutcome::Failed => Ok(ERR_EXECUTION),
            InvocationOutcome::Value(value) => {
                let encoded = encode_return_value(value);
                self.write_return_value(encoded.as_slice(), return_val, return_val_len)
            },
        }
    }

    /// Starts the creation of a sandboxed instance.
    ///
    /// The dispatch thunk is looked up in the function table under
    /// `dispatch_thunk_id`; `environment_decoded` says whether the guest
    /// environment definition decoded against the registry. A missing table
    /// and an index outside the table fail the call. A slot that holds no
    /// function, and an environment that did not decode, are reported as
    /// [`ERR_MODULE`] and leave everything as it was. Otherwise the registry
    /// leaves its slot, because instantiating runs guest code that may call
    /// back into the host, and is handed out together with the thunk.
    pub fn instance_new_begin(&mut self, dispatch_thunk_id: u32, environment_decoded: bool) -> (result: Result<
        InstantiationStep,
        HostError,
    >)
        requires
            old(self).sandbox_ready(),
        ensures
            final(self).ready(),
            final(self).same_but_registry(old(self)),
            match resolution(
                match old(self).data.table {
                    Some(table) => Some(table@),
                    None => None,
                },
                dispatch_thunk_id,
                environment_decoded,
            ) {
                Err(error) => result matches Err(e) && e == error && final(self).state().registry()
                    == old(self).state().registry(),
                Ok(None) => result matches Ok(InstantiationStep::Rejected(code)) && code == ERR_MODULE
                    && final(self).state().registry() == old(self).state().registry(),
                Ok(Some(func)) => {
                    &&& result matches Ok(InstantiationStep::Instantiate(pending))
                    &&& pending.registry() == old(self).registry()
                    &&& pending.thunk() == func
                    &&& final(self).state().registry() is None
                },
            },
    {
        let element = match self.data.table() {
            None => return Err(HostError::NoTable),
            Some(table) => match table.get(dispatch_thunk_id) {
                None => return Err(HostError::DispatchThunkOutOfBounds),
                Some(element) => element,
            },
        };
        let dispatch_thunk = match element {
            TableElement::FuncRef(Some(func)) => func,
            _ => return Ok(InstantiationStep::Rejected(ERR_MODULE)),
        };
        if !environment_decoded {
            return Ok(InstantiationStep::Rejected(ERR_MODULE));
        }
        let store = self.host_state_mut().take_sandbox_store();
        Ok(InstantiationStep::Instantiate(PendingInstantiation { store, dispatch_thunk }))
    }

    /// Finishes the creation of a sandboxed instance once the engine is done.
    ///
    /// The registry goes back into its slot whatever the outcome. An
    /// instantiated module is registered with its dispatch thunk and its id is
    /// returned; a trapped start function gives [`ERR_EXECUTION`]; any other
    /// failure, and a registry with no id left, gives [`ERR_MODULE`].
    pub fn instance_new_complete(
        &mut self,
        pending: PendingInstantiation,
        outcome: InstantiationOutcome,
    ) -> (code: u32)
        requires
            old(self).ready(),
            pending.registry().wf(),
        ensures
            final(self).sandbox_ready(),
            final(self).same_but_registry(old(self)),
            final(self).registry().memories() == pending.registry().memories(),
            code == completion(pending.registry(), pending.thunk(), outcome).0,
            final(self).registry().instances() == completion(
                pending.registry(),
                pending.thunk(),
                outcome,
            ).1,
    {
        let PendingInstantiation { store, dispatch_thunk } = pending;
        // The registry is restored first: nothing below can leave it out.
        self.host_state_mut().restore_sandbox_store(store);
        match outcome {
            InstantiationOutcome::Instantiated(instance) => {
                match self.sandbox_store_mut().register_instance(instance, dispatch_thunk) {
                    Some(id) => id,
                    None => ERR_MODULE,
                }
            },
            InstantiationOutcome::StartTrapped => ERR_EXECUTION,
            InstantiationOutcome::Failed => ERR_MODULE,
        }
    }

    /// Puts the registry back into its slot when the engine did not come back
    /// with an outcome, as when guest code panicked while instantiating. The
    /// caller restores the registry with this before it lets the panic go on.
    pub fn instance_new_abort(&mut self, pending: PendingInstantiation)
        requires
            old(self).ready(),
            pending.registry().wf(),
        ensures
            final(self).sandbox_ready(),
            final(self).same_but_registry(old(self)),
            final(self).registry() == pending.registry(),
    {
        let PendingInstantiation { store, dispatch_thunk: _ } = pending;
        self.host_state_mut().restore_sandbox_store(store);
    }
}

} // verus!
