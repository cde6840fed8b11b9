//! Hard failures of a host call.
//!
//! A [`HostError`] means the caller broke the host's contract: it is never
//! shown to guest code as a status code.

use vstd::prelude::*;

verus! {

/// The kind of a refusal of the heap allocator.
#[derive(Clone, Copy, Debug, PartialEq, Eq)]
pub enum AllocatorErrorKind {
    /// More bytes were requested than a single allocation may have.
    RequestedAllocationTooLarge,
    /// The heap cannot grow any further.
    AllocatorOutOfSpace,
    /// The memory is smaller than it was on an earlier call.
    MemoryShrinked,
    /// Any other failure; the text has the allocator's reason.
    Other,
}

/// Why the heap allocator refused a request: the kind of the refusal, and
/// the allocator's own words for it.
#[derive(Clone, Debug, PartialEq, Eq)]
pub struct AllocatorError {
    /// The kind of the refusal.
    pub kind: AllocatorErrorKind,
    /// The text the allocator gives for the refusal.
    pub text: String,
}

impl AllocatorError {
    /// The text of [`AllocatorError::message`].
    pub open spec fn spec_message(&self) -> Seq<char> {
        self.text@
    }

    /// A description for logs and for the engine's failure channel: the
    /// allocator's own text.
    pub fn message(&self) -> (text: String)
        ensures
            text@ == self.spec_message(),
    {
        self.text.clone()
    }
}

/// A failure of the host call itself.
#[derive(Clone, Debug, PartialEq, Eq)]
pub enum HostError {
    /// A read reached past the end of the linear memory.
    ReadOutOfBounds,
    /// A write reached past the end of the linear memory.
    WriteOutOfBounds,
    /// The heap allocator refused the request.
    Allocator(AllocatorError),
    /// The argument bytes of an invocation do not decode.
    ArgumentsUndecodable,
    /// The encoded return value is longer than the buffer offered for it.
    ReturnBufferTooSmall,
    /// The return buffer does not lie inside the caller's memory.
    ReturnValueUnwritable,
    /// The runtime module has no function table.
    NoTable,
    /// The dispatch thunk index lies outside the function table.
    DispatchThunkOutOfBounds,
    /// No instance was ever registered under the id.
    InstanceNotFound,
    /// The instance under the id has been torn down.
    InstanceTornDown,
    /// No sandboxed memory was ever registered under the id.
    MemoryNotFound,
    /// The sandboxed memory under the id has been torn down.
    MemoryTornDown,
    /// The page counts given for a new sandboxed memory contradict each other
    /// or exceed what a linear memory can have.
    InvalidMemoryLimits,
    /// A sandboxed memory was asked to grow past its maximum.
    MemoryGrowthRefused,
    /// The registry has handed out every id it can.
    RegistryFull,
    /// The allocator's count of allocated bytes leaves no room for another
    /// block, so the allocator was not asked.
    HeapCounterFull,
    /// The dispatch thunk returned something other than one 64-bit integer.
    UnexpectedSupervisorResult,
    /// The dispatch thunk trapped; the engine's message is attached.
    SupervisorCall(String),
}

impl HostError {
    /// The text of [`HostError::message`].
    pub open spec fn spec_message(&self) -> Seq<char> {
        match self {
            HostError::ReadOutOfBounds => "memory read is out of bounds"@,
            HostError::WriteOutOfBounds => "memory write is out of bounds"@,
            HostError::Allocator(inner) => inner.spec_message(),
            HostError::ArgumentsUndecodable => "Can't decode serialized arguments for the invocation"@,
            HostError::ReturnBufferTooSmall => "Return value buffer is too small"@,
            HostError::ReturnValueUnwritable => "can't write return value"@,
            HostError::NoTable => "Runtime doesn't have a table; sandbox is unavailable"@,
            HostError::DispatchThunkOutOfBounds => "dispatch_thunk_id is out of bounds"@,
            HostError::InstanceNotFound => "Trying to access a non-existent instance"@,
            HostError::InstanceTornDown => "Trying to access a torndown instance"@,
            HostError::MemoryNotFound => "Trying to access a non-existent sandboxed memory"@,
            HostError::MemoryTornDown => "Trying to access a torndown sandboxed memory"@,
            HostError::InvalidMemoryLimits => "Invalid limits for a sandboxed memory"@,
            HostError::MemoryGrowthRefused => "Sandboxed memory cannot grow past its maximum"@,
            HostError::RegistryFull => "The sandbox registry is full"@,
            HostError::HeapCounterFull => "The count of allocated bytes leaves no room for a block"@,
            HostError::UnexpectedSupervisorResult => "Supervisor function returned unexpected result!"@,
            HostError::SupervisorCall(reason) => reason@,
        }
    }

    /// A description for logs and for the engine's failure channel.
    pub fn message(&self) -> (text: String)
        ensures
            text@ == self.spec_message(),
    {
        match self {
            HostError::ReadOutOfBounds => "memory read is out of bounds".to_owned(),
            HostError::WriteOutOfBounds => "memory write is out of bounds".to_owned(),
            HostError::Allocator(inner) => inner.message(),
            HostError::ArgumentsUndecodable => {
                "Can't decode serialized arguments for the invocation".to_owned()
            },
            HostError::ReturnBufferTooSmall => "Return value buffer is too small".to_owned(),
            HostError::ReturnValueUnwritable => "can't write return value".to_owned(),
            HostError::NoTable => "Runtime doesn't have a table; sandbox is unavailable".to_owned(),
            HostError::DispatchThunkOutOfBounds => "dispatch_thunk_id is out of bounds".to_owned(),
            HostError::InstanceNotFound => "Trying to access a non-existent instance".to_owned(),
            HostError::InstanceTornDown => "Trying to access a torndown instance".to_owned(),
            HostError::MemoryNotFound => "Trying to access a non-existent sandboxed memory".to_owned(),
            HostError::MemoryTornDown => "Trying to access a torndown sandboxed memory".to_owned(),
            HostError::InvalidMemoryLimits => "Invalid limits for a sandboxed memory".to_owned(),
            HostError::MemoryGrowthRefused => "Sandboxed memory cannot grow past its maximum".to_owned(),
            HostError::RegistryFull => "The sandbox registry is full".to_owned(),
            HostError::HeapCounterFull => {
                "The count of allocated bytes leaves no room for a block".to_owned()
            },
            HostError::UnexpectedSupervisorResult => {
                "Supervisor function returned unexpected result!".to_owned()
            },
            HostError::SupervisorCall(reason) => reason.clone(),
        }
    }
}

} // verus!
