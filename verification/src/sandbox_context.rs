//! The bridge from a sandboxed call back out to the supervisor.
//!
//! While a guest runs, a call it makes to one of its imports is routed to the
//! supervisor through the dispatch thunk of the instance. The thunk takes four
//! 32-bit integers, the pointer to the serialized arguments, their length, the
//! state tag the supervisor chose and the index of the function that is
//! meant, and gives back one 64-bit integer.

use vstd::prelude::*;

use crate::error::HostError;
use crate::host::HostContext;
use crate::table::Func;
use crate::value::Value;

verus! {

/// One call in flight from inside a sandboxed invocation to the supervisor.
pub struct SandboxContext<'a, 'b> {
    /// The context of the host call that started the invocation.
    pub host_context: &'a mut HostContext<'b>,
    /// The supervisor function that every call of the guest goes through.
    pub dispatch_thunk: Func,
    /// The tag the supervisor wants handed back with every call.
    pub state: u32,
}

/// The four arguments the dispatch thunk is called with. Each number is
/// passed as the 32-bit integer with the same low bits.
pub open spec fn spec_dispatch_arguments(
    invoke_args_ptr: u32,
    invoke_args_len: u32,
    state: u32,
    func_idx: usize,
) -> Seq<Value> {
    seq![
        Value::I32(invoke_args_ptr as i32),
        Value::I32(invoke_args_len as i32),
        Value::I32(state as i32),
        Value::I32(func_idx as i32),
    ]
}

/// What a call of the dispatch thunk amounts to: its one 64-bit result, or
/// the failure to report.
pub open spec fn spec_dispatch_result(returned: Result<Seq<Value>, String>) -> Result<i64, HostError> {
    match returned {
        Ok(values) => if values.len() == 1 && values[0] is I64 {
            Ok(values[0]->I64_0)
        } else {
            Err(HostError::UnexpectedSupervisorResult)
        },
        Err(reason) => Err(HostError::SupervisorCall(reason)),
    }
}

/// Reads the outcome of calling the dispatch thunk. `returned` holds the
/// values the thunk gave back, or the engine's message where the call
/// trapped or did not fit the thunk's signature.
///
/// Exactly one 64-bit integer is the result of the call. Anything else the
/// thunk returned is an unexpected result; a failed call is reported with the
/// engine's message.
pub fn dispatch_result(returned: Result<Vec<Value>, String>) -> (result: Result<i64, HostError>)
    ensures
        result == spec_dispatch_result(
            match returned {
                Ok(values) => Ok(values@),
                Err(reason) => Err(reason),
            },
        ),
{
    match returned {
        Ok(values) => {
            if values.len() == 1 {
                match values[0] {
                    Value::I64(value) => Ok(value),
                    _ => Err(HostError::UnexpectedSupervisorResult),
                }
            } else {
                Err(HostError::UnexpectedSupervisorResult)
            }
        },
        Err(reason) => Err(HostError::SupervisorCall(reason)),
    }
}

impl<'a, 'b> SandboxContext<'a, 'b> {
    /// A bridge for calls that come out of an invocation started from
    /// `host_context`.
    pub fn new(host_context: &'a mut HostContext<'b>, dispatch_thunk: Func, state: u32) -> (context:
        SandboxContext<'a, 'b>)
        ensures
            *context.host_context == *old(host_context),
            *final(context.host_context) == *final(host_context),
            context.dispatch_thunk == dispatch_thunk,
            context.state == state,
    {
        SandboxContext { host_context, dispatch_thunk, state }
    }

    /// The arguments to call the dispatch thunk with, for a guest that calls
    /// the supervisor function `func_idx` with `invoke_args_len` bytes of
    /// serialized arguments at `invoke_args_ptr`.
    pub fn dispatch_arguments(&self, invoke_args_ptr: u32, invoke_args_len: u32, func_idx: usize) -> (arguments:
        [Value; 4])
        ensures
            arguments@ == spec_dispatch_arguments(
                invoke_args_ptr,
                invoke_args_len,
                self.state,
                func_idx,
            ),
    {
        let arguments = [
            Value::I32(invoke_args_ptr as i32),
            Value::I32(invoke_args_len as i32),
            Value::I32(self.state as i32),
            Value::I32(func_idx as i32),
        ];
        assert(arguments@ =~= spec_dispatch_arguments(
            invoke_args_ptr,
            invoke_args_len,
            self.state,
            func_idx,
        ));
        arguments
    }

    /// The context of the host call, for the supervisor function that the
    /// thunk dispatches to: it reads and writes memory and uses the sandbox
    /// through the same operations as any other host function.
    pub fn supervisor_context(&mut self) -> (context: &mut HostContext<'b>)
        ensures
            *context == *old(self).host_context,
            *final(self).host_context == *final(context),
            final(self).dispatch_thunk == old(self).dispatch_thunk,
            final(self).state == old(self).state,
    {
        self.host_context
    }
}

} // verus!
