use sandbox_host::error::HostError;
use sandbox_host::host::{HostContext, Invocation, InvocationOutcome};
use sandbox_host::host_state::HostState;
use sandbox_host::memory::LinearMemory;
use sandbox_host::status::{ERR_EXECUTION, ERR_OK};
use sandbox_host::store_data::StoreData;
use sandbox_host::table::Func;
use sandbox_host::value::Value;

fn store_data_for_invocations() -> StoreData {
    StoreData {
        limits: wasmtime::StoreLimits::default(),
        host_state: Some(HostState::new(sc_allocator::FreeingBumpHeapAllocator::new(0))),
        memory: Some(LinearMemory::new(1, Some(1)).unwrap()),
        table: None,
    }
}

fn memory_bytes(context: &HostContext, address: u32, len: usize) -> Vec<u8> {
    let mut out = vec![0u8; len];
    context.read_memory_into(address, &mut out).unwrap();
    out
}

#[test]
fn arguments_are_decoded_and_the_instance_is_looked_up() {
    let mut data = store_data_for_invocations();
    let mut context = HostContext::new(&mut data);
    let id = context.sandbox_store_mut().register_instance(0xBEEF, Func { id: 5 }).unwrap();
    // A list of two values: the 32-bit integer 7 and the 64-bit integer 42.
    let args = [0x08, 0x00, 7, 0, 0, 0, 0x01, 42, 0, 0, 0, 0, 0, 0, 0];
    assert_eq!(
        context.invoke_begin(id, &args),
        Ok(Invocation {
            instance: 0xBEEF,
            dispatch_thunk: Func { id: 5 },
            args: vec![Value::I32(7), Value::I64(42)],
        })
    );
}

#[test]
fn every_kind_of_argument_is_decoded() {
    let mut data = store_data_for_invocations();
    let mut context = HostContext::new(&mut data);
    let id = context.sandbox_store_mut().register_instance(1, Func { id: 0 }).unwrap();
    let args = [
        0x10, 0x00, 0xFF, 0xFF, 0xFF, 0xFF, 0x01, 0, 0, 0, 0, 0, 0, 0, 0x80, 0x02, 1, 2, 3, 4, 0x03,
        1, 2, 3, 4, 5, 6, 7, 8,
    ];
    let invocation = context.invoke_begin(id, &args).unwrap();
    assert_eq!(
        invocation.args,
        vec![
            Value::I32(-1),
            Value::I64(i64::MIN),
            Value::F32(0x04030201),
            Value::F64(0x0807060504030201),
        ]
    );
    assert_eq!(context.invoke_begin(id, &[0x00]).unwrap().args, vec![]);
}

#[test]
fn arguments_that_do_not_decode_fail_the_call() {
    let mut data = store_data_for_invocations();
    let mut context = HostContext::new(&mut data);
    let id = context.sandbox_store_mut().register_instance(1, Func { id: 0 }).unwrap();
    assert_eq!(context.invoke_begin(id, &[]), Err(HostError::ArgumentsUndecodable));
    assert_eq!(context.invoke_begin(id, &[0x04, 0x00, 1, 2]), Err(HostError::ArgumentsUndecodable));
    assert_eq!(context.invoke_begin(id, &[0x04, 0x09, 1, 2, 3, 4]), Err(HostError::ArgumentsUndecodable));
    // The arguments are looked at before the instance is.
    assert_eq!(context.invoke_begin(77, &[]), Err(HostError::ArgumentsUndecodable));
}

#[test]
fn invoking_a_dead_instance_fails_the_call() {
    let mut data = store_data_for_invocations();
    let mut context = HostContext::new(&mut data);
    assert_eq!(context.invoke_begin(0, &[0x00]), Err(HostError::InstanceNotFound));
    let id = context.sandbox_store_mut().register_instance(1, Func { id: 0 }).unwrap();
    assert_eq!(context.instance_teardown(id), Ok(()));
    assert_eq!(context.invoke_begin(id, &[0x00]), Err(HostError::InstanceTornDown));
    assert_eq!(context.get_instance_ptr(id), Err(HostError::InstanceTornDown));
    assert_eq!(context.lookup_invocation(id, Some(vec![])), Err(HostError::InstanceTornDown));
    assert_eq!(context.lookup_invocation(id, None), Err(HostError::ArgumentsUndecodable));
}

#[test]
fn a_return_value_is_encoded_into_the_buffer() {
    let mut data = store_data_for_invocations();
    let mut context = HostContext::new(&mut data);
    assert_eq!(context.invoke_complete(InvocationOutcome::Value(Value::I64(42)), 100, 10), Ok(ERR_OK));
    assert_eq!(memory_bytes(&context, 99, 12), vec![0, 1, 1, 42, 0, 0, 0, 0, 0, 0, 0, 0]);
    assert_eq!(
        context.invoke_complete(InvocationOutcome::Value(Value::I32(0x01020304)), 200, 64),
        Ok(ERR_OK)
    );
    assert_eq!(memory_bytes(&context, 199, 8), vec![0, 1, 0, 4, 3, 2, 1, 0]);
    assert_eq!(context.invoke_complete(InvocationOutcome::Value(Value::F32(1)), 300, 6), Ok(ERR_OK));
    assert_eq!(memory_bytes(&context, 300, 6), vec![1, 2, 1, 0, 0, 0]);
    assert_eq!(context.invoke_complete(InvocationOutcome::Value(Value::F64(1)), 400, 10), Ok(ERR_OK));
    assert_eq!(memory_bytes(&context, 400, 10), vec![1, 3, 1, 0, 0, 0, 0, 0, 0, 0]);
}

#[test]
fn a_return_value_larger_than_the_buffer_fails_the_call() {
    let mut data = store_data_for_invocations();
    let mut context = HostContext::new(&mut data);
    assert_eq!(context.write_memory(100, &[7; 16]), Ok(()));
    assert_eq!(
        context.invoke_complete(InvocationOutcome::Value(Value::I64(-1)), 100, 9),
        Err(HostError::ReturnBufferTooSmall)
    );
    assert_eq!(memory_bytes(&context, 100, 16), vec![7; 16]);
    assert_eq!(
        context.invoke_complete(InvocationOutcome::Value(Value::I32(1)), 100, 0),
        Err(HostError::ReturnBufferTooSmall)
    );
    assert_eq!(memory_bytes(&context, 100, 16), vec![7; 16]);
}

#[test]
fn a_return_buffer_outside_the_memory_fails_the_call() {
    let mut data = store_data_for_invocations();
    let mut context = HostContext::new(&mut data);
    assert_eq!(
        context.invoke_complete(InvocationOutcome::Value(Value::I64(1)), 65530, 10),
        Err(HostError::ReturnValueUnwritable)
    );
    assert_eq!(memory_bytes(&context, 65530, 6), vec![0; 6]);
    assert_eq!(context.invoke_complete(InvocationOutcome::Value(Value::I64(1)), 65526, 10), Ok(ERR_OK));
}

#[test]
fn no_value_and_a_trap_are_status_codes() {
    let mut data = store_data_for_invocations();
    let mut context = HostContext::new(&mut data);
    assert_eq!(context.invoke_complete(InvocationOutcome::Unit, u32::MAX, 0), Ok(ERR_OK));
    assert_eq!(context.invoke_complete(InvocationOutcome::Failed, u32::MAX, 0), Ok(ERR_EXECUTION));
    assert_eq!(memory_bytes(&context, 0, 4), vec![0; 4]);
}

#[test]
fn encoded_bytes_are_written_as_they_are() {
    let mut data = store_data_for_invocations();
    let mut context = HostContext::new(&mut data);
    assert_eq!(context.write_return_value(&[1, 2, 3], 10, 3), Ok(ERR_OK));
    assert_eq!(memory_bytes(&context, 9, 5), vec![0, 1, 2, 3, 0]);
    assert_eq!(context.write_return_value(&[1, 2, 3], 20, 2), Err(HostError::ReturnBufferTooSmall));
    assert_eq!(context.write_return_value(&[1, 2, 3], 65534, 3), Err(HostError::ReturnValueUnwritable));
    assert_eq!(context.write_return_value(&[], 65536, 0), Ok(ERR_OK));
}
