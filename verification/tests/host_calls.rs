use sandbox_host::error::HostError;
use sandbox_host::host::{global_set_status, GlobalSetOutcome, HostContext};
use sandbox_host::host_state::HostState;
use sandbox_host::memory::LinearMemory;
use sandbox_host::status::{
    ERROR_GLOBALS_NOT_FOUND, ERROR_GLOBALS_OK, ERROR_GLOBALS_OTHER, ERR_EXECUTION, ERR_MODULE,
    ERR_OK, ERR_OUT_OF_BOUNDS, MEM_UNLIMITED,
};
use sandbox_host::store_data::StoreData;

fn store_data_with_one_page() -> StoreData {
    StoreData {
        limits: wasmtime::StoreLimits::default(),
        host_state: Some(HostState::new(sc_allocator::FreeingBumpHeapAllocator::new(0))),
        memory: Some(LinearMemory::new(1, Some(4)).unwrap()),
        table: None,
    }
}

#[test]
fn sandboxed_memory_end_to_end() {
    let mut data = store_data_with_one_page();
    let mut context = HostContext::new(&mut data);
    let id = context.memory_new(1, 2).unwrap();
    assert_eq!(context.write_memory(1000, &[1, 2, 3, 4]), Ok(()));
    assert_eq!(context.memory_set(id, 0, 1000, 4), Ok(ERR_OK));
    assert_eq!(context.memory_get(id, 0, 2000, 4), Ok(ERR_OK));
    let mut out = [0u8; 4];
    assert_eq!(context.read_memory_into(2000, &mut out), Ok(()));
    assert_eq!(out, [1, 2, 3, 4]);
    assert_eq!(context.memory_grow(id, 1), Ok(1));
    assert_eq!(context.memory_size(id), Ok(2));
    assert_eq!(context.memory_grow(id, 1), Err(HostError::MemoryGrowthRefused));
    assert_eq!(context.memory_size(id), Ok(2));
}

#[test]
fn out_of_range_sandbox_offset_is_a_status_code() {
    let mut data = store_data_with_one_page();
    let mut context = HostContext::new(&mut data);
    let id = context.memory_new(1, 1).unwrap();
    assert_eq!(context.memory_get(id, 65533, 0, 4), Ok(ERR_OUT_OF_BOUNDS));
    assert_eq!(context.memory_set(id, 65533, 0, 4), Ok(ERR_OUT_OF_BOUNDS));
    assert_eq!(context.memory_get(id, u32::MAX, 0, 1), Ok(ERR_OUT_OF_BOUNDS));
    assert_eq!(context.memory_set(id, u32::MAX, 0, 1), Ok(ERR_OUT_OF_BOUNDS));
}

#[test]
fn out_of_range_host_buffer_is_a_status_code() {
    let mut data = store_data_with_one_page();
    let mut context = HostContext::new(&mut data);
    let id = context.memory_new(1, 1).unwrap();
    assert_eq!(context.memory_get(id, 0, 65533, 4), Ok(ERR_OUT_OF_BOUNDS));
    assert_eq!(context.memory_set(id, 0, 65533, 4), Ok(ERR_OUT_OF_BOUNDS));
    assert_eq!(context.memory_get(id, 0, u32::MAX, u32::MAX), Ok(ERR_OUT_OF_BOUNDS));
    assert_eq!(context.memory_set(id, 0, u32::MAX, u32::MAX), Ok(ERR_OUT_OF_BOUNDS));
}

#[test]
fn a_refused_copy_moves_no_byte() {
    let mut data = store_data_with_one_page();
    let mut context = HostContext::new(&mut data);
    let id = context.memory_new(1, 1).unwrap();
    assert_eq!(context.write_memory(0, &[9, 9, 9, 9]), Ok(()));
    assert_eq!(context.memory_set(id, 65534, 0, 4), Ok(ERR_OUT_OF_BOUNDS));
    assert_eq!(context.sandbox_store().memory_read(id, 65534, 2), Ok(vec![0, 0]));
    assert_eq!(context.memory_get(id, 0, 65534, 4), Ok(ERR_OUT_OF_BOUNDS));
    let mut tail = [7u8; 2];
    assert_eq!(context.read_memory_into(65534, &mut tail), Ok(()));
    assert_eq!(tail, [0, 0]);
}

#[test]
fn a_dead_memory_id_fails_the_call() {
    let mut data = store_data_with_one_page();
    let mut context = HostContext::new(&mut data);
    assert_eq!(context.memory_get(0, 0, 0, 1), Err(HostError::MemoryNotFound));
    assert_eq!(context.memory_set(0, 0, 0, 1), Err(HostError::MemoryNotFound));
    assert_eq!(context.memory_size(0), Err(HostError::MemoryNotFound));
    assert_eq!(context.memory_grow(0, 1), Err(HostError::MemoryNotFound));
    let id = context.memory_new(1, MEM_UNLIMITED).unwrap();
    assert_eq!(context.memory_teardown(id), Ok(()));
    assert_eq!(context.memory_get(id, 0, 0, 1), Err(HostError::MemoryTornDown));
    assert_eq!(context.memory_set(id, 0, 0, 1), Err(HostError::MemoryTornDown));
    assert_eq!(context.memory_teardown(id), Err(HostError::MemoryTornDown));
    // Even a range that is out of bounds on the host side is a hard failure here.
    assert_eq!(context.memory_set(id, 0, u32::MAX, 8), Err(HostError::MemoryTornDown));
}

#[test]
fn successive_memory_new_calls_return_distinct_ids() {
    let mut data = store_data_with_one_page();
    let mut context = HostContext::new(&mut data);
    let first = context.memory_new(0, 1).unwrap();
    let second = context.memory_new(0, 1).unwrap();
    assert_ne!(first, second);
    assert_eq!(context.memory_new(2, 1), Err(HostError::InvalidMemoryLimits));
    let third = context.memory_new(0, 1).unwrap();
    assert_eq!((first, second, third), (0, 1, 2));
}

#[test]
fn host_memory_round_trip_and_bounds() {
    let mut data = store_data_with_one_page();
    let mut context = HostContext::new(&mut data);
    assert_eq!(context.write_memory(65532, &[1, 2, 3, 4]), Ok(()));
    let mut out = [0u8; 4];
    assert_eq!(context.read_memory_into(65532, &mut out), Ok(()));
    assert_eq!(out, [1, 2, 3, 4]);
    assert_eq!(context.write_memory(65533, &[5, 5, 5, 5]), Err(HostError::WriteOutOfBounds));
    assert_eq!(context.read_memory_into(65533, &mut out), Err(HostError::ReadOutOfBounds));
    assert_eq!(out, [1, 2, 3, 4]);
    assert_eq!(context.read_memory_into(65532, &mut out), Ok(()));
    assert_eq!(out, [1, 2, 3, 4]);
}

#[test]
fn the_panic_message_is_taken_once() {
    let mut data = store_data_with_one_page();
    {
        let mut context = HostContext::new(&mut data);
        context.register_panic_error_message("first");
        context.register_panic_error_message("out of gas");
    }
    let state = data.host_state_mut().unwrap();
    assert_eq!(state.take_panic_message(), Some("out of gas".to_string()));
    assert_eq!(state.take_panic_message(), None);
}

#[test]
fn store_data_hands_out_its_parts() {
    let mut data = store_data_with_one_page();
    assert_eq!(data.memory().size(), 65536);
    assert!(data.host_state().is_some());
    assert!(data.table().is_none());
    data.host_state = None;
    assert!(data.host_state_mut().is_none());
    assert!(data.host_state().is_none());
}

#[test]
fn every_outcome_of_a_global_write_is_a_status_code() {
    assert_eq!(global_set_status(GlobalSetOutcome::NotFound), ERROR_GLOBALS_NOT_FOUND);
    assert_eq!(global_set_status(GlobalSetOutcome::Written), ERROR_GLOBALS_OK);
    assert_eq!(global_set_status(GlobalSetOutcome::Refused), ERROR_GLOBALS_OTHER);
}

#[test]
fn the_status_codes_are_the_agreed_integers() {
    assert_eq!(ERR_OK, 0);
    assert_eq!(ERR_MODULE, -1i32 as u32);
    assert_eq!(ERR_OUT_OF_BOUNDS, -2i32 as u32);
    assert_eq!(ERR_EXECUTION, -3i32 as u32);
    assert_eq!(ERROR_GLOBALS_OK, 0);
    assert_eq!(ERROR_GLOBALS_NOT_FOUND, u32::MAX);
    assert_eq!(ERROR_GLOBALS_OTHER, u32::MAX - 1);
    assert_eq!(MEM_UNLIMITED, u32::MAX);
}
