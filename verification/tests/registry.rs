use sandbox_host::error::HostError;
use sandbox_host::memory::Memory;
use sandbox_host::status::MEM_UNLIMITED;
use sandbox_host::store::Store;
use sandbox_host::table::Func;

#[test]
fn successive_memories_get_distinct_ids() {
    let mut store = Store::new();
    let first = store.new_memory(1, 2).unwrap();
    let second = store.new_memory(0, MEM_UNLIMITED).unwrap();
    assert_eq!(first, 0);
    assert_eq!(second, 1);
    assert_ne!(first, second);
}

#[test]
fn a_torn_down_memory_id_is_never_reused() {
    let mut store = Store::new();
    let first = store.new_memory(1, 1).unwrap();
    assert_eq!(store.memory_teardown(first), Ok(()));
    let second = store.new_memory(1, 1).unwrap();
    assert_ne!(first, second);
    assert_eq!(store.memory_size(first), Err(HostError::MemoryTornDown));
    assert_eq!(store.memory_read(first, 0, 1), Err(HostError::MemoryTornDown));
    assert_eq!(store.memory_write(first, 0, &[1]), Err(HostError::MemoryTornDown));
    assert_eq!(store.memory_grow(first, 0), Err(HostError::MemoryTornDown));
    assert_eq!(store.memory_teardown(first), Err(HostError::MemoryTornDown));
    assert_eq!(store.memory_size(second), Ok(1));
}

#[test]
fn an_id_that_was_never_issued_is_not_found() {
    let mut store = Store::new();
    assert_eq!(store.memory_size(0), Err(HostError::MemoryNotFound));
    assert_eq!(store.memory_teardown(7), Err(HostError::MemoryNotFound));
    assert_eq!(store.memory(3).err(), Some(HostError::MemoryNotFound));
    assert_eq!(store.instance(0), Err(HostError::InstanceNotFound));
    assert_eq!(store.dispatch_thunk(0), Err(HostError::InstanceNotFound));
    assert_eq!(store.instance_teardown(0), Err(HostError::InstanceNotFound));
}

#[test]
fn memory_limits_are_checked_at_creation() {
    let mut store = Store::new();
    assert_eq!(store.new_memory(3, 2), Err(HostError::InvalidMemoryLimits));
    assert_eq!(store.new_memory(1, 65537), Err(HostError::InvalidMemoryLimits));
    assert_eq!(store.new_memory(65537, MEM_UNLIMITED), Err(HostError::InvalidMemoryLimits));
    assert_eq!(store.new_memory(0, 0), Ok(0));
    assert_eq!(store.memory(0).unwrap().max_pages(), Some(0));
    assert_eq!(store.new_memory(0, MEM_UNLIMITED), Ok(1));
    assert_eq!(store.memory(1).unwrap().max_pages(), None);
}

#[test]
fn sandboxed_memories_do_not_share_bytes() {
    let mut store = Store::new();
    let a = store.new_memory(1, 1).unwrap();
    let b = store.new_memory(1, 1).unwrap();
    assert_eq!(store.memory_write(a, 4, &[1, 2, 3]), Ok(()));
    assert_eq!(store.memory_read(a, 4, 3), Ok(vec![1, 2, 3]));
    assert_eq!(store.memory_read(b, 4, 3), Ok(vec![0, 0, 0]));
    assert_eq!(store.memory_write(a, 65535, &[1, 2]), Err(HostError::WriteOutOfBounds));
    assert_eq!(store.memory_read(a, 65535, 2), Err(HostError::ReadOutOfBounds));
}

#[test]
fn growing_reports_the_size_before() {
    let mut store = Store::new();
    let id = store.new_memory(1, 3).unwrap();
    assert_eq!(store.memory_grow(id, 2), Ok(1));
    assert_eq!(store.memory_size(id), Ok(3));
    assert_eq!(store.memory_grow(id, 1), Err(HostError::MemoryGrowthRefused));
    assert_eq!(store.memory_size(id), Ok(3));
}

#[test]
fn instances_are_registered_with_their_thunk() {
    let mut store = Store::new();
    let first = store.register_instance(0xAB, Func { id: 3 }).unwrap();
    let second = store.register_instance(0xCD, Func { id: 4 }).unwrap();
    assert_eq!((first, second), (0, 1));
    assert_eq!(store.instance(first), Ok(0xAB));
    assert_eq!(store.dispatch_thunk(first), Ok(Func { id: 3 }));
    assert_eq!(store.instance(second), Ok(0xCD));
    assert_eq!(store.dispatch_thunk(second), Ok(Func { id: 4 }));
}

#[test]
fn a_torn_down_instance_id_is_never_reused() {
    let mut store = Store::new();
    let first = store.register_instance(1, Func { id: 0 }).unwrap();
    assert_eq!(store.instance_teardown(first), Ok(()));
    assert_eq!(store.instance(first), Err(HostError::InstanceTornDown));
    assert_eq!(store.dispatch_thunk(first), Err(HostError::InstanceTornDown));
    assert_eq!(store.instance_teardown(first), Err(HostError::InstanceTornDown));
    let second = store.register_instance(2, Func { id: 0 }).unwrap();
    assert_ne!(first, second);
    assert_eq!(store.instance(second), Ok(2));
}
