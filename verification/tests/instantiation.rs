use sandbox_host::error::HostError;
use sandbox_host::host::{HostContext, InstantiationOutcome, InstantiationStep};
use sandbox_host::host_state::HostState;
use sandbox_host::memory::LinearMemory;
use sandbox_host::status::{ERR_EXECUTION, ERR_MODULE};
use sandbox_host::store::Store;
use sandbox_host::store_data::StoreData;
use sandbox_host::table::{Func, Table, TableElement};

fn store_data_with_table(table: Option<Table>) -> StoreData {
    StoreData {
        limits: wasmtime::StoreLimits::default(),
        host_state: Some(HostState::new(sc_allocator::FreeingBumpHeapAllocator::new(0))),
        memory: Some(LinearMemory::new(1, Some(1)).unwrap()),
        table,
    }
}

fn usual_table() -> Table {
    Table::new(vec![
        TableElement::ExternRef,
        TableElement::FuncRef(None),
        TableElement::FuncRef(Some(Func { id: 11 })),
        TableElement::FuncRef(Some(Func { id: 12 })),
    ])
}

#[test]
fn a_thunk_index_at_a_non_function_entry_is_a_module_error() {
    let mut data = store_data_with_table(Some(usual_table()));
    let mut context = HostContext::new(&mut data);
    let before = context.sandbox_store().clone();
    assert_eq!(context.instance_new_begin(0, true), Ok(InstantiationStep::Rejected(ERR_MODULE)));
    assert_eq!(context.instance_new_begin(1, true), Ok(InstantiationStep::Rejected(ERR_MODULE)));
    assert_eq!(*context.sandbox_store(), before);
    assert_eq!(before, Store::new());
    // No id was consumed: the next instance is the first.
    let pending = match context.instance_new_begin(2, true) {
        Ok(InstantiationStep::Instantiate(pending)) => pending,
        other => panic!("unexpected step: {:?}", other),
    };
    assert_eq!(context.instance_new_complete(pending, InstantiationOutcome::Instantiated(1)), 0);
}

#[test]
fn no_table_and_an_index_outside_it_fail_the_call() {
    let mut data = store_data_with_table(None);
    let mut context = HostContext::new(&mut data);
    assert_eq!(context.instance_new_begin(0, true), Err(HostError::NoTable));
    assert_eq!(context.instance_new_begin(0, false), Err(HostError::NoTable));
    assert_eq!(*context.sandbox_store(), Store::new());
    let mut data = store_data_with_table(Some(usual_table()));
    let mut context = HostContext::new(&mut data);
    assert_eq!(context.instance_new_begin(4, true), Err(HostError::DispatchThunkOutOfBounds));
    assert_eq!(context.instance_new_begin(u32::MAX, false), Err(HostError::DispatchThunkOutOfBounds));
    assert_eq!(*context.sandbox_store(), Store::new());
    let mut data = store_data_with_table(Some(Table::new(vec![])));
    let mut context = HostContext::new(&mut data);
    assert_eq!(context.instance_new_begin(0, true), Err(HostError::DispatchThunkOutOfBounds));
}

#[test]
fn an_environment_that_did_not_decode_is_a_module_error() {
    let mut data = store_data_with_table(Some(usual_table()));
    let mut context = HostContext::new(&mut data);
    assert_eq!(context.instance_new_begin(2, false), Ok(InstantiationStep::Rejected(ERR_MODULE)));
    assert_eq!(*context.sandbox_store(), Store::new());
}

#[test]
fn the_registry_is_out_while_the_engine_instantiates() {
    let mut data = store_data_with_table(Some(usual_table()));
    let mut context = HostContext::new(&mut data);
    let memory = context.memory_new(1, 1).unwrap();
    let held = context.sandbox_store().clone();
    let pending = match context.instance_new_begin(3, true) {
        Ok(InstantiationStep::Instantiate(pending)) => pending,
        other => panic!("unexpected step: {:?}", other),
    };
    assert_eq!(pending.dispatch_thunk(), Func { id: 12 });
    assert_eq!(*pending.store(), held);
    // The host memory stays usable while the registry is away.
    assert_eq!(context.write_memory(0, &[1]), Ok(()));
    let id = context.instance_new_complete(pending, InstantiationOutcome::Instantiated(0x1234));
    assert_eq!(id, 0);
    assert_eq!(context.get_instance_ptr(id), Ok(0x1234));
    assert_eq!(context.sandbox_store().dispatch_thunk(id), Ok(Func { id: 12 }));
    assert_eq!(context.memory_size(memory), Ok(1));
}

#[test]
fn successive_instances_get_distinct_ids() {
    let mut data = store_data_with_table(Some(usual_table()));
    let mut context = HostContext::new(&mut data);
    let mut ids = Vec::new();
    for handle in [10u64, 20, 30] {
        let pending = match context.instance_new_begin(2, true) {
            Ok(InstantiationStep::Instantiate(pending)) => pending,
            other => panic!("unexpected step: {:?}", other),
        };
        ids.push(context.instance_new_complete(pending, InstantiationOutcome::Instantiated(handle)));
        if handle == 10 {
            assert_eq!(context.instance_teardown(ids[0]), Ok(()));
        }
    }
    assert_eq!(ids, vec![0, 1, 2]);
    assert_eq!(context.get_instance_ptr(0), Err(HostError::InstanceTornDown));
    assert_eq!(context.get_instance_ptr(1), Ok(20));
    assert_eq!(context.get_instance_ptr(2), Ok(30));
    assert_eq!(context.get_instance_ptr(3), Err(HostError::InstanceNotFound));
}

#[test]
fn a_trapped_start_function_is_an_execution_error() {
    let mut data = store_data_with_table(Some(usual_table()));
    let mut context = HostContext::new(&mut data);
    let pending = match context.instance_new_begin(2, true) {
        Ok(InstantiationStep::Instantiate(pending)) => pending,
        other => panic!("unexpected step: {:?}", other),
    };
    assert_eq!(context.instance_new_complete(pending, InstantiationOutcome::StartTrapped), ERR_EXECUTION);
    assert_eq!(*context.sandbox_store(), Store::new());
}

#[test]
fn any_other_instantiation_failure_is_a_module_error() {
    let mut data = store_data_with_table(Some(usual_table()));
    let mut context = HostContext::new(&mut data);
    let pending = match context.instance_new_begin(2, true) {
        Ok(InstantiationStep::Instantiate(pending)) => pending,
        other => panic!("unexpected step: {:?}", other),
    };
    assert_eq!(context.instance_new_complete(pending, InstantiationOutcome::Failed), ERR_MODULE);
    assert_eq!(*context.sandbox_store(), Store::new());
}

#[test]
fn an_aborted_instantiation_puts_the_registry_back() {
    let mut data = store_data_with_table(Some(usual_table()));
    let mut context = HostContext::new(&mut data);
    let memory = context.memory_new(1, 2).unwrap();
    let held = context.sandbox_store().clone();
    let pending = match context.instance_new_begin(2, true) {
        Ok(InstantiationStep::Instantiate(pending)) => pending,
        other => panic!("unexpected step: {:?}", other),
    };
    assert!(data_is_without_registry(&context));
    context.instance_new_abort(pending);
    assert_eq!(*context.sandbox_store(), held);
    assert_eq!(context.memory_size(memory), Ok(1));
    assert_eq!(context.get_instance_ptr(0), Err(HostError::InstanceNotFound));
}

fn data_is_without_registry(context: &HostContext) -> bool {
    !context.host_state().has_sandbox_store()
}
