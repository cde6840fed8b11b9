//! What the engine's store keeps for the runtime module.

use vstd::prelude::*;

use crate::host_state::HostState;
use crate::memory::LinearMemory;
use crate::table::Table;

verus! {

/// The resource limits type of `wasmtime`, carried through as an opaque value.
#[verifier::external_type_specification]
#[verifier::external_body]
pub struct ExStoreLimits(wasmtime::StoreLimits);

/// The data of the runtime module's store.
pub struct StoreData {
    /// The limits applied to the store. They are kept here so that the engine
    /// can be handed a reference to them; nothing in this crate changes them.
    pub limits: wasmtime::StoreLimits,
    /// The host state. Set only while the runtime is being called.
    pub host_state: Option<HostState>,
    /// The linear memory of the runtime module. Set once the store is
    /// initialized.
    pub memory: Option<LinearMemory>,
    /// The function table of the runtime module, if it has one.
    pub table: Option<Table>,
}

impl StoreData {
    /// The invariant of the store data: the parts that are present are well
    /// formed.
    pub open spec fn wf(&self) -> bool {
        &&& self.host_state matches Some(state) ==> state.wf()
        &&& self.memory matches Some(memory) ==> memory.wf()
    }

    /// The host state, or `None` outside a call into the runtime.
    pub fn host_state(&self) -> (state: Option<&HostState>)
        ensures
            match state {
                Some(state) => self.host_state == Some(*state),
                None => self.host_state is None,
            },
    {
        self.host_state.as_ref()
    }

    /// The host state, to change it, or `None` outside a call into the
    /// runtime.
    pub fn host_state_mut(&mut self) -> (state: Option<&mut HostState>)
        ensures
            final(self).limits == old(self).limits,
            final(self).memory == old(self).memory,
            final(self).table == old(self).table,
            match state {
                Some(state) => old(self).host_state == Some(*state) && final(self).host_state
                    == Some(*final(state)),
                None => old(self).host_state is None && final(self).host_state is None,
            },
    {
        self.host_state.as_mut()
    }

    /// The linear memory of the runtime module.
    pub fn memory(&self) -> (memory: &LinearMemory)
        requires
            self.memory is Some,
        ensures
            self.memory == Some(*memory),
    {
        self.memory.as_ref().unwrap()
    }

    /// The function table of the runtime module, if it has one.
    pub fn table(&self) -> (table: Option<&Table>)
        ensures
            match table {
                Some(table) => self.table == Some(*table),
                None => self.table is None,
            },
    {
        self.table.as_ref()
    }
}

} // verus!
