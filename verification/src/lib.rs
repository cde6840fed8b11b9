//! Host side of a WebAssembly sandbox: the state that one entry into a runtime
//! keeps, and the operations a supervisor module uses to create, drive and tear
//! down nested guest instances.
//!
//! Linear memories, the function table and the registry of sandboxed entries
//! are held as plain values, so every operation has a contract over their
//! contents. The heap allocator and the wire codec are outside crates, reached
//! through a handful of functions whose contracts are trusted.

pub mod allocator;
pub mod error;
pub mod host;
pub mod host_state;
pub mod memory;
pub mod sandbox_context;
pub mod status;
pub mod store;
pub mod store_data;
pub mod table;
pub mod value;

pub use error::HostError;
pub use host::HostContext;
pub use host_state::HostState;
pub use memory::{LinearMemory, Memory};
pub use sandbox_context::SandboxContext;
pub use store::Store;
pub use store_data::StoreData;
