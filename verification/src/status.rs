//! Status codes that sandbox operations hand back to the supervisor.
//!
//! These integers are an ABI shared with guest code. They travel as ordinary
//! return values and are distinct from [`crate::error::HostError`], which
//! fails the host call itself.

use vstd::prelude::*;

verus! {

/// The operation succeeded.
pub const ERR_OK: u32 = 0;

/// A module could not be validated or instantiated.
pub const ERR_MODULE: u32 = 0xFFFF_FFFF;

/// A memory access fell outside the bounds of a linear memory.
pub const ERR_OUT_OF_BOUNDS: u32 = 0xFFFF_FFFE;

/// Guest code trapped while executing.
pub const ERR_EXECUTION: u32 = 0xFFFF_FFFD;

/// The global was written.
pub const ERROR_GLOBALS_OK: u32 = 0;

/// The instance exports no global of that name.
pub const ERROR_GLOBALS_NOT_FOUND: u32 = 0xFFFF_FFFF;

/// The global exists but could not be written.
pub const ERROR_GLOBALS_OTHER: u32 = 0xFFFF_FFFE;

/// Page count that stands for "no maximum" when a sandboxed memory is created.
pub const MEM_UNLIMITED: u32 = 0xFFFF_FFFF;

/// Whether `code` is one of the three failure codes, which no instance id may
/// collide with.
pub open spec fn is_failure_code(code: u32) -> bool {
    code == ERR_MODULE || code == ERR_OUT_OF_BOUNDS || code == ERR_EXECUTION
}

} // verus!
