//! A safety layer for hosting a stack-based scripting virtual machine.
//!
//! The crate captures the disciplines that make it safe for host code to
//! talk to such a machine: validation of raw stack indices (including the
//! reserved pseudo-indices), a runtime borrow tracker for values embedded
//! in machine-owned blocks, a tagged value store with per-type destructor
//! dispatch, and liveness propagation from a root execution context to the
//! secondary contexts spawned from it.

pub mod borrow;
pub mod compile;
pub mod index;
pub mod libs;
pub mod memory;
pub mod state;
pub mod threads;
pub mod types;
pub mod userdata;
pub mod value;

pub use crate::memory::{AllocAction, DefaultLuauAllocator};
pub use crate::borrow::{BorrowState, UserdataBorrowError};
pub use crate::compile::{Compiler, CompilerResult};
pub use crate::libs::LuauLibs;
pub use crate::state::{AppValue, Luau, ResumeAction};
pub use crate::threads::{LuauThread, MainStateDeadError, ThreadContext};
pub use crate::types::{CoroutineStatus, GCOperation, LuauBytecodeType, LuauStatus, LuauType};
pub use crate::userdata::{Userdata, UserdataRef, UserdataRefMut};
pub use crate::value::Value;
