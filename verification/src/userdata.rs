//! Embedded (tagged) blocks and the guards that scope access to them.
//!
//! A host value is embedded in a machine-owned block that records a type
//! identifier, a borrow cell and an optional destructor-dispatch token
//! next to the payload. A single reserved tag covers every such block, so
//! one per-instance destructor hook can dispatch through the stored token.

use vstd::prelude::*;
use crate::borrow::BorrowState;

verus! {

/// The single reserved tag under which every embedded block is created.
pub const UD_TAG: i32 = 127;

/// One embedded block: type identifier, borrow cell, destructor-dispatch
/// token and the inline payload, carried as plain bytes.
#[derive(Clone, Debug)]
pub struct Userdata {
    /// Identifier of the host type stored in the payload.
    pub type_id: u64,
    /// The aliasing state of the payload.
    pub borrow: BorrowState,
    /// Token of the teardown logic to run when the block is reclaimed,
    /// when the stored type has any.
    pub dtor: Option<u64>,
    /// The embedded host value, as the bytes it was handed over in.
    pub payload: Vec<u8>,
}

impl Userdata {
    /// Returns true when the block stores a value of the given type.
    pub fn is(&self, type_id: u64) -> (r: bool)
        ensures
            r == (self.type_id == type_id),
    {
        self.type_id == type_id
    }
}

/// A scoped shared borrow of one embedded block, identified by the heap
/// slot of the block it holds. It is released by handing it back to the
/// owning context, which is the sole mutator of the borrow cell.
#[derive(Debug)]
pub struct UserdataRef {
    /// Heap slot of the borrowed block.
    pub block: usize,
}

/// A scoped exclusive borrow of one embedded block.
#[derive(Debug)]
pub struct UserdataRefMut {
    /// Heap slot of the borrowed block.
    pub block: usize,
}

} // verus!
