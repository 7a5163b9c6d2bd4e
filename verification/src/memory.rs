//! The decision logic of the pluggable allocation callback.
//!
//! The machine funnels every allocation, reallocation and release through
//! one callback. Which of those a request means is decided here, from the
//! request's plain shape; the host performs the memory operation the
//! decision names.

use vstd::prelude::*;

verus! {

/// Alignment every allocation of the default provider is made with.
pub const PLATFORM_ALIGNMENT: usize = 16;

/// The marker of the default memory provider, which serves requests from
/// the global allocator at `PLATFORM_ALIGNMENT`.
#[derive(PartialEq, Eq, Structural, Clone, Copy, Debug)]
pub struct DefaultLuauAllocator;

/// What an allocation request asks the memory provider to do.
#[derive(PartialEq, Eq, Structural, Clone, Copy, Debug)]
pub enum AllocAction {
    /// Release the existing block of the old size and answer null.
    Deallocate,
    /// Answer null without touching anything: nothing was allocated.
    Nothing,
    /// Refuse the request by answering null: the size exceeds what a
    /// block may span.
    Refuse,
    /// Allocate a fresh block of the new size.
    Allocate,
    /// Grow or shrink the existing block from the old size to the new.
    Reallocate,
}

/// The decision for a request, from whether a block exists and the size
/// asked for.
pub open spec fn spec_alloc_action(ptr_is_null: bool, new_size: int) -> AllocAction {
    if new_size == 0 {
        if !ptr_is_null {
            AllocAction::Deallocate
        } else {
            AllocAction::Nothing
        }
    } else if new_size > isize::MAX {
        AllocAction::Refuse
    } else if ptr_is_null {
        AllocAction::Allocate
    } else {
        AllocAction::Reallocate
    }
}

/// Decides what an allocation request means.
///
/// A zero new size releases the block when one exists; a size beyond the
/// largest block span is refused; otherwise the request allocates when no
/// block exists and reallocates when one does.
pub fn alloc_request_action(ptr_is_null: bool, new_size: usize) -> (r: AllocAction)
    ensures
        r == spec_alloc_action(ptr_is_null, new_size as int),
{
    if new_size == 0 {
        if !ptr_is_null {
            AllocAction::Deallocate
        } else {
            AllocAction::Nothing
        }
    } else if new_size > isize::MAX as usize {
        AllocAction::Refuse
    } else if ptr_is_null {
        AllocAction::Allocate
    } else {
        AllocAction::Reallocate
    }
}

} // verus!
