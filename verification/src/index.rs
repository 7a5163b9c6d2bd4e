//! Validation of raw stack indices.
//!
//! A stack index is a signed integer that is meaningful only relative to the
//! current stack depth (`top`). Three classes exist: absolute positive
//! indices (`1..=top`), relative negative indices (`-1` is the top slot),
//! and reserved pseudo-indices below a fixed negative threshold that name
//! the registry, the environment, the globals table or an upvalue rather
//! than a real stack slot.

use vstd::prelude::*;

verus! {

/// Limit on the number of stack slots a host function may use.
pub const MAX_C_STACK: i32 = 8000;

/// Pseudo-index of the registry; every index at or below it is a pseudo-index.
pub const REGISTRY_INDEX: i32 = -10000;

/// Pseudo-index of the environment table of the running function.
pub const ENVIRON_INDEX: i32 = -10001;

/// Pseudo-index of the globals table.
pub const GLOBALS_INDEX: i32 = -10002;

/// The pseudo-index that names the `i`-th upvalue of the running function.
pub open spec fn spec_upvalue_index(i: int) -> int {
    GLOBALS_INDEX - i
}

/// Returns the pseudo-index that names the `i`-th upvalue.
pub fn upvalue_index(i: i32) -> (r: i32)
    requires
        0 <= i <= MAX_C_STACK,
    ensures
        r == spec_upvalue_index(i as int),
{
    GLOBALS_INDEX - i
}

/// True when `i` is a reserved pseudo-index rather than a stack position.
pub open spec fn spec_is_pseudo(i: int) -> bool {
    i <= REGISTRY_INDEX
}

/// Returns true when `i` is a reserved pseudo-index.
pub fn is_pseudo(i: i32) -> (r: bool)
    ensures
        r == spec_is_pseudo(i as int),
{
    i <= REGISTRY_INDEX
}

/// Relative-to-absolute normalization: a negative index counts down from
/// the top of the stack, a non-negative index is kept as it is.
pub open spec fn spec_normalize(idx: int, top: int) -> int {
    if idx < 0 {
        top + idx
    } else {
        idx
    }
}

/// The validity verdict for a raw stack index against a stack of depth
/// `top`, a configured stack-size limit and the two pseudo-index
/// thresholds.
///
/// An index at or below `registry_threshold` names the registry or one of
/// the reserved tables below it and is accepted unconditionally. Otherwise
/// the index is normalized; a normalized value below `globals_threshold`
/// is treated as an upvalue pseudo-index and accepted, and anything else
/// must land in `[0, top]` and strictly below `max_stack`.
pub open spec fn spec_is_valid(
    idx: int,
    top: int,
    max_stack: int,
    registry_threshold: int,
    globals_threshold: int,
) -> bool {
    if idx <= registry_threshold {
        true
    } else {
        let n = spec_normalize(idx, top);
        if n < globals_threshold {
            true
        } else {
            0 <= n <= top && n < max_stack
        }
    }
}

/// Computes the validity verdict for a raw stack index.
///
/// The function is total: it accepts any combination of arguments and
/// communicates failure only through its result.
pub fn is_valid(
    idx: i32,
    top: i32,
    max_stack: i32,
    registry_threshold: i32,
    globals_threshold: i32,
) -> (r: bool)
    ensures
        r == spec_is_valid(
            idx as int,
            top as int,
            max_stack as int,
            registry_threshold as int,
            globals_threshold as int,
        ),
{
    if idx <= registry_threshold {
        return true;
    }
    let n: i64 = if idx < 0 {
        top as i64 + idx as i64
    } else {
        idx as i64
    };
    if n < globals_threshold as i64 {
        return true;
    }
    0 <= n && n <= top as i64 && n < max_stack as i64
}

/// Every absolute index from 1 up to the stack depth is valid, and every
/// absolute index above the stack depth is invalid, as long as no
/// pseudo-index threshold reaches into the positive range and the depth
/// itself respects the stack-size limit.
pub proof fn lemma_absolute_index_verdict(
    idx: int,
    top: int,
    max_stack: int,
    registry_threshold: int,
    globals_threshold: int,
)
    requires
        registry_threshold < 0,
        globals_threshold <= 0,
        0 <= top < max_stack,
        1 <= idx,
    ensures
        idx <= top ==> spec_is_valid(idx, top, max_stack, registry_threshold, globals_threshold),
        idx > top ==> !spec_is_valid(idx, top, max_stack, registry_threshold, globals_threshold),
{
}

/// A negative index whose magnitude does not exceed the stack depth gets
/// the same verdict as the equivalent absolute index `top + idx + 1`.
pub proof fn lemma_relative_index_agrees(
    idx: int,
    top: int,
    max_stack: int,
    registry_threshold: int,
    globals_threshold: int,
)
    requires
        registry_threshold < -top,
        globals_threshold <= 0,
        0 <= top < max_stack,
        idx < 0,
        -idx <= top,
    ensures
        spec_is_valid(idx, top, max_stack, registry_threshold, globals_threshold)
            == spec_is_valid(top + idx + 1, top, max_stack, registry_threshold, globals_threshold),
{
}

} // verus!
