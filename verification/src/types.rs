//! Status and type codes exchanged with the virtual machine.

use vstd::prelude::*;

verus! {

/// Thread status reported by the machine.
#[derive(PartialEq, Eq, Structural, Clone, Copy, Debug)]
#[allow(non_camel_case_types)]
pub enum LuauStatus {
    /// No error.
    LUA_OK,
    /// The thread yielded.
    LUA_YIELD,
    /// A runtime error was raised.
    LUA_ERRRUN,
    /// Legacy error code, preserved for compatibility.
    LUA_ERRSYNTAX,
    /// A memory allocation failed.
    LUA_ERRMEM,
    /// The error handling mechanism itself errored.
    LUA_ERRERR,
    /// The thread stopped on a debug breakpoint.
    LUA_BREAK,
}

/// Coroutine status reported by the machine.
#[derive(PartialEq, Eq, Structural, Clone, Copy, Debug)]
#[allow(non_camel_case_types)]
pub enum CoroutineStatus {
    /// The coroutine is running.
    LUA_CORUN,
    /// The coroutine is suspended.
    LUA_COSUS,
    /// The coroutine resumed another coroutine.
    LUA_CONOR,
    /// The coroutine finished successfully.
    LUA_COFIN,
    /// The coroutine finished with an error.
    LUA_COERR,
}

/// The type of a value slot.
#[derive(PartialEq, Eq, Structural, Clone, Copy, Debug)]
#[allow(non_camel_case_types)]
pub enum LuauType {
    /// No value at the queried position.
    LUA_TNONE,
    LUA_TNIL,
    LUA_TBOOLEAN,
    LUA_TLIGHTUSERDATA,
    LUA_TNUMBER,
    LUA_TVECTOR,
    LUA_TSTRING,
    LUA_TTABLE,
    LUA_TFUNCTION,
    LUA_TUSERDATA,
    LUA_TTHREAD,
    LUA_TBUFFER,
}

/// Garbage collection requests a host may issue.
#[derive(PartialEq, Eq, Structural, Clone, Copy, Debug)]
#[allow(non_camel_case_types)]
pub enum GCOperation {
    /// Stop incremental garbage collection.
    LUA_GCSTOP,
    /// Restart incremental garbage collection.
    LUA_GCRESTART,
    /// Run a full collection cycle.
    LUA_GCCOLLECT,
    /// Query the heap size in kilobytes.
    LUA_GCCOUNT,
    /// Query the remainder of the heap size division.
    LUA_GCCOUNTB,
    /// Query whether the collector is running.
    LUA_GCISRUNNING,
    /// Perform an explicit collection step.
    LUA_GCSTEP,
    /// Tune the collector goal.
    LUA_GCSETGOAL,
    /// Tune the collector step multiplier.
    LUA_GCSETSTEPMUL,
    /// Tune the collector step size.
    LUA_GCSETSTEPSIZE,
}

/// Type identifiers recorded in compiled bytecode type information.
#[derive(PartialEq, Eq, Structural, Clone, Copy, Debug)]
#[allow(non_camel_case_types)]
pub enum LuauBytecodeType {
    LBC_TYPE_NIL,
    LBC_TYPE_BOOLEAN,
    LBC_TYPE_NUMBER,
    LBC_TYPE_STRING,
    LBC_TYPE_TABLE,
    LBC_TYPE_FUNCTION,
    LBC_TYPE_THREAD,
    LBC_TYPE_USERDATA,
    LBC_TYPE_VECTOR,
    LBC_TYPE_BUFFER,
    LBC_TYPE_ANY,
    LBC_TYPE_TAGGED_USERDATA_BASE,
    LBC_TYPE_TAGGED_USERDATA_END,
    LBC_TYPE_OPTIONAL_BIT,
    LBC_TYPE_INVALID,
}

} // verus!
