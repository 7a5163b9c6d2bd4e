//! The values a host can place on or read from an execution stack.
//!
//! Numbers are carried as the bit pattern of an IEEE 754 double and vector
//! components as bit patterns of single-precision floats: the layer never
//! computes with them, it only moves them, so the bits are the faithful
//! plain representation.

use vstd::prelude::*;
use crate::types::LuauType;

verus! {

/// One slot of an execution stack.
#[derive(Clone, Debug)]
pub enum Value {
    /// The nil value.
    Nil,
    /// A boolean.
    Boolean(bool),
    /// An untagged foreign pointer, carried as its address token.
    LightUserdata(usize),
    /// A number, as the bit pattern of an IEEE 754 double.
    Number(u64),
    /// A native vector, as bit patterns of its three single-precision lanes.
    Vector(u32, u32, u32),
    /// A byte string.
    Str(Vec<u8>),
    /// A mutable byte buffer.
    Buffer(Vec<u8>),
    /// A host function, identified by the token the host registered it under.
    Function(u64),
    /// An embedded tagged block, identified by its heap slot.
    Userdata(usize),
    /// A secondary execution context, identified by its slot.
    Thread(usize),
}

/// The type code of a stack value.
pub open spec fn spec_type_of(v: Value) -> LuauType {
    match v {
        Value::Nil => LuauType::LUA_TNIL,
        Value::Boolean(_) => LuauType::LUA_TBOOLEAN,
        Value::LightUserdata(_) => LuauType::LUA_TLIGHTUSERDATA,
        Value::Number(_) => LuauType::LUA_TNUMBER,
        Value::Vector(_, _, _) => LuauType::LUA_TVECTOR,
        Value::Str(_) => LuauType::LUA_TSTRING,
        Value::Buffer(_) => LuauType::LUA_TBUFFER,
        Value::Function(_) => LuauType::LUA_TFUNCTION,
        Value::Userdata(_) => LuauType::LUA_TUSERDATA,
        Value::Thread(_) => LuauType::LUA_TTHREAD,
    }
}

/// Returns the type code of a stack value.
pub fn type_of_value(v: &Value) -> (t: LuauType)
    ensures
        t == spec_type_of(*v),
{
    match v {
        Value::Nil => LuauType::LUA_TNIL,
        Value::Boolean(_) => LuauType::LUA_TBOOLEAN,
        Value::LightUserdata(_) => LuauType::LUA_TLIGHTUSERDATA,
        Value::Number(_) => LuauType::LUA_TNUMBER,
        Value::Vector(_, _, _) => LuauType::LUA_TVECTOR,
        Value::Str(_) => LuauType::LUA_TSTRING,
        Value::Buffer(_) => LuauType::LUA_TBUFFER,
        Value::Function(_) => LuauType::LUA_TFUNCTION,
        Value::Userdata(_) => LuauType::LUA_TUSERDATA,
        Value::Thread(_) => LuauType::LUA_TTHREAD,
    }
}

/// Truthiness: every value but nil and false counts as true.
pub open spec fn spec_truthy(v: Value) -> bool {
    match v {
        Value::Nil => false,
        Value::Boolean(b) => b,
        _ => true,
    }
}

} // verus!
