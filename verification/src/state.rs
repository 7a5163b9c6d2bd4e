//! The execution context model.
//!
//! A root context owns the machine instance: the value stack, the heap of
//! embedded blocks, the secondary contexts spawned from it and the
//! host-supplied application data slot. Every stack-touching operation
//! validates its index first, embedded values are reached only through the
//! borrow tracker, and destroying the root invalidates every secondary
//! context and hands back the destructor-dispatch tokens of the embedded
//! values, each exactly once.

use vstd::prelude::*;
use crate::borrow::{
    spec_after_shared, spec_cell_wf, spec_exclusive_verdict, spec_shared_verdict, BorrowState,
    UserdataBorrowError,
};
use crate::index::{
    spec_is_valid, GLOBALS_INDEX, MAX_C_STACK, REGISTRY_INDEX,
};
use crate::threads::{LuauThread, ThreadContext};
use crate::types::{LuauStatus, LuauType};
use crate::userdata::{Userdata, UserdataRef, UserdataRefMut};
use crate::value::{spec_truthy, spec_type_of, type_of_value, Value};

verus! {

/// Number of separate memory categories an instance distinguishes.
pub const LUA_MEMORY_CATEGORIES: i32 = 256;

/// A host value handed into the application-data slot: a type identifier
/// next to the value's plain-byte representation.
#[derive(Clone, Debug)]
pub struct AppValue {
    /// Identifier of the host type stored in `bytes`.
    pub type_id: u64,
    /// The value, as plain bytes.
    pub bytes: Vec<u8>,
}

/// A value slot is well formed when every heap or thread slot it names
/// exists.
pub open spec fn spec_value_wf(v: Value, heap_len: int, threads_len: int) -> bool {
    match v {
        Value::Userdata(b) => b < heap_len,
        Value::Thread(t) => t < threads_len,
        _ => true,
    }
}

/// A stack is well formed when it respects the stack-size limit and every
/// slot is well formed.
pub open spec fn spec_stack_wf(stack: Seq<Value>, heap_len: int, threads_len: int) -> bool {
    stack.len() <= MAX_C_STACK && forall|i: int|
        0 <= i < stack.len() ==> spec_value_wf(#[trigger] stack[i], heap_len, threads_len)
}

/// The zero-based stack position a raw index addresses.
pub open spec fn spec_slot_pos(stack_len: int, idx: int) -> int {
    if idx < 0 {
        stack_len + idx
    } else {
        idx - 1
    }
}

/// The value a raw index resolves to: `Some` for an occupied stack slot,
/// `None` for an empty or pseudo position.
pub open spec fn spec_slot(stack: Seq<Value>, idx: int) -> Option<Value> {
    let a = spec_slot_pos(stack.len() as int, idx);
    if 0 <= a < stack.len() {
        Some(stack[a])
    } else {
        None
    }
}

/// The heap slot of the embedded block a raw index resolves to, provided
/// the block stores a value of the requested type.
pub open spec fn spec_ud_block_at(
    stack: Seq<Value>,
    heap: Seq<Userdata>,
    idx: int,
    type_id: u64,
) -> Option<int> {
    match spec_slot(stack, idx) {
        Some(v) => match v {
            Value::Userdata(b) => if b < heap.len() && heap[b as int].type_id == type_id {
                Some(b as int)
            } else {
                None
            },
            _ => None,
        },
        None => None,
    }
}

/// The destructor-dispatch tokens of a heap, in heap order: one token per
/// block that stores a value with teardown logic.
pub open spec fn spec_dtor_tokens(heap: Seq<Userdata>) -> Seq<u64>
    decreases heap.len(),
{
    if heap.len() == 0 {
        Seq::empty()
    } else {
        spec_dtor_tokens(heap.drop_last()) + match heap.last().dtor {
            Some(t) => seq![t],
            None => Seq::empty(),
        }
    }
}

/// The host function a resume request transfers control to: the token of
/// the function value sitting directly beneath the `nargs` arguments on
/// the resumed context's stack.
pub open spec fn spec_resume_target(ts: Seq<Value>, nargs: int) -> Option<u64> {
    if 0 <= nargs < ts.len() {
        match ts[ts.len() - nargs - 1] {
            Value::Function(tok) => Some(tok),
            _ => None,
        }
    } else {
        None
    }
}

/// What the machine asks the host to do next after a resume request.
#[derive(PartialEq, Eq, Structural, Clone, Copy, Debug)]
pub enum ResumeAction {
    /// Transfer control to the host function registered under this token;
    /// the resumed context's stack now holds exactly the call's arguments.
    CallHost(u64),
    /// No callable value sat beneath the arguments: the resume fails with
    /// a runtime error.
    RuntimeError,
}

/// The main execution context: the owning handle to one machine instance.
#[derive(Debug)]
pub struct Luau {
    alive: bool,
    stack: Vec<Value>,
    heap: Vec<Userdata>,
    threads: Vec<ThreadContext>,
    app_data: Option<AppValue>,
    memory_category: i32,
}

impl Luau {
    /// The value stack of the root context.
    pub closed spec fn stack_view(&self) -> Seq<Value> {
        self.stack@
    }

    /// The heap of embedded blocks, shared with every secondary context.
    pub closed spec fn heap_view(&self) -> Seq<Userdata> {
        self.heap@
    }

    /// The secondary contexts spawned from this root.
    pub closed spec fn threads_view(&self) -> Seq<ThreadContext> {
        self.threads@
    }

    /// The application-data slot.
    pub closed spec fn app_data_view(&self) -> Option<AppValue> {
        self.app_data
    }

    /// True until the root is destroyed.
    pub closed spec fn is_alive(&self) -> bool {
        self.alive
    }

    /// The active memory category.
    pub closed spec fn memory_category_view(&self) -> int {
        self.memory_category as int
    }

    /// Well-formedness: all stacks respect the limits, every named heap or
    /// thread slot exists, and every borrow cell is sound.
    pub open spec fn wf(&self) -> bool {
        &&& spec_stack_wf(self.stack_view(), self.heap_view().len() as int, self.threads_view().len() as int)
        &&& forall|j: int|
            0 <= j < self.threads_view().len() ==> spec_stack_wf(
                (#[trigger] self.threads_view()[j]).stack_view(),
                self.heap_view().len() as int,
                self.threads_view().len() as int,
            )
        &&& forall|k: int|
            0 <= k < self.heap_view().len() ==> spec_cell_wf(
                (#[trigger] self.heap_view()[k]).borrow,
            )
        &&& 0 <= self.memory_category_view() < LUA_MEMORY_CATEGORIES
    }

    /// The validity verdict for a raw index against this context's stack.
    pub open spec fn spec_check_index(&self, idx: int) -> bool {
        spec_is_valid(
            idx,
            self.stack_view().len() as int,
            MAX_C_STACK as int,
            REGISTRY_INDEX as int,
            GLOBALS_INDEX as int,
        )
    }

    /// Creates a fresh instance: alive, with an empty stack, no embedded
    /// blocks, no secondary contexts and no application data.
    pub fn new() -> (l: Luau)
        ensures
            l.wf(),
            l.is_alive(),
            l.stack_view() == Seq::<Value>::empty(),
            l.heap_view() == Seq::<Userdata>::empty(),
            l.threads_view() == Seq::<ThreadContext>::empty(),
            l.app_data_view() is None,
            l.memory_category_view() == 0,
    {
        Luau {
            alive: true,
            stack: Vec::new(),
            heap: Vec::new(),
            threads: Vec::new(),
            app_data: None,
            memory_category: 0,
        }
    }

    /// True until the root is destroyed.
    pub fn alive(&self) -> (r: bool)
        ensures
            r == self.is_alive(),
    {
        self.alive
    }

    /// The current stack depth.
    pub fn top(&self) -> (t: i32)
        requires
            self.wf(),
        ensures
            t == self.stack_view().len(),
    {
        self.stack.len() as i32
    }

    /// Returns true when the stack can grow by `sz` more slots without
    /// exceeding the configured limit.
    pub fn check_stack(&self, sz: i32) -> (r: bool)
        requires
            self.wf(),
        ensures
            r == (self.stack_view().len() + sz <= MAX_C_STACK),
    {
        self.stack.len() as i64 + sz as i64 <= MAX_C_STACK as i64
    }

    /// Computes the validity verdict for a raw stack index. This is the
    /// check run before every stack-touching operation.
    pub fn check_index(&self, idx: i32) -> (r: bool)
        requires
            self.wf(),
        ensures
            r == self.spec_check_index(idx as int),
    {
        crate::index::is_valid(
            idx,
            self.stack.len() as i32,
            MAX_C_STACK,
            REGISTRY_INDEX,
            GLOBALS_INDEX,
        )
    }

    /// The registry pseudo-index.
    pub fn registry(&self) -> (r: i32)
        ensures
            r == REGISTRY_INDEX,
    {
        REGISTRY_INDEX
    }

    /// The globals pseudo-index.
    pub fn globals(&self) -> (r: i32)
        ensures
            r == GLOBALS_INDEX,
    {
        GLOBALS_INDEX
    }

    /// The pseudo-index of the running function's `uv_idx`-th upvalue.
    pub fn upvalue(&self, uv_idx: i32) -> (r: i32)
        requires
            0 <= uv_idx <= MAX_C_STACK,
        ensures
            r == crate::index::spec_upvalue_index(uv_idx as int),
    {
        crate::index::upvalue_index(uv_idx)
    }

    /// Pops `n` values from the stack.
    pub fn pop(&mut self, n: i32)
        requires
            old(self).wf(),
            0 <= n <= old(self).stack_view().len(),
        ensures
            final(self).wf(),
            final(self).stack_view() == old(self).stack_view().take(
                old(self).stack_view().len() - n,
            ),
            final(self).heap_view() == old(self).heap_view(),
            final(self).threads_view() == old(self).threads_view(),
            final(self).app_data_view() == old(self).app_data_view(),
            final(self).is_alive() == old(self).is_alive(),
    {
        let new_len = self.stack.len() - n as usize;
        self.stack.truncate(new_len);
        assert(final(self).stack_view() =~= old(self).stack_view().take(
            old(self).stack_view().len() - n,
        ));
    }

    /// Pushes one well-formed value. Pushing requires one free stack slot,
    /// as checked by `check_stack`.
    fn push_value(&mut self, v: Value)
        requires
            old(self).wf(),
            old(self).stack_view().len() < MAX_C_STACK,
            spec_value_wf(v, old(self).heap_view().len() as int, old(self).threads_view().len() as int),
        ensures
            final(self).wf(),
            final(self).stack_view() == old(self).stack_view().push(v),
            final(self).heap_view() == old(self).heap_view(),
            final(self).threads_view() == old(self).threads_view(),
            final(self).app_data_view() == old(self).app_data_view(),
            final(self).is_alive() == old(self).is_alive(),
    {
        self.stack.push(v);
    }

    /// Pushes the nil value.
    pub fn push_nil(&mut self)
        requires
            old(self).wf(),
            old(self).stack_view().len() < MAX_C_STACK,
        ensures
            final(self).wf(),
            final(self).stack_view() == old(self).stack_view().push(Value::Nil),
            final(self).heap_view() == old(self).heap_view(),
            final(self).threads_view() == old(self).threads_view(),
            final(self).app_data_view() == old(self).app_data_view(),
            final(self).is_alive() == old(self).is_alive(),
    {
        self.push_value(Value::Nil);
    }

    /// Pushes a boolean value.
    pub fn push_boolean(&mut self, value: bool)
        requires
            old(self).wf(),
            old(self).stack_view().len() < MAX_C_STACK,
        ensures
            final(self).wf(),
            final(self).stack_view() == old(self).stack_view().push(Value::Boolean(value)),
            final(self).heap_view() == old(self).heap_view(),
            final(self).threads_view() == old(self).threads_view(),
            final(self).app_data_view() == old(self).app_data_view(),
            final(self).is_alive() == old(self).is_alive(),
    {
        self.push_value(Value::Boolean(value));
    }

    /// Pushes a number, given as the bit pattern of an IEEE 754 double.
    pub fn push_number(&mut self, bits: u64)
        requires
            old(self).wf(),
            old(self).stack_view().len() < MAX_C_STACK,
        ensures
            final(self).wf(),
            final(self).stack_view() == old(self).stack_view().push(Value::Number(bits)),
            final(self).heap_view() == old(self).heap_view(),
            final(self).threads_view() == old(self).threads_view(),
            final(self).app_data_view() == old(self).app_data_view(),
            final(self).is_alive() == old(self).is_alive(),
    {
        self.push_value(Value::Number(bits));
    }

    /// Pushes an untagged foreign pointer, carried as its address token.
    pub fn push_lightuserdata(&mut self, p: usize)
        requires
            old(self).wf(),
            old(self).stack_view().len() < MAX_C_STACK,
        ensures
            final(self).wf(),
            final(self).stack_view() == old(self).stack_view().push(Value::LightUserdata(p)),
            final(self).heap_view() == old(self).heap_view(),
            final(self).threads_view() == old(self).threads_view(),
            final(self).app_data_view() == old(self).app_data_view(),
            final(self).is_alive() == old(self).is_alive(),
    {
        self.push_value(Value::LightUserdata(p));
    }

    /// Pushes a native vector, given as the bit patterns of its lanes.
    pub fn push_vector(&mut self, x: u32, y: u32, z: u32)
        requires
            old(self).wf(),
            old(self).stack_view().len() < MAX_C_STACK,
        ensures
            final(self).wf(),
            final(self).stack_view() == old(self).stack_view().push(Value::Vector(x, y, z)),
            final(self).heap_view() == old(self).heap_view(),
            final(self).threads_view() == old(self).threads_view(),
            final(self).app_data_view() == old(self).app_data_view(),
            final(self).is_alive() == old(self).is_alive(),
    {
        self.push_value(Value::Vector(x, y, z));
    }

    /// Pushes a byte string.
    pub fn push_string(&mut self, s: Vec<u8>)
        requires
            old(self).wf(),
            old(self).stack_view().len() < MAX_C_STACK,
        ensures
            final(self).wf(),
            final(self).stack_view() == old(self).stack_view().push(Value::Str(s)),
            final(self).heap_view() == old(self).heap_view(),
            final(self).threads_view() == old(self).threads_view(),
            final(self).app_data_view() == old(self).app_data_view(),
            final(self).is_alive() == old(self).is_alive(),
    {
        self.push_value(Value::Str(s));
    }

    /// Resolves a raw index to the zero-based position of an occupied
    /// stack slot.
    fn slot_of(&self, idx: i32) -> (r: Option<usize>)
        requires
            self.wf(),
        ensures
            r is Some <==> spec_slot(self.stack_view(), idx as int) is Some,
            r is Some ==> r->0 == spec_slot_pos(self.stack_view().len() as int, idx as int)
                && (r->0 as int) < self.stack_view().len(),
    {
        let len = self.stack.len() as i64;
        let a: i64 = if idx < 0 {
            len + idx as i64
        } else {
            idx as i64 - 1
        };
        if 0 <= a && a < len {
            Some(a as usize)
        } else {
            None
        }
    }

    /// Returns the type of the value at `idx`, or `LUA_TNONE` when the
    /// index addresses no occupied slot. The reserved table pseudo-slots
    /// are outside this model's value space.
    pub fn type_of(&self, idx: i32) -> (t: LuauType)
        requires
            self.wf(),
            self.spec_check_index(idx as int),
        ensures
            t == match spec_slot(self.stack_view(), idx as int) {
                Some(v) => spec_type_of(v),
                None => LuauType::LUA_TNONE,
            },
    {
        match self.slot_of(idx) {
            Some(i) => type_of_value(&self.stack[i]),
            None => LuauType::LUA_TNONE,
        }
    }

    /// Returns true when the value at `idx` is nil.
    pub fn is_nil(&self, idx: i32) -> (r: bool)
        requires
            self.wf(),
            self.spec_check_index(idx as int),
        ensures
            r == (spec_slot(self.stack_view(), idx as int) matches Some(Value::Nil)),
    {
        self.type_of(idx) == LuauType::LUA_TNIL
    }

    /// Returns true when the value at `idx` is a boolean.
    pub fn is_boolean(&self, idx: i32) -> (r: bool)
        requires
            self.wf(),
            self.spec_check_index(idx as int),
        ensures
            r == (spec_slot(self.stack_view(), idx as int) matches Some(Value::Boolean(_))),
    {
        self.type_of(idx) == LuauType::LUA_TBOOLEAN
    }

    /// Returns true when the value at `idx` is a number.
    pub fn is_number(&self, idx: i32) -> (r: bool)
        requires
            self.wf(),
            self.spec_check_index(idx as int),
        ensures
            r == (spec_slot(self.stack_view(), idx as int) matches Some(Value::Number(_))),
    {
        self.type_of(idx) == LuauType::LUA_TNUMBER
    }

    /// Returns true when the value at `idx` is a string.
    pub fn is_string(&self, idx: i32) -> (r: bool)
        requires
            self.wf(),
            self.spec_check_index(idx as int),
        ensures
            r == (spec_slot(self.stack_view(), idx as int) matches Some(Value::Str(_))),
    {
        self.type_of(idx) == LuauType::LUA_TSTRING
    }

    /// Returns true when the value at `idx` is a function.
    pub fn is_function(&self, idx: i32) -> (r: bool)
        requires
            self.wf(),
            self.spec_check_index(idx as int),
        ensures
            r == (spec_slot(self.stack_view(), idx as int) matches Some(Value::Function(_))),
    {
        self.type_of(idx) == LuauType::LUA_TFUNCTION
    }

    /// Returns true when the value at `idx` is a secondary context.
    pub fn is_thread(&self, idx: i32) -> (r: bool)
        requires
            self.wf(),
            self.spec_check_index(idx as int),
        ensures
            r == (spec_slot(self.stack_view(), idx as int) matches Some(Value::Thread(_))),
    {
        self.type_of(idx) == LuauType::LUA_TTHREAD
    }

    /// Returns true when the value at `idx` is a buffer.
    pub fn is_buffer(&self, idx: i32) -> (r: bool)
        requires
            self.wf(),
            self.spec_check_index(idx as int),
        ensures
            r == (spec_slot(self.stack_view(), idx as int) matches Some(Value::Buffer(_))),
    {
        self.type_of(idx) == LuauType::LUA_TBUFFER
    }

    /// Returns true when the value at `idx` is a native vector.
    pub fn is_vector(&self, idx: i32) -> (r: bool)
        requires
            self.wf(),
            self.spec_check_index(idx as int),
        ensures
            r == (spec_slot(self.stack_view(), idx as int) matches Some(Value::Vector(_, _, _))),
    {
        self.type_of(idx) == LuauType::LUA_TVECTOR
    }

    /// Returns true when the value at `idx` is an untagged foreign pointer.
    pub fn is_lightuserdata(&self, idx: i32) -> (r: bool)
        requires
            self.wf(),
            self.spec_check_index(idx as int),
        ensures
            r == (spec_slot(self.stack_view(), idx as int) matches Some(Value::LightUserdata(_))),
    {
        self.type_of(idx) == LuauType::LUA_TLIGHTUSERDATA
    }

    /// Truthiness of the value at `idx`: false only for nil, false and
    /// empty positions.
    pub fn to_boolean(&self, idx: i32) -> (r: bool)
        requires
            self.wf(),
            self.spec_check_index(idx as int),
        ensures
            r == match spec_slot(self.stack_view(), idx as int) {
                Some(v) => spec_truthy(v),
                None => false,
            },
    {
        match self.slot_of(idx) {
            Some(i) => match &self.stack[i] {
                Value::Nil => false,
                Value::Boolean(b) => *b,
                _ => true,
            },
            None => false,
        }
    }

    /// Reads the number at `idx` as the bit pattern of an IEEE 754
    /// double, or `None` when the slot holds no number.
    pub fn to_number(&self, idx: i32) -> (r: Option<u64>)
        requires
            self.wf(),
            self.spec_check_index(idx as int),
        ensures
            r == match spec_slot(self.stack_view(), idx as int) {
                Some(v) => match v {
                    Value::Number(bits) => Some(bits),
                    _ => None::<u64>,
                },
                None => None::<u64>,
            },
    {
        match self.slot_of(idx) {
            Some(i) => match &self.stack[i] {
                Value::Number(bits) => Some(*bits),
                _ => None,
            },
            None => None,
        }
    }

    /// Reads the string at `idx`, or `None` when the slot holds no
    /// string.
    pub fn to_str_slice(&self, idx: i32) -> (r: Option<&Vec<u8>>)
        requires
            self.wf(),
            self.spec_check_index(idx as int),
        ensures
            r is Some <==> (spec_slot(self.stack_view(), idx as int) matches Some(
                Value::Str(_),
            )),
            r is Some ==> spec_slot(self.stack_view(), idx as int) == Some(Value::Str(*r->0)),
    {
        match self.slot_of(idx) {
            Some(i) => match &self.stack[i] {
                Value::Str(b) => Some(b),
                _ => None,
            },
            None => None,
        }
    }

    /// Reads the buffer at `idx`, or `None` when the slot holds no
    /// buffer.
    pub fn to_buffer(&self, idx: i32) -> (r: Option<&Vec<u8>>)
        requires
            self.wf(),
            self.spec_check_index(idx as int),
        ensures
            r is Some <==> (spec_slot(self.stack_view(), idx as int) matches Some(
                Value::Buffer(_),
            )),
            r is Some ==> spec_slot(self.stack_view(), idx as int) == Some(Value::Buffer(*r->0)),
    {
        match self.slot_of(idx) {
            Some(i) => match &self.stack[i] {
                Value::Buffer(b) => Some(b),
                _ => None,
            },
            None => None,
        }
    }

    /// Reads the foreign pointer token at `idx`, or `None` when the slot
    /// holds no untagged pointer.
    pub fn to_lightuserdata(&self, idx: i32) -> (r: Option<usize>)
        requires
            self.wf(),
            self.spec_check_index(idx as int),
        ensures
            r == match spec_slot(self.stack_view(), idx as int) {
                Some(v) => match v {
                    Value::LightUserdata(p) => Some(p),
                    _ => None::<usize>,
                },
                None => None::<usize>,
            },
    {
        match self.slot_of(idx) {
            Some(i) => match &self.stack[i] {
                Value::LightUserdata(p) => Some(*p),
                _ => None,
            },
            None => None,
        }
    }

    /// Reads the vector at `idx` as the bit patterns of its lanes, or
    /// `None` when the slot holds no vector.
    pub fn to_vector(&self, idx: i32) -> (r: Option<(u32, u32, u32)>)
        requires
            self.wf(),
            self.spec_check_index(idx as int),
        ensures
            r == match spec_slot(self.stack_view(), idx as int) {
                Some(v) => match v {
                    Value::Vector(x, y, z) => Some((x, y, z)),
                    _ => None::<(u32, u32, u32)>,
                },
                None => None::<(u32, u32, u32)>,
            },
    {
        match self.slot_of(idx) {
            Some(i) => match &self.stack[i] {
                Value::Vector(x, y, z) => Some((*x, *y, *z)),
                _ => None,
            },
            None => None,
        }
    }

    /// Embeds a host value: a fresh tagged block carrying the type
    /// identifier, a free borrow cell, the optional destructor-dispatch
    /// token and the payload bytes is created on the machine heap, and a
    /// reference to it is pushed onto the stack.
    pub fn push_userdata(&mut self, type_id: u64, dtor: Option<u64>, payload: Vec<u8>)
        requires
            old(self).wf(),
            old(self).stack_view().len() < MAX_C_STACK,
        ensures
            final(self).wf(),
            final(self).heap_view() == old(self).heap_view().push(
                Userdata { type_id, borrow: BorrowState::Free, dtor, payload },
            ),
            final(self).stack_view() == old(self).stack_view().push(
                Value::Userdata(old(self).heap_view().len() as usize),
            ),
            final(self).threads_view() == old(self).threads_view(),
            final(self).app_data_view() == old(self).app_data_view(),
            final(self).is_alive() == old(self).is_alive(),
    {
        let b = self.heap.len();
        self.heap.push(Userdata { type_id, borrow: BorrowState::Free, dtor, payload });
        self.stack.push(Value::Userdata(b));
        proof {
            assert forall|i: int| 0 <= i < final(self).stack_view().len() implies spec_value_wf(
                #[trigger] final(self).stack_view()[i],
                final(self).heap_view().len() as int,
                final(self).threads_view().len() as int,
            ) by {
                if i < old(self).stack_view().len() {
                    assert(spec_value_wf(
                        old(self).stack_view()[i],
                        old(self).heap_view().len() as int,
                        old(self).threads_view().len() as int,
                    ));
                }
            }
            assert forall|j: int| 0 <= j < final(self).threads_view().len() implies spec_stack_wf(
                (#[trigger] final(self).threads_view()[j]).stack_view(),
                final(self).heap_view().len() as int,
                final(self).threads_view().len() as int,
            ) by {
                let ts = old(self).threads_view()[j].stack_view();
                assert(spec_stack_wf(
                    ts,
                    old(self).heap_view().len() as int,
                    old(self).threads_view().len() as int,
                ));
                assert forall|i: int| 0 <= i < ts.len() implies spec_value_wf(
                    #[trigger] ts[i],
                    final(self).heap_view().len() as int,
                    final(self).threads_view().len() as int,
                ) by {
                    assert(spec_value_wf(
                        ts[i],
                        old(self).heap_view().len() as int,
                        old(self).threads_view().len() as int,
                    ));
                }
            }
        }
    }

    /// Returns true when the value at `idx` is an embedded block of the
    /// given type.
    pub fn is_userdata(&self, idx: i32, type_id: u64) -> (r: bool)
        requires
            self.wf(),
            self.spec_check_index(idx as int),
        ensures
            r == (spec_ud_block_at(self.stack_view(), self.heap_view(), idx as int, type_id)
                is Some),
    {
        match self.slot_of(idx) {
            Some(i) => match &self.stack[i] {
                Value::Userdata(b) => self.heap[*b].is(type_id),
                _ => false,
            },
            None => false,
        }
    }

    /// Returns true when the value at `idx` is an embedded block of any
    /// type.
    pub fn is_any_userdata(&self, idx: i32) -> (r: bool)
        requires
            self.wf(),
            self.spec_check_index(idx as int),
        ensures
            r == (spec_slot(self.stack_view(), idx as int) matches Some(Value::Userdata(_))),
    {
        self.type_of(idx) == LuauType::LUA_TUSERDATA
    }

    /// Extracts the type identifier stored in the embedded block at
    /// `idx`, or `None` when the slot holds no embedded block.
    pub fn userdata_type(&self, idx: i32) -> (r: Option<u64>)
        requires
            self.wf(),
            self.spec_check_index(idx as int),
        ensures
            r == match spec_slot(self.stack_view(), idx as int) {
                Some(v) => match v {
                    Value::Userdata(b) => Some(self.heap_view()[b as int].type_id),
                    _ => None::<u64>,
                },
                None => None::<u64>,
            },
    {
        match self.slot_of(idx) {
            Some(i) => match &self.stack[i] {
                Value::Userdata(b) => Some(self.heap[*b].type_id),
                _ => None,
            },
            None => None,
        }
    }

    /// Looks up the embedded block at `idx` when it stores the requested
    /// type.
    fn ud_block_of(&self, idx: i32, type_id: u64) -> (r: Option<usize>)
        requires
            self.wf(),
        ensures
            r is None <==> spec_ud_block_at(self.stack_view(), self.heap_view(), idx as int, type_id) is None,
            r is Some ==> r->0 as int == spec_ud_block_at(
                self.stack_view(),
                self.heap_view(),
                idx as int,
                type_id,
            )->0 && (r->0 as int) < self.heap_view().len(),
    {
        match self.slot_of(idx) {
            Some(i) => match &self.stack[i] {
                Value::Userdata(b) => {
                    if self.heap[*b].is(type_id) {
                        Some(*b)
                    } else {
                        None
                    }
                },
                _ => None,
            },
            None => None,
        }
    }

    /// Tries to take a shared borrow of the embedded value of the
    /// requested type at `idx`.
    ///
    /// Yields `None` when the slot holds no embedded block of that type,
    /// `Some(Err(_))` when the block is already held exclusively (or its
    /// sharer count is exhausted), and a guard otherwise.
    pub fn try_borrow_userdata(&mut self, idx: i32, type_id: u64) -> (r: Option<
        Result<UserdataRef, UserdataBorrowError>,
    >)
        requires
            old(self).wf(),
            old(self).spec_check_index(idx as int),
        ensures
            final(self).wf(),
            final(self).stack_view() == old(self).stack_view(),
            final(self).threads_view() == old(self).threads_view(),
            final(self).app_data_view() == old(self).app_data_view(),
            final(self).is_alive() == old(self).is_alive(),
            r is None <==> spec_ud_block_at(
                old(self).stack_view(),
                old(self).heap_view(),
                idx as int,
                type_id,
            ) is None,
            r is None ==> final(self).heap_view() == old(self).heap_view(),
            r is Some ==> ({
                let b = spec_ud_block_at(
                    old(self).stack_view(),
                    old(self).heap_view(),
                    idx as int,
                    type_id,
                )->0;
                let cell = old(self).heap_view()[b].borrow;
                match spec_shared_verdict(cell) {
                    Ok(_) => r == Some(Ok::<UserdataRef, UserdataBorrowError>(
                        UserdataRef { block: b as usize },
                    )) && final(self).heap_view() == old(self).heap_view().update(
                        b,
                        Userdata { borrow: spec_after_shared(cell), ..old(self).heap_view()[b] },
                    ),
                    Err(e) => r == Some(Err::<UserdataRef, UserdataBorrowError>(e)) && final(self).heap_view()
                        == old(self).heap_view(),
                }
            }),
    {
        match self.ud_block_of(idx, type_id) {
            Some(b) => {
                let block = &mut self.heap[b];
                let mut cell = block.borrow;
                let verdict = cell.try_acquire_shared();
                match verdict {
                    Ok(_) => {
                        block.borrow = cell;
                        Some(Ok(UserdataRef { block: b }))
                    },
                    Err(e) => Some(Err(e)),
                }
            },
            None => None,
        }
    }

    /// Takes a shared borrow of the embedded value of the requested type
    /// at `idx`, or `None` when the slot holds no such value. The block
    /// must not be held exclusively.
    pub fn borrow_userdata(&mut self, idx: i32, type_id: u64) -> (r: Option<UserdataRef>)
        requires
            old(self).wf(),
            old(self).spec_check_index(idx as int),
            (spec_ud_block_at(
                old(self).stack_view(),
                old(self).heap_view(),
                idx as int,
                type_id,
            ) matches Some(b) ==> spec_shared_verdict(old(self).heap_view()[b].borrow) is Ok),
        ensures
            final(self).wf(),
            final(self).stack_view() == old(self).stack_view(),
            final(self).threads_view() == old(self).threads_view(),
            final(self).app_data_view() == old(self).app_data_view(),
            final(self).is_alive() == old(self).is_alive(),
            r is None <==> spec_ud_block_at(
                old(self).stack_view(),
                old(self).heap_view(),
                idx as int,
                type_id,
            ) is None,
            r is None ==> final(self).heap_view() == old(self).heap_view(),
            r is Some ==> ({
                let b = spec_ud_block_at(
                    old(self).stack_view(),
                    old(self).heap_view(),
                    idx as int,
                    type_id,
                )->0;
                r == Some(UserdataRef { block: b as usize }) && final(self).heap_view() == old(
                    self,
                ).heap_view().update(
                    b,
                    Userdata {
                        borrow: spec_after_shared(old(self).heap_view()[b].borrow),
                        ..old(self).heap_view()[b]
                    },
                )
            }),
    {
        match self.try_borrow_userdata(idx, type_id) {
            Some(outcome) => match outcome {
                Ok(guard) => Some(guard),
                Err(_) => unreached(),
            },
            None => None,
        }
    }

    /// Tries to take the exclusive borrow of the embedded value of the
    /// requested type at `idx`.
    ///
    /// Yields `None` when the slot holds no embedded block of that type,
    /// `Some(Err(_))` when any guard is outstanding, and a guard
    /// otherwise.
    pub fn try_borrow_userdata_mut(&mut self, idx: i32, type_id: u64) -> (r: Option<
        Result<UserdataRefMut, UserdataBorrowError>,
    >)
        requires
            old(self).wf(),
            old(self).spec_check_index(idx as int),
        ensures
            final(self).wf(),
            final(self).stack_view() == old(self).stack_view(),
            final(self).threads_view() == old(self).threads_view(),
            final(self).app_data_view() == old(self).app_data_view(),
            final(self).is_alive() == old(self).is_alive(),
            r is None <==> spec_ud_block_at(
                old(self).stack_view(),
                old(self).heap_view(),
                idx as int,
                type_id,
            ) is None,
            r is None ==> final(self).heap_view() == old(self).heap_view(),
            r is Some ==> ({
                let b = spec_ud_block_at(
                    old(self).stack_view(),
                    old(self).heap_view(),
                    idx as int,
                    type_id,
                )->0;
                let cell = old(self).heap_view()[b].borrow;
                match spec_exclusive_verdict(cell) {
                    Ok(_) => r == Some(Ok::<UserdataRefMut, UserdataBorrowError>(
                        UserdataRefMut { block: b as usize },
                    )) && final(self).heap_view() == old(self).heap_view().update(
                        b,
                        Userdata { borrow: BorrowState::Exclusive, ..old(self).heap_view()[b] },
                    ),
                    Err(e) => r == Some(Err::<UserdataRefMut, UserdataBorrowError>(e)) && final(self).heap_view()
                        == old(self).heap_view(),
                }
            }),
    {
        match self.ud_block_of(idx, type_id) {
            Some(b) => {
                let block = &mut self.heap[b];
                let mut cell = block.borrow;
                let verdict = cell.try_acquire_exclusive();
                match verdict {
                    Ok(_) => {
                        block.borrow = cell;
                        Some(Ok(UserdataRefMut { block: b }))
                    },
                    Err(e) => Some(Err(e)),
                }
            },
            None => None,
        }
    }

    /// Reads the payload of the block a shared guard holds.
    pub fn userdata_bytes<'a>(&'a self, guard: &UserdataRef) -> (r: &'a Vec<u8>)
        requires
            self.wf(),
            guard.block < self.heap_view().len(),
        ensures
            *r == self.heap_view()[guard.block as int].payload,
    {
        &self.heap[guard.block].payload
    }

    /// Reads the payload of the block an exclusive guard holds.
    pub fn userdata_bytes_mut<'a>(&'a self, guard: &UserdataRefMut) -> (r: &'a Vec<u8>)
        requires
            self.wf(),
            guard.block < self.heap_view().len(),
        ensures
            *r == self.heap_view()[guard.block as int].payload,
    {
        &self.heap[guard.block].payload
    }

    /// Replaces the payload of the block an exclusive guard holds.
    pub fn set_userdata_bytes(&mut self, guard: &UserdataRefMut, bytes: Vec<u8>)
        requires
            old(self).wf(),
            guard.block < old(self).heap_view().len(),
            old(self).heap_view()[guard.block as int].borrow is Exclusive,
        ensures
            final(self).wf(),
            final(self).heap_view() == old(self).heap_view().update(
                guard.block as int,
                Userdata { payload: bytes, ..old(self).heap_view()[guard.block as int] },
            ),
            final(self).stack_view() == old(self).stack_view(),
            final(self).threads_view() == old(self).threads_view(),
            final(self).app_data_view() == old(self).app_data_view(),
            final(self).is_alive() == old(self).is_alive(),
    {
        let block = &mut self.heap[guard.block];
        block.payload = bytes;
    }

    /// Hands a shared guard back, releasing its claim on the block.
    pub fn release_userdata_ref(&mut self, guard: UserdataRef)
        requires
            old(self).wf(),
            guard.block < old(self).heap_view().len(),
            old(self).heap_view()[guard.block as int].borrow is Shared,
        ensures
            final(self).wf(),
            final(self).heap_view() == old(self).heap_view().update(
                guard.block as int,
                Userdata {
                    borrow: crate::borrow::spec_after_shared_release(
                        old(self).heap_view()[guard.block as int].borrow,
                    ),
                    ..old(self).heap_view()[guard.block as int]
                },
            ),
            final(self).stack_view() == old(self).stack_view(),
            final(self).threads_view() == old(self).threads_view(),
            final(self).app_data_view() == old(self).app_data_view(),
            final(self).is_alive() == old(self).is_alive(),
    {
        let block = &mut self.heap[guard.block];
        let mut cell = block.borrow;
        cell.release_shared();
        block.borrow = cell;
    }

    /// Hands the exclusive guard back, freeing the block.
    pub fn release_userdata_mut(&mut self, guard: UserdataRefMut)
        requires
            old(self).wf(),
            guard.block < old(self).heap_view().len(),
            old(self).heap_view()[guard.block as int].borrow is Exclusive,
        ensures
            final(self).wf(),
            final(self).heap_view() == old(self).heap_view().update(
                guard.block as int,
                Userdata {
                    borrow: BorrowState::Free,
                    ..old(self).heap_view()[guard.block as int]
                },
            ),
            final(self).stack_view() == old(self).stack_view(),
            final(self).threads_view() == old(self).threads_view(),
            final(self).app_data_view() == old(self).app_data_view(),
            final(self).is_alive() == old(self).is_alive(),
    {
        let block = &mut self.heap[guard.block];
        let mut cell = block.borrow;
        cell.release_exclusive();
        block.borrow = cell;
    }

    /// Sets the application-data slot and returns the previous value.
    pub fn set_app_data(&mut self, ud: Option<AppValue>) -> (prev: Option<AppValue>)
        requires
            old(self).wf(),
        ensures
            final(self).wf(),
            prev == old(self).app_data_view(),
            final(self).app_data_view() == ud,
            final(self).stack_view() == old(self).stack_view(),
            final(self).heap_view() == old(self).heap_view(),
            final(self).threads_view() == old(self).threads_view(),
            final(self).is_alive() == old(self).is_alive(),
    {
        let prev = self.app_data.take();
        self.app_data = ud;
        prev
    }

    /// Reads the application data when it stores the requested type, as
    /// the original value's plain bytes.
    pub fn get_app_data(&self, type_id: u64) -> (r: Option<&Vec<u8>>)
        ensures
            r is Some <==> self.app_data_view() is Some && self.app_data_view()->0.type_id
                == type_id,
            r is Some ==> *r->0 == self.app_data_view()->0.bytes,
    {
        match &self.app_data {
            Some(v) => {
                if v.type_id == type_id {
                    Some(&v.bytes)
                } else {
                    None
                }
            },
            None => None,
        }
    }

    /// Sets the memory category attributed to all following allocations.
    pub fn set_memory_category(&mut self, cat: i32)
        requires
            old(self).wf(),
            0 <= cat < LUA_MEMORY_CATEGORIES,
        ensures
            final(self).wf(),
            final(self).memory_category_view() == cat,
            final(self).stack_view() == old(self).stack_view(),
            final(self).heap_view() == old(self).heap_view(),
            final(self).threads_view() == old(self).threads_view(),
            final(self).app_data_view() == old(self).app_data_view(),
            final(self).is_alive() == old(self).is_alive(),
    {
        self.memory_category = cat;
    }

    /// The active memory category.
    pub fn memory_category(&self) -> (r: i32)
        requires
            self.wf(),
        ensures
            r == self.memory_category_view(),
    {
        self.memory_category
    }

    /// Moves the top value into the position `to`, shifting the values
    /// above that position up.
    pub fn shift(&mut self, to: i32)
        requires
            old(self).wf(),
            spec_slot(old(self).stack_view(), to as int) is Some,
        ensures
            final(self).wf(),
            final(self).stack_view() == old(self).stack_view().drop_last().insert(
                spec_slot_pos(old(self).stack_view().len() as int, to as int),
                old(self).stack_view().last(),
            ),
            final(self).heap_view() == old(self).heap_view(),
            final(self).threads_view() == old(self).threads_view(),
            final(self).app_data_view() == old(self).app_data_view(),
            final(self).is_alive() == old(self).is_alive(),
    {
        let a = match self.slot_of(to) {
            Some(a) => a,
            None => unreached(),
        };
        let v = match self.stack.pop() {
            Some(v) => v,
            None => unreached(),
        };
        if a < self.stack.len() {
            self.stack.insert(a, v);
        } else {
            self.stack.push(v);
            assert(final(self).stack_view() =~= old(self).stack_view().drop_last().insert(
                a as int,
                old(self).stack_view().last(),
            ));
        }
    }

    /// Pushes a host function under its registered token, capturing the
    /// topmost `num_upvals` stack values as its upvalues.
    pub fn push_function(&mut self, token: u64, num_upvals: i32)
        requires
            old(self).wf(),
            old(self).stack_view().len() < MAX_C_STACK,
            0 <= num_upvals <= old(self).stack_view().len(),
        ensures
            final(self).wf(),
            final(self).stack_view() == old(self).stack_view().take(
                old(self).stack_view().len() - num_upvals,
            ).push(Value::Function(token)),
            final(self).heap_view() == old(self).heap_view(),
            final(self).threads_view() == old(self).threads_view(),
            final(self).app_data_view() == old(self).app_data_view(),
            final(self).is_alive() == old(self).is_alive(),
    {
        let new_len = self.stack.len() - num_upvals as usize;
        self.stack.truncate(new_len);
        self.stack.push(Value::Function(token));
        assert(final(self).stack_view() =~= old(self).stack_view().take(
            old(self).stack_view().len() - num_upvals,
        ).push(Value::Function(token)));
    }

    /// Spawns a secondary execution context sharing this root's heap,
    /// pushes a reference to it and returns its handle.
    pub fn push_thread(&mut self) -> (t: LuauThread)
        requires
            old(self).wf(),
            old(self).stack_view().len() < MAX_C_STACK,
        ensures
            final(self).wf(),
            t.id_view() == old(self).threads_view().len(),
            final(self).threads_view().len() == old(self).threads_view().len() + 1,
            final(self).threads_view().take(old(self).threads_view().len() as int) == old(
                self,
            ).threads_view(),
            final(self).threads_view().last().stack_view() == Seq::<Value>::empty(),
            final(self).threads_view().last().status_view() == LuauStatus::LUA_OK,
            final(self).stack_view() == old(self).stack_view().push(
                Value::Thread(old(self).threads_view().len() as usize),
            ),
            final(self).heap_view() == old(self).heap_view(),
            final(self).app_data_view() == old(self).app_data_view(),
            final(self).is_alive() == old(self).is_alive(),
    {
        let id = self.threads.len();
        self.threads.push(ThreadContext::new_context());
        self.stack.push(Value::Thread(id));
        proof {
            assert(final(self).threads_view().take(old(self).threads_view().len() as int)
                =~= old(self).threads_view());
            assert forall|i: int| 0 <= i < final(self).stack_view().len() implies spec_value_wf(
                #[trigger] final(self).stack_view()[i],
                final(self).heap_view().len() as int,
                final(self).threads_view().len() as int,
            ) by {
                if i < old(self).stack_view().len() {
                    assert(spec_value_wf(
                        old(self).stack_view()[i],
                        old(self).heap_view().len() as int,
                        old(self).threads_view().len() as int,
                    ));
                }
            }
            assert forall|j: int| 0 <= j < final(self).threads_view().len() implies spec_stack_wf(
                (#[trigger] final(self).threads_view()[j]).stack_view(),
                final(self).heap_view().len() as int,
                final(self).threads_view().len() as int,
            ) by {
                if j < old(self).threads_view().len() {
                    let ts = old(self).threads_view()[j].stack_view();
                    assert(spec_stack_wf(
                        ts,
                        old(self).heap_view().len() as int,
                        old(self).threads_view().len() as int,
                    ));
                    assert forall|i: int| 0 <= i < ts.len() implies spec_value_wf(
                        #[trigger] ts[i],
                        final(self).heap_view().len() as int,
                        final(self).threads_view().len() as int,
                    ) by {
                        assert(spec_value_wf(
                            ts[i],
                            old(self).heap_view().len() as int,
                            old(self).threads_view().len() as int,
                        ));
                    }
                }
            }
        }
        LuauThread::from_id(id)
    }

    /// Returns a handle to the secondary context referenced at `idx`, or
    /// `None` when the slot holds no such context.
    pub fn get_thread(&self, idx: i32) -> (r: Option<LuauThread>)
        requires
            self.wf(),
            self.spec_check_index(idx as int),
        ensures
            r is Some <==> (spec_slot(self.stack_view(), idx as int) matches Some(
                Value::Thread(_),
            )),
            r is Some ==> spec_slot(self.stack_view(), idx as int) == Some(
                Value::Thread(r->0.id_view() as usize),
            ) && r->0.valid_for(self),
    {
        match self.slot_of(idx) {
            Some(i) => match &self.stack[i] {
                Value::Thread(t) => {
                    proof {
                        assert(spec_value_wf(
                            self.stack_view()[i as int],
                            self.heap_view().len() as int,
                            self.threads_view().len() as int,
                        ));
                    }
                    Some(LuauThread::from_id(*t))
                },
                _ => None,
            },
            None => None,
        }
    }

    /// Pushes a host function onto the control stack of a secondary
    /// context.
    pub fn thread_push_function(&mut self, t: &LuauThread, token: u64)
        requires
            old(self).wf(),
            t.valid_for(old(self)),
            old(self).is_alive(),
            old(self).threads_view()[t.id_view()].stack_view().len() < MAX_C_STACK,
        ensures
            final(self).wf(),
            final(self).threads_view().len() == old(self).threads_view().len(),
            final(self).threads_view()[t.id_view()].stack_view() == old(self).threads_view()[
                t.id_view()
            ].stack_view().push(Value::Function(token)),
            final(self).threads_view()[t.id_view()].status_view() == old(self).threads_view()[
                t.id_view()
            ].status_view(),
            forall|j: int|
                0 <= j < old(self).threads_view().len() && j != t.id_view()
                    ==> final(self).threads_view()[j] == old(self).threads_view()[j],
            final(self).stack_view() == old(self).stack_view(),
            final(self).heap_view() == old(self).heap_view(),
            final(self).app_data_view() == old(self).app_data_view(),
            final(self).is_alive() == old(self).is_alive(),
    {
        let i = t.slot();
        let tc = &mut self.threads[i];
        tc.push(Value::Function(token));
    }

    /// Resumes a secondary context with `nargs` arguments taken from the
    /// top of its control stack.
    ///
    /// The machine transfers control to the host function found directly
    /// beneath the arguments: the function value is consumed, the
    /// arguments stay as the callee's frame, and the caller is told which
    /// host function to run. When no callable value is there, the resume
    /// fails with a runtime error.
    pub fn resume(&mut self, t: &LuauThread, nargs: i32) -> (r: ResumeAction)
        requires
            old(self).wf(),
            t.valid_for(old(self)),
            old(self).is_alive(),
            0 <= nargs,
        ensures
            final(self).wf(),
            r == (match spec_resume_target(
                old(self).threads_view()[t.id_view()].stack_view(),
                nargs as int,
            ) {
                Some(tok) => ResumeAction::CallHost(tok),
                None => ResumeAction::RuntimeError,
            }),
            final(self).threads_view().len() == old(self).threads_view().len(),
            r is CallHost ==> final(self).threads_view()[t.id_view()].stack_view() == old(
                self,
            ).threads_view()[t.id_view()].stack_view().remove(
                old(self).threads_view()[t.id_view()].stack_view().len() - nargs - 1,
            ) && final(self).threads_view()[t.id_view()].status_view() == old(
                self,
            ).threads_view()[t.id_view()].status_view(),
            r is RuntimeError ==> final(self).threads_view()[t.id_view()].stack_view() == old(
                self,
            ).threads_view()[t.id_view()].stack_view() && final(self).threads_view()[
                t.id_view()
            ].status_view() == LuauStatus::LUA_ERRRUN,
            forall|j: int|
                0 <= j < old(self).threads_view().len() && j != t.id_view()
                    ==> final(self).threads_view()[j] == old(self).threads_view()[j],
            final(self).stack_view() == old(self).stack_view(),
            final(self).heap_view() == old(self).heap_view(),
            final(self).app_data_view() == old(self).app_data_view(),
            final(self).is_alive() == old(self).is_alive(),
    {
        let i = t.slot();
        let tc = &mut self.threads[i];
        let len = tc.top();
        if nargs < len {
            let fpos = (len - nargs - 1) as usize;
            let is_function = match tc.value_at(fpos) {
                Value::Function(_) => true,
                _ => false,
            };
            if is_function {
                let f = tc.remove_at(fpos);
                match f {
                    Value::Function(tok) => {
                        proof {
                            assert forall|k: int|
                                0 <= k < final(self).threads_view()[t.id_view()].stack_view().len()
                                    implies spec_value_wf(
                                    #[trigger] final(self).threads_view()[
                                        t.id_view()
                                    ].stack_view()[k],
                                    final(self).heap_view().len() as int,
                                    final(self).threads_view().len() as int,
                                ) by {
                                let ts = old(self).threads_view()[t.id_view()].stack_view();
                                assert(spec_stack_wf(
                                    ts,
                                    old(self).heap_view().len() as int,
                                    old(self).threads_view().len() as int,
                                ));
                                if k < fpos {
                                    assert(spec_value_wf(
                                        ts[k],
                                        old(self).heap_view().len() as int,
                                        old(self).threads_view().len() as int,
                                    ));
                                } else {
                                    assert(spec_value_wf(
                                        ts[k + 1],
                                        old(self).heap_view().len() as int,
                                        old(self).threads_view().len() as int,
                                    ));
                                }
                            }
                        }
                        ResumeAction::CallHost(tok)
                    },
                    _ => unreached(),
                }
            } else {
                tc.set_status(LuauStatus::LUA_ERRRUN);
                ResumeAction::RuntimeError
            }
        } else {
            tc.set_status(LuauStatus::LUA_ERRRUN);
            ResumeAction::RuntimeError
        }
    }

    /// Records the status a host call left a resumed context in.
    pub fn complete_resume(&mut self, t: &LuauThread, status: LuauStatus)
        requires
            old(self).wf(),
            t.valid_for(old(self)),
            old(self).is_alive(),
        ensures
            final(self).wf(),
            final(self).threads_view().len() == old(self).threads_view().len(),
            final(self).threads_view()[t.id_view()].stack_view() == old(self).threads_view()[
                t.id_view()
            ].stack_view(),
            final(self).threads_view()[t.id_view()].status_view() == status,
            forall|j: int|
                0 <= j < old(self).threads_view().len() && j != t.id_view()
                    ==> final(self).threads_view()[j] == old(self).threads_view()[j],
            final(self).stack_view() == old(self).stack_view(),
            final(self).heap_view() == old(self).heap_view(),
            final(self).app_data_view() == old(self).app_data_view(),
            final(self).is_alive() == old(self).is_alive(),
    {
        let i = t.slot();
        let tc = &mut self.threads[i];
        tc.set_status(status);
    }

    /// Forcibly resets a secondary context: its control stack is cleared
    /// and its status returns to the initial one. This is distinct from
    /// root teardown and does not affect liveness.
    pub fn reset_thread(&mut self, t: &LuauThread)
        requires
            old(self).wf(),
            t.valid_for(old(self)),
            old(self).is_alive(),
        ensures
            final(self).wf(),
            final(self).threads_view().len() == old(self).threads_view().len(),
            final(self).threads_view()[t.id_view()].stack_view() == Seq::<Value>::empty(),
            final(self).threads_view()[t.id_view()].status_view() == LuauStatus::LUA_OK,
            forall|j: int|
                0 <= j < old(self).threads_view().len() && j != t.id_view()
                    ==> final(self).threads_view()[j] == old(self).threads_view()[j],
            final(self).stack_view() == old(self).stack_view(),
            final(self).heap_view() == old(self).heap_view(),
            final(self).app_data_view() == old(self).app_data_view(),
            final(self).is_alive() == old(self).is_alive(),
    {
        let i = t.slot();
        let tc = &mut self.threads[i];
        tc.clear();
        tc.set_status(LuauStatus::LUA_OK);
    }

    /// Destroys the root context.
    ///
    /// The liveness flag is lowered first, so that any later access
    /// through a secondary handle observes death; then every stack, every
    /// secondary context and the whole heap of embedded blocks are
    /// reclaimed. The returned sequence holds the destructor-dispatch
    /// token of every embedded value that has teardown logic, in heap
    /// order, each exactly once: the host runs the teardown these tokens
    /// name.
    pub fn close(&mut self) -> (tokens: Vec<u64>)
        requires
            old(self).wf(),
            old(self).is_alive(),
        ensures
            final(self).wf(),
            !final(self).is_alive(),
            tokens@ == spec_dtor_tokens(old(self).heap_view()),
            final(self).stack_view() == Seq::<Value>::empty(),
            final(self).heap_view() == Seq::<Userdata>::empty(),
            final(self).threads_view() == Seq::<ThreadContext>::empty(),
            final(self).app_data_view() is None,
    {
        let mut tokens: Vec<u64> = Vec::new();
        let mut k: usize = 0;
        while k < self.heap.len()
            invariant
                k <= self.heap.len(),
                self == old(self),
                tokens@ == spec_dtor_tokens(old(self).heap_view().take(k as int)),
            decreases self.heap.len() - k,
        {
            let d = self.heap[k].dtor;
            match d {
                Some(tok) => tokens.push(tok),
                None => (),
            }
            proof {
                let taken = old(self).heap_view().take(k + 1 as int);
                assert(taken.drop_last() =~= old(self).heap_view().take(k as int));
                assert(taken.last() == old(self).heap_view()[k as int]);
            }
            k += 1;
        }
        proof {
            assert(old(self).heap_view().take(old(self).heap_view().len() as int) =~= old(
                self,
            ).heap_view());
        }
        self.alive = false;
        self.stack.clear();
        self.heap.clear();
        self.threads.clear();
        self.app_data = None;
        tokens
    }

    /// Returns true when at least `count` values are on the stack, the
    /// condition a host function checks before reading its arguments.
    pub fn check_args(&self, count: i32) -> (r: bool)
        requires
            self.wf(),
        ensures
            r == (self.stack_view().len() >= count),
    {
        self.stack.len() as i64 >= count as i64
    }

    /// Protected call: invokes the host function sitting directly beneath
    /// the topmost `nargs` stack values.
    ///
    /// The function value is consumed, the arguments stay as the callee's
    /// frame, and the caller is told which host function to run. When no
    /// callable value is there, the error is converted into the returned
    /// runtime-error code instead of unwinding further.
    pub fn call(&mut self, nargs: i32) -> (r: ResumeAction)
        requires
            old(self).wf(),
            old(self).is_alive(),
            0 <= nargs,
        ensures
            final(self).wf(),
            r == (match spec_resume_target(old(self).stack_view(), nargs as int) {
                Some(tok) => ResumeAction::CallHost(tok),
                None => ResumeAction::RuntimeError,
            }),
            r is CallHost ==> final(self).stack_view() == old(self).stack_view().remove(
                old(self).stack_view().len() - nargs - 1,
            ),
            r is RuntimeError ==> final(self).stack_view() == old(self).stack_view(),
            final(self).heap_view() == old(self).heap_view(),
            final(self).threads_view() == old(self).threads_view(),
            final(self).app_data_view() == old(self).app_data_view(),
            final(self).is_alive() == old(self).is_alive(),
    {
        let len = self.stack.len() as i32;
        if nargs < len {
            let fpos = (len - nargs - 1) as usize;
            let is_function = match &self.stack[fpos] {
                Value::Function(_) => true,
                _ => false,
            };
            if is_function {
                let f = self.stack.remove(fpos);
                match f {
                    Value::Function(tok) => {
                        proof {
                            assert forall|k: int|
                                0 <= k < final(self).stack_view().len() implies spec_value_wf(
                                #[trigger] final(self).stack_view()[k],
                                final(self).heap_view().len() as int,
                                final(self).threads_view().len() as int,
                            ) by {
                                let ts = old(self).stack_view();
                                if k < fpos {
                                    assert(spec_value_wf(
                                        ts[k],
                                        old(self).heap_view().len() as int,
                                        old(self).threads_view().len() as int,
                                    ));
                                } else {
                                    assert(spec_value_wf(
                                        ts[k + 1],
                                        old(self).heap_view().len() as int,
                                        old(self).threads_view().len() as int,
                                    ));
                                }
                            }
                        }
                        ResumeAction::CallHost(tok)
                    },
                    _ => unreached(),
                }
            } else {
                ResumeAction::RuntimeError
            }
        } else {
            ResumeAction::RuntimeError
        }
    }

    /// Creates a zero-filled mutable buffer of the given size and pushes
    /// it.
    pub fn push_buffer(&mut self, size: usize)
        requires
            old(self).wf(),
            old(self).stack_view().len() < MAX_C_STACK,
        ensures
            final(self).wf(),
            final(self).stack_view().len() == old(self).stack_view().len() + 1,
            final(self).stack_view().last() matches Value::Buffer(b) && b@ == Seq::new(
                size as nat,
                |i: int| 0u8,
            ),
            final(self).stack_view().take(old(self).stack_view().len() as int) == old(
                self,
            ).stack_view(),
            final(self).heap_view() == old(self).heap_view(),
            final(self).threads_view() == old(self).threads_view(),
            final(self).app_data_view() == old(self).app_data_view(),
            final(self).is_alive() == old(self).is_alive(),
    {
        let buffer: Vec<u8> = vec![0u8; size];
        proof {
            assert(buffer@ =~= Seq::new(size as nat, |i: int| 0u8));
        }
        self.push_value(Value::Buffer(buffer));
        assert(final(self).stack_view().take(old(self).stack_view().len() as int) =~= old(
            self,
        ).stack_view());
    }

    /// Hands out the state of the secondary context a handle names.
    pub(crate) fn thread_context<'a>(&'a self, t: &LuauThread) -> (r: &'a ThreadContext)
        requires
            t.valid_for(self),
        ensures
            *r == self.threads_view()[t.id_view()],
    {
        let i = t.slot();
        &self.threads[i]
    }

    /// Pushes the given bytes as a fresh mutable buffer.
    pub fn push_buffer_from_slice(&mut self, data: &[u8])
        requires
            old(self).wf(),
            old(self).stack_view().len() < MAX_C_STACK,
        ensures
            final(self).wf(),
            final(self).stack_view().len() == old(self).stack_view().len() + 1,
            final(self).stack_view().last() matches Value::Buffer(b) && b@ == data@,
            final(self).stack_view().take(old(self).stack_view().len() as int) == old(
                self,
            ).stack_view(),
            final(self).heap_view() == old(self).heap_view(),
            final(self).threads_view() == old(self).threads_view(),
            final(self).app_data_view() == old(self).app_data_view(),
            final(self).is_alive() == old(self).is_alive(),
    {
        let mut buffer: Vec<u8> = Vec::new();
        buffer.extend_from_slice(data);
        assert(buffer@ =~= data@);
        self.push_value(Value::Buffer(buffer));
        assert(final(self).stack_view().take(old(self).stack_view().len() as int)
            =~= old(self).stack_view());
    }
}

impl Default for Luau {
    /// A fresh instance, as `new` builds it.
    fn default() -> (l: Luau)
        ensures
            l.wf(),
            l.is_alive(),
            l.stack_view() == Seq::<Value>::empty(),
            l.heap_view() == Seq::<Userdata>::empty(),
            l.threads_view() == Seq::<ThreadContext>::empty(),
            l.app_data_view() is None,
            l.memory_category_view() == 0,
    {
        Luau::new()
    }
}

/// How often a token occurs in a token sequence.
pub open spec fn spec_token_count(tokens: Seq<u64>, t: u64) -> nat
    decreases tokens.len(),
{
    if tokens.len() == 0 {
        0
    } else {
        spec_token_count(tokens.drop_last(), t) + if tokens.last() == t {
            1nat
        } else {
            0nat
        }
    }
}

/// How many blocks of a heap carry the given destructor-dispatch token.
pub open spec fn spec_dtor_block_count(heap: Seq<Userdata>, t: u64) -> nat
    decreases heap.len(),
{
    if heap.len() == 0 {
        0
    } else {
        spec_dtor_block_count(heap.drop_last(), t) + if heap.last().dtor == Some(t) {
            1nat
        } else {
            0nat
        }
    }
}

/// Reclaiming a context runs each embedded value's teardown exactly once:
/// for every token, the destructor-token sequence that `close` hands back
/// holds one occurrence per embedded block that carries that token.
pub proof fn lemma_destructor_dispatched_once(heap: Seq<Userdata>, t: u64)
    ensures
        spec_token_count(spec_dtor_tokens(heap), t) == spec_dtor_block_count(heap, t),
    decreases heap.len(),
{
    if heap.len() > 0 {
        lemma_destructor_dispatched_once(heap.drop_last(), t);
        let front = spec_dtor_tokens(heap.drop_last());
        match heap.last().dtor {
            Some(tok) => {
                assert(spec_dtor_tokens(heap) =~= front.push(tok));
                assert(spec_dtor_tokens(heap).drop_last() =~= front);
            },
            None => {
                assert(spec_dtor_tokens(heap) =~= front);
            },
        }
    }
}

/// Embedding a value and then querying the new stack slot with the same
/// type identifier finds the block again, free to borrow and holding
/// exactly the embedded payload; querying with any distinct type
/// identifier finds nothing.
pub proof fn lemma_embed_round_trip(
    stack: Seq<Value>,
    heap: Seq<Userdata>,
    type_id: u64,
    dtor: Option<u64>,
    payload: Vec<u8>,
    other: u64,
)
    requires
        heap.len() < usize::MAX,
    ensures
        ({
            let stack2 = stack.push(Value::Userdata(heap.len() as usize));
            let heap2 = heap.push(Userdata { type_id, borrow: BorrowState::Free, dtor, payload });
            &&& spec_ud_block_at(stack2, heap2, -1, type_id) == Some(heap.len() as int)
            &&& heap2[heap.len() as int].payload == payload
            &&& spec_shared_verdict(heap2[heap.len() as int].borrow) is Ok
            &&& spec_exclusive_verdict(heap2[heap.len() as int].borrow) is Ok
            &&& (other != type_id ==> spec_ud_block_at(stack2, heap2, -1, other) is None)
        }),
{
}

} // verus!
