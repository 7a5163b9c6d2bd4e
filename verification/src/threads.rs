//! Secondary execution contexts and root-liveness propagation.
//!
//! A secondary context shares the root's heap but has its own control
//! stack. A handle to one never frees machine resources on its own: the
//! root's destruction cascades to every secondary context, and every
//! access through a handle re-checks the root's liveness first.

use vstd::prelude::*;
use crate::state::Luau;
use crate::types::LuauStatus;
use crate::value::Value;

verus! {

/// The machine-side state of one secondary execution context.
#[derive(Debug)]
pub struct ThreadContext {
    pub(crate) stack: Vec<Value>,
    pub(crate) status: LuauStatus,
}

impl ThreadContext {
    /// The control stack of this context.
    pub closed spec fn stack_view(&self) -> Seq<Value> {
        self.stack@
    }

    /// The status last recorded for this context.
    pub closed spec fn status_view(&self) -> LuauStatus {
        self.status
    }

    /// A fresh, suspended context with an empty control stack.
    pub(crate) fn new_context() -> (c: ThreadContext)
        ensures
            c.stack_view() == Seq::<Value>::empty(),
            c.status_view() == LuauStatus::LUA_OK,
    {
        ThreadContext { stack: Vec::new(), status: LuauStatus::LUA_OK }
    }

    /// Pushes one value onto this context's control stack.
    pub(crate) fn push(&mut self, v: Value)
        requires
            old(self).stack_view().len() < crate::index::MAX_C_STACK,
        ensures
            final(self).stack_view() == old(self).stack_view().push(v),
            final(self).status_view() == old(self).status_view(),
    {
        self.stack.push(v);
    }

    /// Reads the value at a zero-based position of the control stack.
    pub(crate) fn value_at(&self, i: usize) -> (v: &Value)
        requires
            i < self.stack_view().len(),
        ensures
            *v == self.stack_view()[i as int],
    {
        &self.stack[i]
    }

    /// Removes the value at a zero-based position of the control stack.
    pub(crate) fn remove_at(&mut self, i: usize) -> (v: Value)
        requires
            i < old(self).stack_view().len(),
        ensures
            v == old(self).stack_view()[i as int],
            final(self).stack_view() == old(self).stack_view().remove(i as int),
            final(self).status_view() == old(self).status_view(),
    {
        self.stack.remove(i)
    }

    /// Clears the control stack, releasing every slot.
    pub(crate) fn clear(&mut self)
        ensures
            final(self).stack_view() == Seq::<Value>::empty(),
            final(self).status_view() == old(self).status_view(),
    {
        self.stack.clear();
    }

    /// Records a new status.
    pub(crate) fn set_status(&mut self, s: LuauStatus)
        ensures
            final(self).stack_view() == old(self).stack_view(),
            final(self).status_view() == s,
    {
        self.status = s;
    }

    /// Returns the current stack depth of this context.
    pub fn top(&self) -> (t: i32)
        requires
            self.stack_view().len() <= crate::index::MAX_C_STACK,
        ensures
            t == self.stack_view().len(),
    {
        self.stack.len() as i32
    }

    /// Returns the status last recorded for this context.
    pub fn status(&self) -> (s: LuauStatus)
        ensures
            s == self.status_view(),
    {
        self.status
    }
}

/// The error returned when a secondary context is used after its root
/// context has been destroyed.
#[derive(PartialEq, Eq, Structural, Clone, Copy, Debug)]
pub struct MainStateDeadError;

impl MainStateDeadError {
    /// A description of the error.
    pub fn message(&self) -> &'static str {
        "Attempted to get LuauThread inner state when the main state has died"
    }
}

/// A handle to a secondary execution context.
///
/// The handle is only a name: every access goes back through the root, so
/// that the root's death is observed before any machine state is touched.
#[derive(Clone, Copy, Debug)]
pub struct LuauThread {
    pub(crate) id: usize,
}

impl LuauThread {
    /// The slot of the secondary context this handle names.
    pub closed spec fn id_view(&self) -> int {
        self.id as int
    }

    /// Wraps a context slot in a handle.
    pub(crate) fn from_id(id: usize) -> (t: LuauThread)
        ensures
            t.id_view() == id,
    {
        LuauThread { id }
    }

    /// The context slot this handle names.
    pub(crate) fn slot(&self) -> (r: usize)
        ensures
            r == self.id_view(),
    {
        self.id
    }

    /// True when the handle names a context of the given root.
    pub open spec fn valid_for(&self, root: &Luau) -> bool {
        0 <= self.id_view() < root.threads_view().len()
    }

    /// Checks the root's liveness and hands out the context state, or the
    /// root-dead error once the root has been destroyed.
    pub fn try_get_state<'a>(&self, root: &'a Luau) -> (r: Result<
        &'a ThreadContext,
        MainStateDeadError,
    >)
        requires
            root.is_alive() ==> self.valid_for(root),
        ensures
            root.is_alive() ==> r is Ok && *r->Ok_0 == root.threads_view()[self.id_view()],
            !root.is_alive() ==> r == Err::<&'a ThreadContext, MainStateDeadError>(
                MainStateDeadError,
            ),
    {
        if root.alive() {
            Ok(root.thread_context(self))
        } else {
            Err(MainStateDeadError)
        }
    }

    /// Hands out the context state of a root that is known to be alive.
    pub fn get_state<'a>(&self, root: &'a Luau) -> (r: &'a ThreadContext)
        requires
            self.valid_for(root),
            root.is_alive(),
        ensures
            *r == root.threads_view()[self.id_view()],
    {
        match self.try_get_state(root) {
            Ok(state) => state,
            Err(_) => unreached(),
        }
    }
}

} // verus!
