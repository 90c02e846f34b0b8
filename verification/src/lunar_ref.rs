//! A registry reference that is made and used through the bridge alone.

use vstd::prelude::*;
use crate::context::LunarContext;
use crate::lua::{Instr, LUAI_MAXSTACK};
use crate::refr::LuaRef;

verus! {

/// A handle to one value in the engine's registry.
#[derive(Debug, Clone, Copy, PartialEq, Eq, Structural)]
pub struct LunarRef {
    ptr: LuaRef,
}

impl LunarRef {
    /// The slot number behind the handle.
    pub closed spec fn id(&self) -> i32 {
        self.ptr.spec_id()
    }

    /// Queues the registration of the value on top of the stack. The
    /// engine answers with the slot number, which [`LunarRef::new`]
    /// takes.
    pub fn register(ctx: &mut LunarContext)
        requires
            old(ctx).wf(),
            old(ctx).top() >= 1,
        ensures
            final(ctx).wf(),
            final(ctx).frame() == old(ctx).frame(),
            final(ctx).ops() == old(ctx).ops().push(Instr::Ref),
            final(ctx).top() == old(ctx).top() - 1,
    {
        LuaRef::register_last_stack_value(ctx);
    }

    /// The handle for the slot number `id` that the engine chose.
    pub fn new(id: i32) -> (r: Self)
        ensures
            r.id() == id,
    {
        Self { ptr: LuaRef::from(id) }
    }

    /// Queues the push of the referenced value.
    pub fn get(&self, ctx: &mut LunarContext)
        requires
            old(ctx).wf(),
            old(ctx).top() + 1 <= LUAI_MAXSTACK,
        ensures
            final(ctx).wf(),
            final(ctx).frame() == old(ctx).frame(),
            final(ctx).ops() == old(ctx).ops().push(Instr::RefPush(self.id())),
            final(ctx).top() == old(ctx).top() + 1,
    {
        self.ptr.push_reference(ctx);
    }
}

} // verus!
