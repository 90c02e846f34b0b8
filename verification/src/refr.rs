//! Registry references: durable handles to values that the engine keeps
//! alive in its registry.

use vstd::prelude::*;
use crate::context::LunarContext;
use crate::lua::{Instr, Op, LUAI_MAXSTACK};

verus! {

/// A handle to one value in the engine's registry, known by the slot number
/// that the engine chose for it.
#[derive(Debug, Clone, Copy, PartialEq, Eq, Structural)]
pub struct LuaRef {
    id: i32,
}

impl LuaRef {
    /// The slot number behind the handle.
    pub closed spec fn spec_id(&self) -> i32 {
        self.id
    }

    /// The handle for the slot number `id`.
    pub fn from(id: i32) -> (r: Self)
        ensures
            r.spec_id() == id,
    {
        Self { id }
    }

    #[verifier::when_used_as_spec(spec_id)]
    pub fn id(&self) -> (id: i32)
        ensures
            id == self.spec_id(),
    {
        self.id
    }

    /// Queues the registration of the value on top of the stack: the
    /// engine moves it into the registry and answers with the slot number,
    /// from which [`LuaRef::from`] makes the handle.
    pub fn register_last_stack_value(ctx: &mut LunarContext)
        requires
            old(ctx).wf(),
            old(ctx).top() >= 1,
        ensures
            final(ctx).wf(),
            final(ctx).frame() == old(ctx).frame(),
            final(ctx).ops() == old(ctx).ops().push(Instr::Ref),
            final(ctx).top() == old(ctx).top() - 1,
    {
        ctx.emit(Op::Ref, -1);
    }

    /// Queues the push of the referenced value, and gives the stack index
    /// at which it will stand. The registry is left as it is.
    pub fn push_reference(&self, ctx: &mut LunarContext) -> (index: i32)
        requires
            old(ctx).wf(),
            old(ctx).top() + 1 <= LUAI_MAXSTACK,
        ensures
            final(ctx).wf(),
            final(ctx).frame() == old(ctx).frame(),
            final(ctx).ops() == old(ctx).ops().push(Instr::RefPush(self.spec_id())),
            final(ctx).top() == old(ctx).top() + 1,
            index == final(ctx).top(),
    {
        ctx.emit(Op::RefPush(self.id), 1);
        ctx.stack_size()
    }

    /// Queues the release of the slot: the registry lets go of the value.
    /// From then on the slot holds nothing, for this handle and for every
    /// copy of it.
    pub fn release(self, ctx: &mut LunarContext)
        requires
            old(ctx).wf(),
        ensures
            final(ctx).wf(),
            final(ctx).frame() == old(ctx).frame(),
            final(ctx).ops() == old(ctx).ops().push(Instr::Unref(self.spec_id())),
            final(ctx).top() == old(ctx).top(),
    {
        ctx.emit(Op::Unref(self.id), 0);
    }
}

} // verus!
