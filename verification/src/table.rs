//! Tables: associative containers on the engine's side, held by the host
//! through a registry reference.
//!
//! Every operation pushes the table first and pops it before it ends, so
//! that the stack is as deep afterwards as it was before.

use vstd::prelude::*;
use vstd::std_specs::convert::TryFromSpec;
use crate::context::{
    crosses, push_instrs, push_room, value_crosses, Function, LunarContext, Value,
};
use crate::lua::{
    boolean_of, c_bytes, field_bytes, float_of, has_terminator, integer_of, long_of, text_of,
    to_const_char,
    Instr, LunarError, Op, Slot, LUAI_MAXSTACK,
};
use crate::metatable::MetaTable;
use crate::refr::LuaRef;
use crate::types::Type;

verus! {

/// A table of the engine. The value owns a registry reference and no stack
/// position.
#[derive(Debug, Clone, Copy, PartialEq, Eq, Structural)]
pub struct Table {
    luaref: LuaRef,
}

/// The operations that publish the table at stack index `index` under
/// `name`: its `__name` field first and, for a global table, the global
/// binding. A table without a name is not published.
pub open spec fn publish_instrs(name: Seq<char>, global: bool, index: i32) -> Seq<Instr> {
    if name.len() == 0 {
        seq![]
    } else if global {
        seq![
            Instr::PushString(c_bytes(name)),
            Instr::SetField(index, c_bytes("__name"@)),
            Instr::PushValue(index),
            Instr::SetGlobal(c_bytes(name)),
        ]
    } else {
        seq![Instr::PushString(c_bytes(name)), Instr::SetField(index, c_bytes("__name"@))]
    }
}

/// The operations that create a table on a stack of `top` values, publish
/// it, and hand it to the registry.
pub open spec fn create_instrs(name: Seq<char>, global: bool, top: int) -> Seq<Instr> {
    seq![Instr::CreateTable] + publish_instrs(name, global, (top + 1) as i32) + seq![Instr::Ref]
}

/// The operations that record the slot number `id` in the `__ref` field of
/// the table registered under it, on a stack of `top` values.
pub open spec fn bind_instrs(id: i32, top: int) -> Seq<Instr> {
    seq![
        Instr::RefPush(id),
        Instr::PushInteger(id as i64),
        Instr::SetField((top + 1) as i32, c_bytes("__ref"@)),
        Instr::SetTop(-2i32),
    ]
}

/// The operations that set the field `field` of the table registered under
/// `id` to `value`, on a stack of `top` values.
pub open spec fn set_instrs(id: i32, field: Seq<char>, value: Value, top: int) -> Seq<Instr> {
    seq![Instr::RefPush(id)] + push_instrs(value, top + 1) + seq![
        Instr::SetField((top + 1) as i32, c_bytes(field)),
        Instr::SetTop(-2i32),
    ]
}

/// The operations that bring the field `field` of the table registered
/// under `id` to the top of a stack of `top` values.
pub open spec fn fetch_instrs(id: i32, field: Seq<char>, top: int) -> Seq<Instr> {
    seq![Instr::RefPush(id), Instr::GetField((top + 1) as i32, c_bytes(field))]
}

/// The operations that bring the `__ref` field of the global published
/// under `name` to the top of a stack of `top` values.
pub open spec fn find_instrs(name: Seq<char>, top: int) -> Seq<Instr> {
    seq![Instr::GetGlobal(c_bytes(name)), Instr::GetField((top + 1) as i32, c_bytes("__ref"@))]
}

/// The operations that attach the table registered under `metatable` to
/// the one registered under `table`, on a stack of `top` values.
pub open spec fn set_metatable_instrs(table: i32, metatable: i32, top: int) -> Seq<Instr> {
    seq![
        Instr::RefPush(table),
        Instr::RefPush(metatable),
        Instr::SetMetatable((top + 1) as i32),
        Instr::SetTop(-2i32),
    ]
}

impl Table {
    /// The registry slot number under which the engine keeps the table.
    pub closed spec fn spec_id(&self) -> i32 {
        self.luaref.spec_id()
    }

    /// The registry slot number under which the engine keeps the table.
    #[verifier::when_used_as_spec(spec_id)]
    pub fn id(&self) -> (id: i32)
        ensures
            id == self.spec_id(),
    {
        self.luaref.id()
    }

    /// The first half of creating a table: queues the operations that make
    /// an empty table, publish it under `name`, and hand it to the
    /// registry. The engine answers the last of them with a slot number,
    /// which [`Table::bind`] takes. A name that cannot cross is refused
    /// with nothing queued.
    pub fn new(ctx: &mut LunarContext, name: &str, global: bool) -> (r: Result<(), LunarError>)
        requires
            old(ctx).wf(),
            old(ctx).top() + 2 <= LUAI_MAXSTACK,
        ensures
            final(ctx).wf(),
            final(ctx).frame() == old(ctx).frame(),
            final(ctx).top() == old(ctx).top(),
            match r {
                Ok(()) => {
                    &&& !has_terminator(c_bytes(name@))
                    &&& final(ctx).ops() == old(ctx).ops() + create_instrs(
                        name@,
                        global,
                        old(ctx).top(),
                    )
                },
                Err(e) => {
                    &&& has_terminator(c_bytes(name@))
                    &&& e == LunarError::Conversion
                    &&& final(ctx).ops() == old(ctx).ops()
                },
            },
    {
        let ghost before = ctx.ops();
        let ghost top = ctx.top();
        proof {
            ctx.lemma_depth_bounds();
        }
        let bytes = to_const_char(name)?;
        ctx.emit(Op::CreateTable, 1);
        let table = ctx.stack_size();
        if !name.is_empty() {
            proof {
                reveal_strlit("__name");
            }
            ctx.emit(Op::PushString(bytes.clone()), 1);
            ctx.emit(Op::SetField(table, field_bytes("__name")), -1);
            if global {
                ctx.emit(Op::PushValue(table), 1);
                ctx.emit(Op::SetGlobal(bytes), -1);
            }
        }
        LuaRef::register_last_stack_value(ctx);
        assert(ctx.ops() =~= before + create_instrs(name@, global, top));
        Ok(())
    }

    /// The second half of creating a table: takes the slot number `id`
    /// that the engine chose, queues the operations that record it in the
    /// table's `__ref` field, and gives the handle.
    pub fn bind(ctx: &mut LunarContext, id: i32) -> (table: Table)
        requires
            old(ctx).wf(),
            old(ctx).top() + 2 <= LUAI_MAXSTACK,
        ensures
            final(ctx).wf(),
            final(ctx).frame() == old(ctx).frame(),
            final(ctx).top() == old(ctx).top(),
            final(ctx).ops() == old(ctx).ops() + bind_instrs(id, old(ctx).top()),
            table.spec_id() == id,
    {
        let ghost before = ctx.ops();
        let ghost top = ctx.top();
        proof {
            ctx.lemma_depth_bounds();
            reveal_strlit("__ref");
        }
        let luaref = LuaRef::from(id);
        let index = luaref.push_reference(ctx);
        ctx.emit(Op::PushInteger(id as i64), 1);
        ctx.emit(Op::SetField(index, field_bytes("__ref")), -1);
        ctx.pop_last();
        assert(ctx.ops() =~= before + bind_instrs(id, top));
        Table { luaref }
    }

    /// Queues the operations that set the field `field` to `value`. A
    /// field name or a value that cannot cross is refused with nothing
    /// queued.
    pub fn set(&self, ctx: &mut LunarContext, field: &str, value: Value) -> (r: Result<
        (),
        LunarError,
    >)
        requires
            old(ctx).wf(),
            old(ctx).top() + 1 + push_room(value) <= LUAI_MAXSTACK,
        ensures
            final(ctx).wf(),
            final(ctx).frame() == old(ctx).frame(),
            final(ctx).top() == old(ctx).top(),
            match r {
                Ok(()) => {
                    &&& !has_terminator(c_bytes(field@))
                    &&& crosses(value)
                    &&& final(ctx).ops() == old(ctx).ops() + set_instrs(
                        self.spec_id(),
                        field@,
                        value,
                        old(ctx).top(),
                    )
                },
                Err(e) => {
                    &&& has_terminator(c_bytes(field@)) || !crosses(value)
                    &&& e == LunarError::Conversion
                    &&& final(ctx).ops() == old(ctx).ops()
                },
            },
    {
        let ghost before = ctx.ops();
        let ghost top = ctx.top();
        proof {
            ctx.lemma_depth_bounds();
        }
        let bytes = to_const_char(field)?;
        if !value_crosses(&value) {
            return Err(LunarError::Conversion);
        }
        let index = self.luaref.push_reference(ctx);
        let pushed = ctx.push(value);
        assert(pushed is Ok);
        ctx.emit(Op::SetField(index, bytes), -1);
        ctx.pop_last();
        assert(ctx.ops() =~= before + set_instrs(self.spec_id(), field@, value, top));
        Ok(())
    }

    /// Queues the operations that set the field `name` to the host
    /// callback `function`.
    pub fn set_function(&self, ctx: &mut LunarContext, name: &str, function: Function) -> (r:
        Result<(), LunarError>)
        requires
            old(ctx).wf(),
            old(ctx).top() + 2 <= LUAI_MAXSTACK,
        ensures
            final(ctx).wf(),
            final(ctx).frame() == old(ctx).frame(),
            final(ctx).top() == old(ctx).top(),
            match r {
                Ok(()) => {
                    &&& !has_terminator(c_bytes(name@))
                    &&& final(ctx).ops() == old(ctx).ops() + set_instrs(
                        self.spec_id(),
                        name@,
                        Value::Function(function),
                        old(ctx).top(),
                    )
                },
                Err(e) => {
                    &&& has_terminator(c_bytes(name@))
                    &&& e == LunarError::Conversion
                    &&& final(ctx).ops() == old(ctx).ops()
                },
            },
    {
        self.set(ctx, name, Value::Function(function))
    }

    /// Queues the operations that attach `metatable` to the table.
    pub fn set_metatable(&self, ctx: &mut LunarContext, metatable: &MetaTable)
        requires
            old(ctx).wf(),
            old(ctx).top() + 2 <= LUAI_MAXSTACK,
        ensures
            final(ctx).wf(),
            final(ctx).frame() == old(ctx).frame(),
            final(ctx).top() == old(ctx).top(),
            final(ctx).ops() == old(ctx).ops() + set_metatable_instrs(
                self.spec_id(),
                metatable.spec_id(),
                old(ctx).top(),
            ),
    {
        ctx.set_metatable(self, metatable);
    }

    /// Queues the push of the table, and gives the stack index at which it
    /// will stand.
    pub fn push_table(&self, ctx: &mut LunarContext) -> (index: i32)
        requires
            old(ctx).wf(),
            old(ctx).top() + 1 <= LUAI_MAXSTACK,
        ensures
            final(ctx).wf(),
            final(ctx).frame() == old(ctx).frame(),
            final(ctx).ops() == old(ctx).ops().push(Instr::RefPush(self.spec_id())),
            final(ctx).top() == old(ctx).top() + 1,
            index == final(ctx).top(),
    {
        self.luaref.push_reference(ctx)
    }

    /// The first half of reading a field: queues the operations that push
    /// the table and then its field `field`, and gives the stack index at
    /// which the field will stand. Once the engine has reported that
    /// position, one of the `get_` functions takes the report and clears
    /// the two positions.
    pub fn fetch(&self, ctx: &mut LunarContext, field: &str) -> (r: Result<i32, LunarError>)
        requires
            old(ctx).wf(),
            old(ctx).top() + 2 <= LUAI_MAXSTACK,
        ensures
            final(ctx).wf(),
            final(ctx).frame() == old(ctx).frame(),
            match r {
                Ok(index) => {
                    &&& !has_terminator(c_bytes(field@))
                    &&& final(ctx).ops() == old(ctx).ops() + fetch_instrs(
                        self.spec_id(),
                        field@,
                        old(ctx).top(),
                    )
                    &&& final(ctx).top() == old(ctx).top() + 2
                    &&& index == final(ctx).top()
                },
                Err(e) => {
                    &&& has_terminator(c_bytes(field@))
                    &&& e == LunarError::Conversion
                    &&& final(ctx).ops() == old(ctx).ops()
                    &&& final(ctx).top() == old(ctx).top()
                },
            },
    {
        let ghost before = ctx.ops();
        let ghost top = ctx.top();
        proof {
            ctx.lemma_depth_bounds();
        }
        let bytes = to_const_char(field)?;
        let index = self.luaref.push_reference(ctx);
        ctx.emit(Op::GetField(index, bytes), 1);
        assert(ctx.ops() =~= before + fetch_instrs(self.spec_id(), field@, top));
        Ok(ctx.stack_size())
    }

    /// Queues the removal of the two positions that [`Table::fetch`] or
    /// [`Table::find`] filled.
    fn clear(ctx: &mut LunarContext)
        requires
            old(ctx).wf(),
            old(ctx).top() >= 2,
        ensures
            final(ctx).wf(),
            final(ctx).frame() == old(ctx).frame(),
            final(ctx).ops() == old(ctx).ops().push(Instr::SetTop(-3i32)),
            final(ctx).top() == old(ctx).top() - 2,
    {
        ctx.emit(Op::SetTop(-3), -2);
    }

    /// The second half of reading a boolean field: decodes the report
    /// `found` of the fetched field, and clears the stack.
    pub fn get_boolean(&self, ctx: &mut LunarContext, found: &Slot) -> (r: Result<bool, LunarError>)
        requires
            old(ctx).wf(),
            old(ctx).top() >= 2,
        ensures
            final(ctx).wf(),
            final(ctx).frame() == old(ctx).frame(),
            final(ctx).ops() == old(ctx).ops().push(Instr::SetTop(-3i32)),
            final(ctx).top() == old(ctx).top() - 2,
            r == boolean_of(*found),
    {
        Self::clear(ctx);
        found.to_boolean()
    }

    /// The second half of reading a signed integer field of the width `T`.
    pub fn get_int<T: Type + TryFrom<i64>>(&self, ctx: &mut LunarContext, found: &Slot) -> (r:
        Result<T, LunarError>)
        requires
            old(ctx).wf(),
            old(ctx).top() >= 2,
        ensures
            final(ctx).wf(),
            final(ctx).frame() == old(ctx).frame(),
            final(ctx).ops() == old(ctx).ops().push(Instr::SetTop(-3i32)),
            final(ctx).top() == old(ctx).top() - 2,
            T::obeys_try_from_spec() ==> r == integer_of::<T>(*found, "int"),
    {
        Self::clear(ctx);
        found.to_integer::<T>("int")
    }

    /// The second half of reading a floating-point field, by its bits.
    pub fn get_float(&self, ctx: &mut LunarContext, found: &Slot) -> (r: Result<u64, LunarError>)
        requires
            old(ctx).wf(),
            old(ctx).top() >= 2,
        ensures
            final(ctx).wf(),
            final(ctx).frame() == old(ctx).frame(),
            final(ctx).ops() == old(ctx).ops().push(Instr::SetTop(-3i32)),
            final(ctx).top() == old(ctx).top() - 2,
            r == float_of(*found),
    {
        Self::clear(ctx);
        found.to_float()
    }

    /// The second half of reading an unsigned integer field.
    pub fn get_uint(&self, ctx: &mut LunarContext, found: &Slot) -> (r: Result<u32, LunarError>)
        requires
            old(ctx).wf(),
            old(ctx).top() >= 2,
        ensures
            final(ctx).wf(),
            final(ctx).frame() == old(ctx).frame(),
            final(ctx).ops() == old(ctx).ops().push(Instr::SetTop(-3i32)),
            final(ctx).top() == old(ctx).top() - 2,
            r == integer_of::<u32>(*found, "uint"),
    {
        Self::clear(ctx);
        found.to_integer::<u32>("uint")
    }

    /// The second half of reading an integer field of the engine's own
    /// width.
    pub fn get_long(&self, ctx: &mut LunarContext, found: &Slot) -> (r: Result<i64, LunarError>)
        requires
            old(ctx).wf(),
            old(ctx).top() >= 2,
        ensures
            final(ctx).wf(),
            final(ctx).frame() == old(ctx).frame(),
            final(ctx).ops() == old(ctx).ops().push(Instr::SetTop(-3i32)),
            final(ctx).top() == old(ctx).top() - 2,
            r == long_of(*found),
    {
        Self::clear(ctx);
        found.to_long()
    }

    /// The second half of reading a text field.
    pub fn get_string(&self, ctx: &mut LunarContext, found: &Slot) -> (r: Result<
        String,
        LunarError,
    >)
        requires
            old(ctx).wf(),
            old(ctx).top() >= 2,
        ensures
            final(ctx).wf(),
            final(ctx).frame() == old(ctx).frame(),
            final(ctx).ops() == old(ctx).ops().push(Instr::SetTop(-3i32)),
            final(ctx).top() == old(ctx).top() - 2,
            match r {
                Ok(text) => text_of(*found) == Ok::<Seq<char>, LunarError>(text@),
                Err(e) => text_of(*found) == Err::<Seq<char>, LunarError>(e),
            },
    {
        Self::clear(ctx);
        found.to_text()
    }

    /// The first half of reopening a published table by its name: queues
    /// the operations that push the global `name` and then its `__ref`
    /// field, and gives the stack index at which that field will stand.
    /// Once the engine has reported that position, [`Table::from`] takes
    /// the report.
    pub fn find(ctx: &mut LunarContext, name: &str) -> (r: Result<i32, LunarError>)
        requires
            old(ctx).wf(),
            old(ctx).top() + 2 <= LUAI_MAXSTACK,
        ensures
            final(ctx).wf(),
            final(ctx).frame() == old(ctx).frame(),
            match r {
                Ok(index) => {
                    &&& !has_terminator(c_bytes(name@))
                    &&& final(ctx).ops() == old(ctx).ops() + find_instrs(name@, old(ctx).top())
                    &&& final(ctx).top() == old(ctx).top() + 2
                    &&& index == final(ctx).top()
                },
                Err(e) => {
                    &&& has_terminator(c_bytes(name@))
                    &&& e == LunarError::Conversion
                    &&& final(ctx).ops() == old(ctx).ops()
                    &&& final(ctx).top() == old(ctx).top()
                },
            },
    {
        let ghost before = ctx.ops();
        let ghost top = ctx.top();
        proof {
            ctx.lemma_depth_bounds();
            reveal_strlit("__ref");
        }
        let bytes = to_const_char(name)?;
        ctx.emit(Op::GetGlobal(bytes), 1);
        let table = ctx.stack_size();
        ctx.emit(Op::GetField(table, field_bytes("__ref")), 1);
        assert(ctx.ops() =~= before + find_instrs(name@, top));
        Ok(ctx.stack_size())
    }

    /// The second half of reopening a published table: takes the report
    /// `found` of the global's `__ref` field, clears the stack, and gives
    /// the handle for the slot number that the field holds. A global that
    /// carries no slot number is no published table, and is refused.
    pub fn from(ctx: &mut LunarContext, found: &Slot) -> (r: Result<Table, LunarError>)
        requires
            old(ctx).wf(),
            old(ctx).top() >= 2,
        ensures
            final(ctx).wf(),
            final(ctx).frame() == old(ctx).frame(),
            final(ctx).ops() == old(ctx).ops().push(Instr::SetTop(-3i32)),
            final(ctx).top() == old(ctx).top() - 2,
            match r {
                Ok(table) => integer_of::<i32>(*found, "int") == Ok::<i32, LunarError>(
                    table.spec_id(),
                ),
                Err(e) => integer_of::<i32>(*found, "int") == Err::<i32, LunarError>(e),
            },
    {
        Self::clear(ctx);
        let id = found.to_integer::<i32>("int")?;
        Ok(Table { luaref: LuaRef::from(id) })
    }

    /// Queues the release of the table's registry slot. From then on the
    /// slot holds nothing, for this handle and for every copy of it; the
    /// table itself lives on for as long as the engine has another way to
    /// reach it.
    pub fn release(self, ctx: &mut LunarContext)
        requires
            old(ctx).wf(),
        ensures
            final(ctx).wf(),
            final(ctx).frame() == old(ctx).frame(),
            final(ctx).ops() == old(ctx).ops().push(Instr::Unref(self.spec_id())),
            final(ctx).top() == old(ctx).top(),
    {
        self.luaref.release(ctx);
    }
}

} // verus!
