//! The host-facing surface: one engine instance with the bridge over its
//! main stack, and the steps by which a host-defined class comes to be.

use vstd::prelude::*;
use crate::context::{
    all_cross, crosses, push_all_instrs, push_instrs, push_room, value_crosses, values_cross,
    Function, LunarContext, Value,
};
use crate::lua::{
    c_bytes, error_text, field_bytes, has_terminator, to_const_char, Instr, LunarError, Op, Slot,
    LUAI_MAXSTACK,
};
use crate::metatable::{MetaMethod, MetaTable};
use crate::state::State;
use crate::table::{bind_instrs, create_instrs, set_instrs, set_metatable_instrs, Table};

verus! {

/// The operations that call the global published under `name` with `args`,
/// asking for `nresult` results, on a stack of `top` values.
pub open spec fn call_global_instrs(name: Seq<char>, args: Seq<Value>, nresult: i32, top: int) -> Seq<
    Instr,
> {
    seq![Instr::GetGlobal(c_bytes(name))] + push_all_instrs(args, top + 1) + seq![
        Instr::ProtectedCall(args.len() as i32, nresult),
    ]
}

/// The operations that seal a class on a stack of `top` values: the trap
/// against assignment goes into the method table, the class table gets
/// the method table as its `__index` field and as its metatable.
pub open spec fn seal_instrs(class: i32, methods: i32, trap: Function, top: int) -> Seq<Instr> {
    set_instrs(methods, MetaMethod::NewIndex.spec_name(), Value::Function(trap), top) + seq![
        Instr::RefPush(class),
        Instr::RefPush(methods),
        Instr::SetField((top + 1) as i32, c_bytes("__index"@)),
    ] + set_metatable_instrs(class, methods, top + 1) + seq![Instr::SetTop(-2i32)]
}

/// One engine instance and the bridge over its main stack.
pub struct Lunar {
    /// The engine handle.
    pub lua: State,
    /// The bridge over the main stack.
    pub ctx: LunarContext,
}

impl Lunar {
    /// The surface over the instance that the engine allocated at
    /// `handle`, with an empty stack and nothing queued.
    pub fn new(handle: usize) -> (lunar: Lunar)
        requires
            handle != 0,
        ensures
            lunar.lua.handle() == handle,
            lunar.ctx.wf(),
            lunar.ctx.frame() == Seq::<Slot>::empty(),
            lunar.ctx.ops() == Seq::<Instr>::empty(),
            lunar.ctx.top() == 0,
    {
        Lunar { lua: State::new(handle), ctx: LunarContext::new(Vec::new()) }
    }

    /// Closes the instance: gives the address to release, the first time,
    /// and nothing on every later call.
    pub fn close(&mut self) -> (release: Option<usize>)
        ensures
            final(self).lua.is_closed(),
            final(self).ctx == old(self).ctx,
            release == (if old(self).lua.is_closed() {
                None
            } else {
                Some(old(self).lua.handle())
            }),
    {
        self.lua.destroy()
    }

    /// Queues the loading of the engine's standard library.
    pub fn load_std_library(&mut self)
        requires
            old(self).ctx.wf(),
        ensures
            final(self).ctx.wf(),
            final(self).lua == old(self).lua,
            final(self).ctx.frame() == old(self).ctx.frame(),
            final(self).ctx.ops() == old(self).ctx.ops().push(Instr::OpenLibs),
            final(self).ctx.top() == old(self).ctx.top(),
    {
        self.ctx.emit(Op::OpenLibs, 0);
    }

    /// Queues the compilation of `script`; the engine leaves the chunk, or
    /// the error value of a script that does not compile, on the stack.
    /// Text that cannot cross is refused with nothing queued.
    pub fn load(&mut self, script: &str) -> (r: Result<(), LunarError>)
        requires
            old(self).ctx.wf(),
            old(self).ctx.top() + 1 <= LUAI_MAXSTACK,
        ensures
            final(self).ctx.wf(),
            final(self).lua == old(self).lua,
            final(self).ctx.frame() == old(self).ctx.frame(),
            match r {
                Ok(()) => {
                    &&& !has_terminator(c_bytes(script@))
                    &&& final(self).ctx.ops() == old(self).ctx.ops().push(
                        Instr::LoadString(c_bytes(script@)),
                    )
                    &&& final(self).ctx.top() == old(self).ctx.top() + 1
                },
                Err(e) => {
                    &&& has_terminator(c_bytes(script@))
                    &&& e == LunarError::Conversion
                    &&& final(self).ctx.ops() == old(self).ctx.ops()
                    &&& final(self).ctx.top() == old(self).ctx.top()
                },
            },
    {
        let bytes = to_const_char(script)?;
        self.ctx.emit(Op::LoadString(bytes), 1);
        Ok(())
    }

    /// As [`Lunar::load`].
    pub fn load_str(&mut self, string: &str) -> (r: Result<(), LunarError>)
        requires
            old(self).ctx.wf(),
            old(self).ctx.top() + 1 <= LUAI_MAXSTACK,
        ensures
            final(self).ctx.wf(),
            final(self).lua == old(self).lua,
            final(self).ctx.frame() == old(self).ctx.frame(),
            match r {
                Ok(()) => {
                    &&& !has_terminator(c_bytes(string@))
                    &&& final(self).ctx.ops() == old(self).ctx.ops().push(
                        Instr::LoadString(c_bytes(string@)),
                    )
                    &&& final(self).ctx.top() == old(self).ctx.top() + 1
                },
                Err(e) => {
                    &&& has_terminator(c_bytes(string@))
                    &&& e == LunarError::Conversion
                    &&& final(self).ctx.ops() == old(self).ctx.ops()
                    &&& final(self).ctx.top() == old(self).ctx.top()
                },
            },
    {
        self.load(string)
    }

    /// As [`Lunar::load`], for owned text.
    pub fn load_string(&mut self, string: String) -> (r: Result<(), LunarError>)
        requires
            old(self).ctx.wf(),
            old(self).ctx.top() + 1 <= LUAI_MAXSTACK,
        ensures
            final(self).ctx.wf(),
            final(self).lua == old(self).lua,
            final(self).ctx.frame() == old(self).ctx.frame(),
            match r {
                Ok(()) => {
                    &&& !has_terminator(c_bytes(string@))
                    &&& final(self).ctx.ops() == old(self).ctx.ops().push(
                        Instr::LoadString(c_bytes(string@)),
                    )
                    &&& final(self).ctx.top() == old(self).ctx.top() + 1
                },
                Err(e) => {
                    &&& has_terminator(c_bytes(string@))
                    &&& e == LunarError::Conversion
                    &&& final(self).ctx.ops() == old(self).ctx.ops()
                    &&& final(self).ctx.top() == old(self).ctx.top()
                },
            },
    {
        self.load(string.as_str())
    }

    /// Queues the protected call of the chunk on top of the stack, with no
    /// arguments and no results. [`Lunar::exec_returned`] takes the
    /// engine's answer.
    pub fn exec(&mut self)
        requires
            old(self).ctx.wf(),
            old(self).ctx.top() >= 1,
        ensures
            final(self).ctx.wf(),
            final(self).lua == old(self).lua,
            final(self).ctx.frame() == old(self).ctx.frame(),
            final(self).ctx.ops() == old(self).ctx.ops().push(Instr::ProtectedCall(0, 0)),
            final(self).ctx.top() == old(self).ctx.top() - 1,
    {
        self.ctx.emit(Op::ProtectedCall(0, 0), -1);
    }

    /// Takes the engine's answer to [`Lunar::exec`]: the status that the
    /// protected call returned, and the engine's report of the top of the
    /// stack. A run that failed left its error value there; its removal
    /// is queued, so that the stack is as deep as before the chunk was
    /// loaded, and the failure comes back with its description.
    pub fn exec_returned(&mut self, status: i32, message: &Slot) -> (r: Result<(), String>)
        requires
            old(self).ctx.wf(),
        ensures
            final(self).ctx.wf(),
            final(self).lua == old(self).lua,
            final(self).ctx.frame() == old(self).ctx.frame(),
            final(self).ctx.top() == old(self).ctx.top(),
            match r {
                Ok(()) => status == 0 && final(self).ctx.ops() == old(self).ctx.ops(),
                Err(text) => {
                    &&& status != 0
                    &&& text@ == error_text(*message)
                    &&& text@.len() > 0
                    &&& final(self).ctx.ops() == old(self).ctx.ops().push(Instr::SetTop(-2i32))
                },
            },
    {
        proof {
            self.ctx.lemma_depth_bounds();
            crate::lua::lemma_error_text_not_empty(*message);
        }
        self.ctx.call_returned(status, message, 0)
    }

    /// Queues the operations that bind `value` under the global name
    /// `name`. A name or a value that cannot cross is refused with nothing
    /// queued.
    pub fn create_global_value(&mut self, name: &str, value: Value) -> (r: Result<(), LunarError>)
        requires
            old(self).ctx.wf(),
            old(self).ctx.top() + push_room(value) <= LUAI_MAXSTACK,
        ensures
            final(self).ctx.wf(),
            final(self).lua == old(self).lua,
            final(self).ctx.frame() == old(self).ctx.frame(),
            final(self).ctx.top() == old(self).ctx.top(),
            match r {
                Ok(()) => {
                    &&& !has_terminator(c_bytes(name@))
                    &&& crosses(value)
                    &&& final(self).ctx.ops() == old(self).ctx.ops() + push_instrs(
                        value,
                        old(self).ctx.top(),
                    ).push(Instr::SetGlobal(c_bytes(name@)))
                },
                Err(e) => {
                    &&& has_terminator(c_bytes(name@)) || !crosses(value)
                    &&& e == LunarError::Conversion
                    &&& final(self).ctx.ops() == old(self).ctx.ops()
                },
            },
    {
        let ghost before = self.ctx.ops();
        let ghost top = self.ctx.top();
        proof {
            self.ctx.lemma_depth_bounds();
        }
        let bytes = to_const_char(name)?;
        if !value_crosses(&value) {
            return Err(LunarError::Conversion);
        }
        let pushed = self.ctx.push(value);
        assert(pushed is Ok);
        self.ctx.emit(Op::SetGlobal(bytes), -1);
        assert(self.ctx.ops() =~= before + push_instrs(value, top).push(
            Instr::SetGlobal(c_bytes(name@)),
        ));
        Ok(())
    }

    /// Queues the operations that bind the host callback `function` under
    /// the global name `name`.
    pub fn create_static_function(&mut self, name: &str, function: Function) -> (r: Result<
        (),
        LunarError,
    >)
        requires
            old(self).ctx.wf(),
            old(self).ctx.top() + 1 <= LUAI_MAXSTACK,
        ensures
            final(self).ctx.wf(),
            final(self).lua == old(self).lua,
            final(self).ctx.frame() == old(self).ctx.frame(),
            final(self).ctx.top() == old(self).ctx.top(),
            match r {
                Ok(()) => {
                    &&& !has_terminator(c_bytes(name@))
                    &&& final(self).ctx.ops() == old(self).ctx.ops() + seq![
                        Instr::PushFunction(function),
                        Instr::SetGlobal(c_bytes(name@)),
                    ]
                },
                Err(e) => {
                    &&& has_terminator(c_bytes(name@))
                    &&& e == LunarError::Conversion
                    &&& final(self).ctx.ops() == old(self).ctx.ops()
                },
            },
    {
        let ghost before = self.ctx.ops();
        proof {
            self.ctx.lemma_depth_bounds();
        }
        let bytes = to_const_char(name)?;
        self.ctx.emit(Op::PushFunction(function), 1);
        self.ctx.emit(Op::SetGlobal(bytes), -1);
        assert(self.ctx.ops() =~= before + seq![
            Instr::PushFunction(function),
            Instr::SetGlobal(c_bytes(name@)),
        ]);
        Ok(())
    }

    /// The first half of building a table: as [`Table::new`], on the main
    /// stack. [`Lunar::table_created`] takes the engine's answer.
    pub fn create_table(&mut self, name: &str, global: bool) -> (r: Result<(), LunarError>)
        requires
            old(self).ctx.wf(),
            old(self).ctx.top() + 2 <= LUAI_MAXSTACK,
        ensures
            final(self).ctx.wf(),
            final(self).lua == old(self).lua,
            final(self).ctx.frame() == old(self).ctx.frame(),
            final(self).ctx.top() == old(self).ctx.top(),
            match r {
                Ok(()) => {
                    &&& !has_terminator(c_bytes(name@))
                    &&& final(self).ctx.ops() == old(self).ctx.ops() + create_instrs(
                        name@,
                        global,
                        old(self).ctx.top(),
                    )
                },
                Err(e) => {
                    &&& has_terminator(c_bytes(name@))
                    &&& e == LunarError::Conversion
                    &&& final(self).ctx.ops() == old(self).ctx.ops()
                },
            },
    {
        Table::new(&mut self.ctx, name, global)
    }

    /// The second half of building a table: as [`Table::bind`], on the
    /// main stack. The handle is the caller's to fill.
    pub fn table_created(&mut self, id: i32) -> (table: Table)
        requires
            old(self).ctx.wf(),
            old(self).ctx.top() + 2 <= LUAI_MAXSTACK,
        ensures
            final(self).ctx.wf(),
            final(self).lua == old(self).lua,
            final(self).ctx.frame() == old(self).ctx.frame(),
            final(self).ctx.top() == old(self).ctx.top(),
            final(self).ctx.ops() == old(self).ctx.ops() + bind_instrs(id, old(self).ctx.top()),
            table.spec_id() == id,
    {
        Table::bind(&mut self.ctx, id)
    }

    /// Queues the operations that look the global `name` up and call it
    /// with `args` under the engine's protection, asking for `nresult`
    /// results. The depth afterwards is that of a call that succeeds;
    /// [`LunarContext::call_returned`] takes the engine's answer. A name
    /// or an argument that cannot cross is refused with nothing queued.
    pub fn call_global_function(&mut self, name: &str, args: Vec<Value>, nresult: i32) -> (r:
        Result<(), LunarError>)
        requires
            old(self).ctx.wf(),
            0 <= nresult,
            old(self).ctx.top() + args@.len() + 2 <= LUAI_MAXSTACK,
            old(self).ctx.top() + nresult <= LUAI_MAXSTACK,
        ensures
            final(self).ctx.wf(),
            final(self).lua == old(self).lua,
            final(self).ctx.frame() == old(self).ctx.frame(),
            match r {
                Ok(()) => {
                    &&& !has_terminator(c_bytes(name@))
                    &&& all_cross(args@)
                    &&& final(self).ctx.ops() == old(self).ctx.ops() + call_global_instrs(
                        name@,
                        args@,
                        nresult,
                        old(self).ctx.top(),
                    )
                    &&& final(self).ctx.top() == old(self).ctx.top() + nresult
                },
                Err(e) => {
                    &&& has_terminator(c_bytes(name@)) || !all_cross(args@)
                    &&& e == LunarError::Conversion
                    &&& final(self).ctx.ops() == old(self).ctx.ops()
                    &&& final(self).ctx.top() == old(self).ctx.top()
                },
            },
    {
        let ghost before = self.ctx.ops();
        let ghost top = self.ctx.top();
        proof {
            self.ctx.lemma_depth_bounds();
        }
        let bytes = to_const_char(name)?;
        if !values_cross(&args) {
            return Err(LunarError::Conversion);
        }
        let count = args.len();
        self.ctx.emit(Op::GetGlobal(bytes), 1);
        self.ctx.push_all(&args);
        self.ctx.emit(Op::ProtectedCall(count as i32, nresult), nresult - (count as i32 + 1));
        assert(self.ctx.ops() =~= before + call_global_instrs(name@, args@, nresult, top));
        Ok(())
    }

    /// The first step of defining the class `name`: queues the creation of
    /// its class table, published as a global. The engine answers with a
    /// slot number, which [`UnboundClass::table_created`] takes.
    pub fn register_userdata(&mut self, name: &str) -> (r: Result<UnboundClass, LunarError>)
        requires
            old(self).ctx.wf(),
            old(self).ctx.top() + 2 <= LUAI_MAXSTACK,
        ensures
            final(self).ctx.wf(),
            final(self).lua == old(self).lua,
            final(self).ctx.frame() == old(self).ctx.frame(),
            final(self).ctx.top() == old(self).ctx.top(),
            match r {
                Ok(class) => {
                    &&& !has_terminator(c_bytes(name@))
                    &&& class.name() == name@
                    &&& final(self).ctx.ops() == old(self).ctx.ops() + create_instrs(
                        name@,
                        true,
                        old(self).ctx.top(),
                    )
                },
                Err(e) => {
                    &&& has_terminator(c_bytes(name@))
                    &&& e == LunarError::Conversion
                    &&& final(self).ctx.ops() == old(self).ctx.ops()
                },
            },
    {
        Table::new(&mut self.ctx, name, true)?;
        Ok(UnboundClass { name: name.to_owned() })
    }
}

/// A class whose name is chosen and whose class table has been asked for.
pub struct UnboundClass {
    name: String,
}

/// A class whose class table exists, empty and visible as a global, and
/// whose method table has been asked for.
pub struct CreatedClass {
    class: Table,
}

/// A class whose two tables exist and whose methods are being installed.
pub struct OpenClass {
    class: Table,
    methods: MetaTable,
}

/// A class that is complete: the trap against assignment is in place, and
/// the method table is attached. Nothing leads out of this state.
pub struct SealedClass {
    class: Table,
    methods: MetaTable,
}

impl UnboundClass {
    #[verifier::type_invariant]
    spec fn named(self) -> bool {
        !has_terminator(c_bytes(self.name@))
    }

    /// The name of the class.
    pub closed spec fn name(&self) -> Seq<char> {
        self.name@
    }

    /// Takes the slot number `id` of the class table, binds the table, and
    /// queues the creation of the method table, which carries the name of
    /// the class and is no global. The engine answers with a second slot
    /// number, which [`CreatedClass::methods_created`] takes.
    pub fn table_created(self, ctx: &mut LunarContext, id: i32) -> (class: CreatedClass)
        requires
            old(ctx).wf(),
            old(ctx).top() + 2 <= LUAI_MAXSTACK,
        ensures
            final(ctx).wf(),
            final(ctx).frame() == old(ctx).frame(),
            final(ctx).top() == old(ctx).top(),
            final(ctx).ops() == old(ctx).ops() + bind_instrs(id, old(ctx).top()) + create_instrs(
                self.name(),
                false,
                old(ctx).top(),
            ),
            class.class_id() == id,
    {
        proof {
            use_type_invariant(&self);
        }
        let class = Table::bind(ctx, id);
        let created = MetaTable::new(ctx, self.name.as_str());
        assert(created is Ok);
        CreatedClass { class }
    }
}

impl CreatedClass {
    /// The registry slot number of the class table.
    pub closed spec fn class_id(&self) -> i32 {
        self.class.spec_id()
    }

    /// Takes the slot number `id` of the method table and binds it. From
    /// here on methods can be installed.
    pub fn methods_created(self, ctx: &mut LunarContext, id: i32) -> (class: OpenClass)
        requires
            old(ctx).wf(),
            old(ctx).top() + 2 <= LUAI_MAXSTACK,
        ensures
            final(ctx).wf(),
            final(ctx).frame() == old(ctx).frame(),
            final(ctx).top() == old(ctx).top(),
            final(ctx).ops() == old(ctx).ops() + bind_instrs(id, old(ctx).top()),
            class.class_id() == self.class_id(),
            class.methods_id() == id,
    {
        let methods = MetaTable::bind(ctx, id);
        OpenClass { class: self.class, methods }
    }
}

impl OpenClass {
    /// The registry slot number of the class table.
    pub closed spec fn class_id(&self) -> i32 {
        self.class.spec_id()
    }

    /// The registry slot number of the method table.
    pub closed spec fn methods_id(&self) -> i32 {
        self.methods.spec_id()
    }

    /// The method table, on which the constructor and the methods of the
    /// class are installed.
    pub fn methods(&self) -> (methods: &MetaTable)
        ensures
            methods.spec_id() == self.methods_id(),
    {
        &self.methods
    }

    /// Seals the class: queues the operations that install `trap` as the
    /// hook for assignment to a field, make the method table the
    /// `__index` field of the class table, and attach it to the class
    /// table as its metatable.
    pub fn seal(self, ctx: &mut LunarContext, trap: Function) -> (class: SealedClass)
        requires
            old(ctx).wf(),
            old(ctx).top() + 3 <= LUAI_MAXSTACK,
        ensures
            final(ctx).wf(),
            final(ctx).frame() == old(ctx).frame(),
            final(ctx).top() == old(ctx).top(),
            final(ctx).ops() == old(ctx).ops() + seal_instrs(
                self.class_id(),
                self.methods_id(),
                trap,
                old(ctx).top(),
            ),
            class.class_id() == self.class_id(),
            class.methods_id() == self.methods_id(),
    {
        let ghost before = ctx.ops();
        let ghost top = ctx.top();
        proof {
            ctx.lemma_depth_bounds();
            reveal_strlit("__index");
        }
        let trapped = self.methods.add_meta_method(ctx, MetaMethod::NewIndex, Value::Function(trap));
        assert(trapped is Ok);
        let index = self.class.push_table(ctx);
        self.methods.push_metatable(ctx);
        ctx.emit(Op::SetField(index, field_bytes("__index")), -1);
        self.class.set_metatable(ctx, &self.methods);
        ctx.pop_last();
        assert(ctx.ops() =~= before + seal_instrs(
            self.class_id(),
            self.methods_id(),
            trap,
            top,
        ));
        SealedClass { class: self.class, methods: self.methods }
    }
}

impl SealedClass {
    /// The registry slot number of the class table.
    pub closed spec fn class_id(&self) -> i32 {
        self.class.spec_id()
    }

    /// The registry slot number of the method table.
    pub closed spec fn methods_id(&self) -> i32 {
        self.methods.spec_id()
    }

    /// The class table.
    pub fn class(&self) -> (table: Table)
        ensures
            table.spec_id() == self.class_id(),
    {
        self.class
    }
}

} // verus!
