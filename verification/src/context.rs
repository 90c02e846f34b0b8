//! The stack bridge: host values on their way to the engine's stack, and
//! stack positions read back as host values.

use vstd::prelude::*;
use vstd::std_specs::convert::TryFromSpec;
use crate::lua::{
    boolean_of, c_bytes, checked_userdata_of, error_text, float_of, has_terminator, instrs,
    integer_of, light_userdata_of, long_of, lua_pop, name_of, names_type, pcall, text_of,
    to_const_char,
    userdata_of, Instr, LunarError, Op, Slot, LUAI_MAXSTACK,
};
use crate::metatable::MetaTable;
use crate::table::{set_metatable_instrs, Table};
use crate::types::{lua_type_of_tag, LuaType, Type};

verus! {

/// A host value boxed for the engine: the value on the heap, owned by the
/// box until it is taken out, and its size in bytes.
pub struct Userdata<T> {
    value: Box<T>,
    size: usize,
}

impl<T> Userdata<T> {
    /// The boxed value.
    pub closed spec fn value(&self) -> T {
        *self.value
    }

    /// The size of the boxed value in bytes.
    pub closed spec fn spec_size(&self) -> usize {
        self.size
    }

    /// Moves `value` to the heap and notes its size.
    pub fn new(value: T) -> (data: Userdata<T>)
        ensures
            data.value() == value,
            data.spec_size() as nat == vstd::layout::size_of::<T>(),
    {
        let data = Box::new(value);
        let size = core::mem::size_of::<T>();
        Userdata { value: data, size }
    }

    /// The boxed value, which stays in the box.
    pub fn get(&self) -> (value: &T)
        ensures
            *value == self.value(),
    {
        &*self.value
    }

    /// Takes the value out of the box, which is used up: the allocation
    /// has one owner at any time.
    pub fn as_box(self) -> (value: Box<T>)
        ensures
            *value == self.value(),
    {
        self.value
    }

    /// The size of the boxed value in bytes.
    #[verifier::when_used_as_spec(spec_size)]
    pub fn size(&self) -> (size: usize)
        ensures
            size == self.spec_size(),
    {
        self.size
    }
}

/// A host callback, known by the number under which the program keeps it.
pub type Function = usize;

/// A host value that can be handed to the engine.
#[derive(Debug, Clone, PartialEq, Eq)]
pub enum Value {
    Nil,
    Bool(bool),
    Function(Function),
    Int(i32),
    Uint(u32),
    Long(i64),
    /// A floating-point number, by its bits.
    Float(u64),
    String(String),
    /// A boxed host value for an engine-owned cell: the name of its type
    /// (empty for none), the handle that stands for it, and its size in
    /// bytes.
    Userdata(&'static str, u64, usize),
    /// A raw address, with the name of its type (empty for none).
    LightUserdata(&'static str, usize),
    Table(Table),
}

/// Whether `value` can cross to the engine: its text, or the name of its
/// type, must be free of the terminator byte.
pub open spec fn crosses(value: Value) -> bool {
    match value {
        Value::String(s) => !has_terminator(c_bytes(s@)),
        Value::Userdata(name, _, _) => !has_terminator(c_bytes(name@)),
        Value::LightUserdata(name, _) => !has_terminator(c_bytes(name@)),
        _ => true,
    }
}

/// The number of stack positions that pushing `value` takes at its peak.
pub open spec fn push_room(value: Value) -> int {
    match value {
        Value::Userdata(name, _, _) => if name@.len() == 0 { 1 } else { 2 },
        Value::LightUserdata(name, _) => if name@.len() == 0 { 1 } else { 2 },
        _ => 1,
    }
}

/// The operations that attach the type descriptor published under `name` to
/// the value at stack index `index`, which is the top of the stack.
pub open spec fn attach_instrs(name: Seq<char>, index: int) -> Seq<Instr> {
    if name.len() == 0 {
        seq![]
    } else {
        seq![Instr::GetGlobal(c_bytes(name)), Instr::SetMetatable(index as i32)]
    }
}

/// The operations that push `value` onto a stack that holds `top` values.
pub open spec fn push_instrs(value: Value, top: int) -> Seq<Instr> {
    match value {
        Value::Nil => seq![Instr::PushNil],
        Value::Bool(b) => seq![Instr::PushBoolean(b)],
        Value::Function(f) => seq![Instr::PushFunction(f)],
        Value::Int(i) => seq![Instr::PushInteger(i as i64)],
        Value::Uint(u) => seq![Instr::PushInteger(u as i64)],
        Value::Long(i) => seq![Instr::PushInteger(i)],
        Value::Float(bits) => seq![Instr::PushNumber(bits)],
        Value::String(s) => seq![Instr::PushString(c_bytes(s@))],
        Value::Userdata(name, handle, size) => seq![Instr::NewUserdata(handle, size)]
            + attach_instrs(name@, top + 1),
        Value::LightUserdata(name, address) => seq![Instr::PushLightUserdata(address)]
            + attach_instrs(name@, top + 1),
        Value::Table(table) => seq![Instr::RefPush(table.spec_id())],
    }
}

/// The operations that push the values of `args`, first to last, onto a
/// stack that holds `top` values.
pub open spec fn push_all_instrs(args: Seq<Value>, top: int) -> Seq<Instr>
    decreases args.len(),
{
    if args.len() == 0 {
        seq![]
    } else {
        push_all_instrs(args.drop_last(), top) + push_instrs(
            args.last(),
            top + args.len() - 1,
        )
    }
}

/// Whether every value of `args` can cross to the engine.
pub open spec fn all_cross(args: Seq<Value>) -> bool {
    forall|i: int| 0 <= i < args.len() ==> crosses(#[trigger] args[i])
}

/// The operations that call the value at stack index `stack` with `args`,
/// asking for `nresult` results, on a stack that holds `top` values.
pub open spec fn call_instrs(stack: i32, args: Seq<Value>, nresult: i32, top: int) -> Seq<Instr> {
    seq![Instr::PushValue(stack)] + push_all_instrs(args, top + 1) + seq![
        Instr::ProtectedCall(args.len() as i32, nresult),
    ]
}

/// Whether every value of `args` can cross to the engine.
pub fn values_cross(args: &Vec<Value>) -> (r: bool)
    ensures
        r == all_cross(args@),
{
    let mut i: usize = 0;
    while i < args.len()
        invariant
            i <= args.len(),
            forall|j: int| 0 <= j < i ==> crosses(#[trigger] args@[j]),
        decreases args.len() - i,
    {
        if !value_crosses(&args[i]) {
            return false;
        }
        i += 1;
    }
    true
}

/// Whether `value` can cross to the engine.
pub fn value_crosses(value: &Value) -> (r: bool)
    ensures
        r == crosses(*value),
{
    match value {
        Value::String(s) => to_const_char(s.as_str()).is_ok(),
        Value::Userdata(name, _, _) => to_const_char(name).is_ok(),
        Value::LightUserdata(name, _) => to_const_char(name).is_ok(),
        _ => true,
    }
}

/// One more than the number of stack positions that a stack dump covers.
pub const STACK_MAX: i32 = 8;

/// One line of a stack dump.
#[derive(Debug, Clone, PartialEq, Eq)]
pub struct StackLine {
    /// The stack index.
    pub stack: i32,
    /// The category of the value at the index.
    pub typename: LuaType,
    /// The name of the value, for a table or a userdata cell that has one.
    pub name: Option<String>,
}

impl StackLine {
    /// Whether the line says of stack index `stack` what `slot` reports.
    pub open spec fn describes(&self, stack: int, slot: Slot) -> bool {
        &&& self.stack == stack
        &&& self.typename == lua_type_of_tag(slot.spec_type_tag())
        &&& match self.name {
            Some(text) => name_of(slot) == Some(text@),
            None => name_of(slot) is None,
        }
    }
}

/// What `frame` reports of stack index `arg`: positive indices count from
/// the bottom, negative ones from the top, and any other index holds
/// nothing.
pub open spec fn slot_at(frame: Seq<Slot>, arg: int) -> Slot {
    if 1 <= arg <= frame.len() {
        frame[arg - 1]
    } else if -frame.len() <= arg <= -1 {
        frame[frame.len() + arg]
    } else {
        Slot::Absent
    }
}

/// The bridge for one call: the stack as the engine reported it when the
/// call began, and the operations that the call has asked for since.
///
/// Reading goes to the report; writing is queued. The program performs the
/// queue, oldest first, when the call hands control back.
pub struct LunarContext {
    frame: Vec<Slot>,
    ops: Vec<Op>,
    top: i32,
}

impl LunarContext {
    /// What holds of every context that this library hands out: the stack
    /// is never deeper than the engine allows.
    pub closed spec fn wf(&self) -> bool {
        &&& 0 <= self.top <= LUAI_MAXSTACK
        &&& self.frame@.len() <= LUAI_MAXSTACK
    }

    /// The reported stack: position `i` of the engine at index `i - 1`.
    pub closed spec fn frame(&self) -> Seq<Slot> {
        self.frame@
    }

    /// The queued operations, oldest first.
    pub closed spec fn ops(&self) -> Seq<Instr> {
        instrs(self.ops@)
    }

    /// The number of values on the stack once the queue has been performed.
    pub closed spec fn top(&self) -> int {
        self.top as int
    }

    /// A well-formed context keeps its depth within the engine's limits.
    pub proof fn lemma_depth_bounds(&self)
        requires
            self.wf(),
        ensures
            0 <= self.top() <= LUAI_MAXSTACK,
    {
    }

    /// A bridge over the stack that the engine reported as `frame`, with
    /// nothing queued.
    pub fn new(frame: Vec<Slot>) -> (ctx: LunarContext)
        requires
            frame@.len() <= LUAI_MAXSTACK,
        ensures
            ctx.wf(),
            ctx.frame() == frame@,
            ctx.ops() == Seq::<Instr>::empty(),
            ctx.top() == frame@.len(),
    {
        let top = frame.len() as i32;
        LunarContext { frame, ops: Vec::new(), top }
    }

    /// Takes a new report of the engine's stack, as after the queue has
    /// been performed: reading goes to `frame` from now on, and the depth
    /// is the one that the engine reported.
    pub fn refresh(&mut self, frame: Vec<Slot>)
        requires
            old(self).wf(),
            frame@.len() <= LUAI_MAXSTACK,
        ensures
            final(self).wf(),
            final(self).frame() == frame@,
            final(self).ops() == old(self).ops(),
            final(self).top() == frame@.len(),
    {
        self.top = frame.len() as i32;
        self.frame = frame;
    }

    /// Queues `op`, which leaves the stack `delta` values taller.
    pub(crate) fn emit(&mut self, op: Op, delta: i32)
        requires
            old(self).wf(),
            0 <= old(self).top() + delta || delta >= 0,
            old(self).top() + delta <= LUAI_MAXSTACK || delta <= 0,
            -LUAI_MAXSTACK <= delta <= LUAI_MAXSTACK,
        ensures
            final(self).wf(),
            final(self).ops() == old(self).ops().push(op@),
            final(self).top() == old(self).top() + delta,
            final(self).frame() == old(self).frame(),
    {
        self.ops.push(op);
        self.top = self.top + delta;
        assert(instrs(self.ops@) =~= instrs(old(self).ops@).push(op@));
    }

    /// Queues the operations that attach the type descriptor published
    /// under `name` to the value on top of the stack.
    fn attach(&mut self, name: Vec<u8>, named: bool, Ghost(text): Ghost<Seq<char>>)
        requires
            old(self).wf(),
            name@ == c_bytes(text),
            named == (text.len() != 0),
            1 <= old(self).top(),
            named ==> old(self).top() + 1 <= LUAI_MAXSTACK,
        ensures
            final(self).wf(),
            final(self).ops() == old(self).ops() + attach_instrs(text, old(self).top()),
            final(self).top() == old(self).top(),
            final(self).frame() == old(self).frame(),
    {
        if named {
            let index = self.top;
            self.emit(Op::GetGlobal(name), 1);
            self.emit(Op::SetMetatable(index), -1);
            assert(self.ops() =~= old(self).ops() + attach_instrs(text, old(self).top()));
        } else {
            assert(self.ops() =~= old(self).ops() + attach_instrs(text, old(self).top()));
        }
    }

    /// Queues the operations that push `value`. Nothing is queued for a
    /// value that cannot cross.
    pub fn push(&mut self, value: Value) -> (r: Result<(), LunarError>)
        requires
            old(self).wf(),
            old(self).top() + push_room(value) <= LUAI_MAXSTACK,
        ensures
            final(self).wf(),
            final(self).frame() == old(self).frame(),
            match r {
                Ok(()) => {
                    &&& crosses(value)
                    &&& final(self).ops() == old(self).ops() + push_instrs(value, old(self).top())
                    &&& final(self).top() == old(self).top() + 1
                },
                Err(e) => {
                    &&& !crosses(value)
                    &&& e == LunarError::Conversion
                    &&& final(self).ops() == old(self).ops()
                    &&& final(self).top() == old(self).top()
                },
            },
    {
        self.push_value(&value)
    }

    /// Queues the operations that push `value`, which stays with the
    /// caller.
    fn push_value(&mut self, value: &Value) -> (r: Result<(), LunarError>)
        requires
            old(self).wf(),
            old(self).top() + push_room(*value) <= LUAI_MAXSTACK,
        ensures
            final(self).wf(),
            final(self).frame() == old(self).frame(),
            match r {
                Ok(()) => {
                    &&& crosses(*value)
                    &&& final(self).ops() == old(self).ops() + push_instrs(*value, old(self).top())
                    &&& final(self).top() == old(self).top() + 1
                },
                Err(e) => {
                    &&& !crosses(*value)
                    &&& e == LunarError::Conversion
                    &&& final(self).ops() == old(self).ops()
                    &&& final(self).top() == old(self).top()
                },
            },
    {
        let ghost before = self.ops();
        let ghost top = self.top();
        match value {
            Value::Nil => {
                self.emit(Op::PushNil, 1);
            },
            Value::Bool(b) => {
                self.emit(Op::PushBoolean(*b), 1);
            },
            Value::Function(f) => {
                self.emit(Op::PushFunction(*f), 1);
            },
            Value::Int(i) => {
                self.emit(Op::PushInteger(*i as i64), 1);
            },
            Value::Uint(u) => {
                self.emit(Op::PushInteger(*u as i64), 1);
            },
            Value::Long(i) => {
                self.emit(Op::PushInteger(*i), 1);
            },
            Value::Float(bits) => {
                self.emit(Op::PushNumber(*bits), 1);
            },
            Value::String(s) => {
                match to_const_char(s.as_str()) {
                    Ok(bytes) => {
                        self.emit(Op::PushString(bytes), 1);
                    },
                    Err(e) => {
                        return Err(e);
                    },
                }
            },
            Value::Userdata(name, handle, size) => {
                match to_const_char(name) {
                    Ok(bytes) => {
                        self.emit(Op::NewUserdata(*handle, *size), 1);
                        self.attach(bytes, !name.is_empty(), Ghost(name@));
                    },
                    Err(e) => {
                        return Err(e);
                    },
                }
            },
            Value::LightUserdata(name, address) => {
                match to_const_char(name) {
                    Ok(bytes) => {
                        self.emit(Op::PushLightUserdata(*address), 1);
                        self.attach(bytes, !name.is_empty(), Ghost(name@));
                    },
                    Err(e) => {
                        return Err(e);
                    },
                }
            },
            Value::Table(table) => {
                self.emit(Op::RefPush(table.id()), 1);
            },
        }
        assert(self.ops() =~= before + push_instrs(*value, top));
        Ok(())
    }

    /// Queues the push of `value` as the one result of a host callback, and
    /// gives the number of results to hand to the engine.
    pub fn return_value(&mut self, value: Value) -> (r: Result<i32, LunarError>)
        requires
            old(self).wf(),
            old(self).top() + push_room(value) <= LUAI_MAXSTACK,
        ensures
            final(self).wf(),
            final(self).frame() == old(self).frame(),
            match r {
                Ok(count) => {
                    &&& count == 1
                    &&& crosses(value)
                    &&& final(self).ops() == old(self).ops() + push_instrs(value, old(self).top())
                    &&& final(self).top() == old(self).top() + 1
                },
                Err(e) => {
                    &&& !crosses(value)
                    &&& e == LunarError::Conversion
                    &&& final(self).ops() == old(self).ops()
                    &&& final(self).top() == old(self).top()
                },
            },
    {
        match self.push(value) {
            Ok(()) => Ok(1),
            Err(e) => Err(e),
        }
    }

    /// The report of stack index `arg`, where there is one.
    fn slot(&self, arg: i32) -> (r: Option<&Slot>)
        requires
            self.wf(),
        ensures
            match r {
                Some(slot) => *slot == slot_at(self.frame(), arg as int),
                None => slot_at(self.frame(), arg as int) == Slot::Absent,
            },
    {
        let len = self.frame.len() as i32;
        if 1 <= arg && arg <= len {
            Some(&self.frame[(arg - 1) as usize])
        } else if -len <= arg && arg <= -1 {
            Some(&self.frame[(len + arg) as usize])
        } else {
            None
        }
    }

    /// The boolean at stack index `arg`.
    pub fn get_boolean(&self, arg: i32) -> (r: Result<bool, LunarError>)
        requires
            self.wf(),
        ensures
            r == boolean_of(slot_at(self.frame(), arg as int)),
    {
        match self.slot(arg) {
            Some(slot) => slot.to_boolean(),
            None => Err(LunarError::TypeMismatch("bool")),
        }
    }

    /// The signed integer at stack index `arg`, in the width `T`.
    pub fn get_int<T: Type + TryFrom<i64>>(&self, arg: i32) -> (r: Result<T, LunarError>)
        requires
            self.wf(),
        ensures
            T::obeys_try_from_spec() ==> r == integer_of::<T>(
                slot_at(self.frame(), arg as int),
                "int",
            ),
    {
        match self.slot(arg) {
            Some(slot) => slot.to_integer::<T>("int"),
            None => Err(LunarError::TypeMismatch("int")),
        }
    }

    /// The unsigned integer at stack index `arg`, in the width `T`.
    pub fn get_uint<T: Type + TryFrom<i64>>(&self, arg: i32) -> (r: Result<T, LunarError>)
        requires
            self.wf(),
        ensures
            T::obeys_try_from_spec() ==> r == integer_of::<T>(
                slot_at(self.frame(), arg as int),
                "uint",
            ),
    {
        match self.slot(arg) {
            Some(slot) => slot.to_integer::<T>("uint"),
            None => Err(LunarError::TypeMismatch("uint")),
        }
    }

    /// The bits of the floating-point number at stack index `arg`.
    pub fn get_float(&self, arg: i32) -> (r: Result<u64, LunarError>)
        requires
            self.wf(),
        ensures
            r == float_of(slot_at(self.frame(), arg as int)),
    {
        match self.slot(arg) {
            Some(slot) => slot.to_float(),
            None => Err(LunarError::TypeMismatch("float")),
        }
    }

    /// The integer at stack index `arg`, in the engine's own width.
    pub fn get_long(&self, arg: i32) -> (r: Result<i64, LunarError>)
        requires
            self.wf(),
        ensures
            r == long_of(slot_at(self.frame(), arg as int)),
    {
        match self.slot(arg) {
            Some(slot) => slot.to_long(),
            None => Err(LunarError::TypeMismatch("long")),
        }
    }

    /// The handle held by the userdata cell at stack index `arg`.
    pub fn get_userdata(&self, arg: i32) -> (r: Result<u64, LunarError>)
        requires
            self.wf(),
        ensures
            r == userdata_of(slot_at(self.frame(), arg as int)),
    {
        match self.slot(arg) {
            Some(slot) => slot.to_userdata(),
            None => Err(LunarError::TypeMismatch("userdata")),
        }
    }

    /// The raw address at stack index `arg`, unless it is null or the index
    /// holds something else.
    pub fn get_light_userdata(&self, arg: i32) -> (r: Option<usize>)
        requires
            self.wf(),
        ensures
            r == light_userdata_of(slot_at(self.frame(), arg as int)),
    {
        match self.slot(arg) {
            Some(slot) => slot.to_light_userdata(),
            None => None,
        }
    }

    /// The handle held by the userdata cell at stack index `arg`, after
    /// checking that the cell's type descriptor goes by the name `tname`.
    /// An index that holds anything else fails the check, and the failure
    /// names the type that was asked for.
    pub fn check_userdata(&self, arg: i32, tname: &str) -> (r: Result<u64, LunarError>)
        requires
            self.wf(),
        ensures
            match r {
                Ok(handle) => checked_userdata_of(
                    slot_at(self.frame(), arg as int),
                    c_bytes(tname@),
                ) == Some(handle),
                Err(e) => checked_userdata_of(slot_at(self.frame(), arg as int), c_bytes(tname@))
                    is None && names_type(e, tname@),
            },
    {
        match self.slot(arg) {
            Some(slot) => slot.to_checked_userdata(tname),
            None => Err(LunarError::UserdataMismatch(tname.to_owned())),
        }
    }

    /// The text at stack index `arg`.
    pub fn get_string(&self, arg: i32) -> (r: Result<String, LunarError>)
        requires
            self.wf(),
        ensures
            match r {
                Ok(text) => text_of(slot_at(self.frame(), arg as int)) == Ok::<
                    Seq<char>,
                    LunarError,
                >(text@),
                Err(e) => text_of(slot_at(self.frame(), arg as int)) == Err::<
                    Seq<char>,
                    LunarError,
                >(e),
            },
    {
        match self.slot(arg) {
            Some(slot) => slot.to_text(),
            None => Err(LunarError::TypeMismatch("string")),
        }
    }

    /// The category of the value at stack index `arg`.
    pub fn get_type(&self, arg: i32) -> (t: LuaType)
        requires
            self.wf(),
        ensures
            t == lua_type_of_tag(slot_at(self.frame(), arg as int).spec_type_tag()),
    {
        match self.slot(arg) {
            Some(slot) => LuaType::from(slot.type_tag()),
            None => LuaType::Undefined,
        }
    }

    /// The number of values on the stack once the queue has been
    /// performed.
    pub fn stack_size(&self) -> (size: i32)
        requires
            self.wf(),
        ensures
            size == self.top(),
            0 <= size <= LUAI_MAXSTACK,
    {
        self.top
    }

    /// Hands out the queued operations, oldest first, and leaves the queue
    /// empty.
    pub fn take_ops(&mut self) -> (ops: Vec<Op>)
        requires
            old(self).wf(),
        ensures
            final(self).wf(),
            instrs(ops@) == old(self).ops(),
            final(self).ops() == Seq::<Instr>::empty(),
            final(self).top() == old(self).top(),
            final(self).frame() == old(self).frame(),
    {
        let mut ops = Vec::new();
        core::mem::swap(&mut ops, &mut self.ops);
        ops
    }

    /// Queues the push of the global published under `name`.
    pub fn get_global(&mut self, name: &str) -> (r: Result<(), LunarError>)
        requires
            old(self).wf(),
            old(self).top() + 1 <= LUAI_MAXSTACK,
        ensures
            final(self).wf(),
            final(self).frame() == old(self).frame(),
            match r {
                Ok(()) => {
                    &&& !has_terminator(c_bytes(name@))
                    &&& final(self).ops() == old(self).ops().push(Instr::GetGlobal(c_bytes(name@)))
                    &&& final(self).top() == old(self).top() + 1
                },
                Err(e) => {
                    &&& has_terminator(c_bytes(name@))
                    &&& e == LunarError::Conversion
                    &&& final(self).ops() == old(self).ops()
                    &&& final(self).top() == old(self).top()
                },
            },
    {
        let bytes = to_const_char(name)?;
        self.emit(Op::GetGlobal(bytes), 1);
        Ok(())
    }

    /// Queues the assignment of the top value to the field `field` of the
    /// table at stack index `stack`; the engine pops the value.
    pub fn set_field(&mut self, field: &str, stack: i32) -> (r: Result<(), LunarError>)
        requires
            old(self).wf(),
            old(self).top() >= 1,
        ensures
            final(self).wf(),
            final(self).frame() == old(self).frame(),
            match r {
                Ok(()) => {
                    &&& !has_terminator(c_bytes(field@))
                    &&& final(self).ops() == old(self).ops().push(
                        Instr::SetField(stack, c_bytes(field@)),
                    )
                    &&& final(self).top() == old(self).top() - 1
                },
                Err(e) => {
                    &&& has_terminator(c_bytes(field@))
                    &&& e == LunarError::Conversion
                    &&& final(self).ops() == old(self).ops()
                    &&& final(self).top() == old(self).top()
                },
            },
    {
        let bytes = to_const_char(field)?;
        self.emit(Op::SetField(stack, bytes), -1);
        Ok(())
    }

    /// Queues the push of the field `field` of the table at stack index
    /// `stack`, and gives the index at which the field will stand.
    pub fn get_field(&mut self, field: &str, stack: i32) -> (r: Result<i32, LunarError>)
        requires
            old(self).wf(),
            old(self).top() + 1 <= LUAI_MAXSTACK,
        ensures
            final(self).wf(),
            final(self).frame() == old(self).frame(),
            match r {
                Ok(index) => {
                    &&& !has_terminator(c_bytes(field@))
                    &&& final(self).ops() == old(self).ops().push(
                        Instr::GetField(stack, c_bytes(field@)),
                    )
                    &&& final(self).top() == old(self).top() + 1
                    &&& index == final(self).top()
                },
                Err(e) => {
                    &&& has_terminator(c_bytes(field@))
                    &&& e == LunarError::Conversion
                    &&& final(self).ops() == old(self).ops()
                    &&& final(self).top() == old(self).top()
                },
            },
    {
        let bytes = to_const_char(field)?;
        self.emit(Op::GetField(stack, bytes), 1);
        Ok(self.top)
    }

    /// Queues the removal of the top value.
    pub fn pop_last(&mut self)
        requires
            old(self).wf(),
            old(self).top() >= 1,
        ensures
            final(self).wf(),
            final(self).frame() == old(self).frame(),
            final(self).ops() == old(self).ops().push(Instr::SetTop(-2i32)),
            final(self).top() == old(self).top() - 1,
    {
        self.emit(lua_pop(1), -1);
    }

    /// Queues the operations that attach `metatable` to `table`: both are
    /// pushed, the engine pops the metatable as it attaches it, and the
    /// table is popped after.
    pub fn set_metatable(&mut self, table: &Table, metatable: &MetaTable)
        requires
            old(self).wf(),
            old(self).top() + 2 <= LUAI_MAXSTACK,
        ensures
            final(self).wf(),
            final(self).frame() == old(self).frame(),
            final(self).top() == old(self).top(),
            final(self).ops() == old(self).ops() + set_metatable_instrs(
                table.spec_id(),
                metatable.spec_id(),
                old(self).top(),
            ),
    {
        let ghost before = self.ops();
        let ghost top = self.top();
        proof {
            self.lemma_depth_bounds();
        }
        let index = table.push_table(self);
        metatable.push_metatable(self);
        self.emit(Op::SetMetatable(index), -1);
        self.pop_last();
        assert(self.ops() =~= before + set_metatable_instrs(
            table.spec_id(),
            metatable.spec_id(),
            top,
        ));
    }

    /// Queues the operations that push the values of `args`, first to last.
    pub(crate) fn push_all(&mut self, args: &Vec<Value>)
        requires
            old(self).wf(),
            all_cross(args@),
            old(self).top() + args@.len() + 1 <= LUAI_MAXSTACK,
        ensures
            final(self).wf(),
            final(self).frame() == old(self).frame(),
            final(self).ops() == old(self).ops() + push_all_instrs(args@, old(self).top()),
            final(self).top() == old(self).top() + args@.len(),
    {
        let ghost before = self.ops();
        let ghost top = self.top();
        let count = args.len();
        let mut i: usize = 0;
        assert(self.ops() =~= before + push_all_instrs(args@.take(0), top));
        while i < count
            invariant
                i <= count,
                count == args@.len(),
                all_cross(args@),
                self.wf(),
                self.frame() == old(self).frame(),
                top + count + 1 <= LUAI_MAXSTACK,
                self.top() == top + i,
                self.ops() == before + push_all_instrs(args@.take(i as int), top),
            decreases count - i,
        {
            let pushed = self.push_value(&args[i]);
            assert(pushed is Ok);
            proof {
                let done = args@.take(i as int);
                let next = args@.take(i + 1);
                assert(next.drop_last() =~= done);
                assert(next.last() == args@[i as int]);
                assert(self.ops() =~= before + push_all_instrs(next, top));
            }
            i += 1;
        }
        assert(args@.take(count as int) =~= args@);
    }

    /// Queues the operations that call the value at stack index `stack`
    /// with `args` under the engine's protection, asking for `nresult`
    /// results. The depth afterwards is that of a call that succeeds;
    /// [`LunarContext::call_returned`] takes the engine's answer. If a
    /// value of `args` cannot cross, the call is refused with nothing
    /// queued.
    pub fn call_function(&mut self, stack: i32, args: Vec<Value>, nresult: i32) -> (r: Result<
        (),
        LunarError,
    >)
        requires
            old(self).wf(),
            0 <= nresult,
            old(self).top() + args@.len() + 2 <= LUAI_MAXSTACK,
            old(self).top() + nresult <= LUAI_MAXSTACK,
        ensures
            final(self).wf(),
            final(self).frame() == old(self).frame(),
            match r {
                Ok(()) => {
                    &&& all_cross(args@)
                    &&& final(self).ops() == old(self).ops() + call_instrs(
                        stack,
                        args@,
                        nresult,
                        old(self).top(),
                    )
                    &&& final(self).top() == old(self).top() + nresult
                },
                Err(e) => {
                    &&& !all_cross(args@)
                    &&& e == LunarError::Conversion
                    &&& final(self).ops() == old(self).ops()
                    &&& final(self).top() == old(self).top()
                },
            },
    {
        let ghost before = self.ops();
        let ghost top = self.top();
        proof {
            self.lemma_depth_bounds();
        }
        let count = args.len();
        if !values_cross(&args) {
            return Err(LunarError::Conversion);
        }
        self.emit(Op::PushValue(stack), 1);
        self.push_all(&args);
        self.emit(Op::ProtectedCall(count as i32, nresult), nresult - (count as i32 + 1));
        assert(self.ops() =~= before + call_instrs(stack, args@, nresult, top));
        Ok(())
    }

    /// Takes the engine's answer to a protected call that asked for
    /// `nresult` results: the status it returned and its report of the top
    /// of the stack. A call that failed left one error value where the
    /// results were to stand; its removal is queued, and the failure it
    /// describes is returned.
    pub fn call_returned(&mut self, status: i32, message: &Slot, nresult: i32) -> (r: Result<
        (),
        String,
    >)
        requires
            old(self).wf(),
            0 <= nresult <= old(self).top(),
        ensures
            final(self).wf(),
            final(self).frame() == old(self).frame(),
            match r {
                Ok(()) => {
                    &&& status == 0
                    &&& final(self).ops() == old(self).ops()
                    &&& final(self).top() == old(self).top()
                },
                Err(text) => {
                    &&& status != 0
                    &&& text@ == error_text(*message)
                    &&& final(self).ops() == old(self).ops().push(Instr::SetTop(-2i32))
                    &&& final(self).top() == old(self).top() - nresult
                },
            },
    {
        match pcall(status, message) {
            Ok(()) => Ok(()),
            Err(text) => {
                self.emit(lua_pop(1), -nresult);
                Err(text)
            },
        }
    }

    /// One line for each of the first seven stack positions as the engine
    /// reported them: the position, the category of its value and, for a
    /// table or a userdata cell, the name it goes by.
    pub fn stackdump(&self) -> (lines: Vec<StackLine>)
        requires
            self.wf(),
        ensures
            lines@.len() == STACK_MAX - 1,
            forall|i: int|
                0 <= i < lines@.len() ==> (#[trigger] lines@[i]).describes(
                    i + 1,
                    slot_at(self.frame(), i + 1),
                ),
    {
        let mut lines: Vec<StackLine> = Vec::new();
        let mut stack: i32 = 1;
        while stack < STACK_MAX
            invariant
                1 <= stack <= STACK_MAX,
                self.wf(),
                lines@.len() == stack - 1,
                forall|i: int|
                    0 <= i < lines@.len() ==> (#[trigger] lines@[i]).describes(
                        i + 1,
                        slot_at(self.frame(), i + 1),
                    ),
            decreases STACK_MAX - stack,
        {
            let typename = self.get_type(stack);
            let name = match self.slot(stack) {
                Some(slot) => slot.name(),
                None => None,
            };
            lines.push(StackLine { stack, typename, name });
            stack += 1;
        }
        lines
    }
}

} // verus!
