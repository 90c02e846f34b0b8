//! Metatables: tables whose fields are the engine's hooks for operators,
//! calls and field access.

use vstd::prelude::*;
use vstd::utf8::is_ascii_chars;
use crate::context::{crosses, push_room, Function, LunarContext, Value};
use crate::lua::{
    c_bytes, has_terminator, lemma_ascii_crosses, Instr, LunarError, LUAI_MAXSTACK,
};
use crate::table::{bind_instrs, create_instrs, set_instrs, Table};

verus! {

/// A table that holds hooks and methods for another value.
pub struct MetaTable {
    table: Table,
}

impl MetaTable {
    /// The registry slot number under which the engine keeps the
    /// metatable.
    pub closed spec fn spec_id(&self) -> i32 {
        self.table.spec_id()
    }

    /// The first half of creating a metatable: as [`Table::new`], for a
    /// table that is named but not published as a global.
    pub fn new(ctx: &mut LunarContext, name: &str) -> (r: Result<(), LunarError>)
        requires
            old(ctx).wf(),
            old(ctx).top() + 2 <= LUAI_MAXSTACK,
        ensures
            final(ctx).wf(),
            final(ctx).frame() == old(ctx).frame(),
            final(ctx).top() == old(ctx).top(),
            match r {
                Ok(()) => {
                    &&& !has_terminator(c_bytes(name@))
                    &&& final(ctx).ops() == old(ctx).ops() + create_instrs(
                        name@,
                        false,
                        old(ctx).top(),
                    )
                },
                Err(e) => {
                    &&& has_terminator(c_bytes(name@))
                    &&& e == LunarError::Conversion
                    &&& final(ctx).ops() == old(ctx).ops()
                },
            },
    {
        Table::new(ctx, name, false)
    }

    /// The second half of creating a metatable: as [`Table::bind`].
    pub fn bind(ctx: &mut LunarContext, id: i32) -> (metatable: MetaTable)
        requires
            old(ctx).wf(),
            old(ctx).top() + 2 <= LUAI_MAXSTACK,
        ensures
            final(ctx).wf(),
            final(ctx).frame() == old(ctx).frame(),
            final(ctx).top() == old(ctx).top(),
            final(ctx).ops() == old(ctx).ops() + bind_instrs(id, old(ctx).top()),
            metatable.spec_id() == id,
    {
        MetaTable { table: Table::bind(ctx, id) }
    }

    /// Queues the operations that install `func` as the call hook, so that
    /// calling the value that carries this metatable runs `func`.
    pub fn constructor(&self, ctx: &mut LunarContext, func: Function)
        requires
            old(ctx).wf(),
            old(ctx).top() + 2 <= LUAI_MAXSTACK,
        ensures
            final(ctx).wf(),
            final(ctx).frame() == old(ctx).frame(),
            final(ctx).top() == old(ctx).top(),
            final(ctx).ops() == old(ctx).ops() + set_instrs(
                self.spec_id(),
                MetaMethod::Call.spec_name(),
                Value::Function(func),
                old(ctx).top(),
            ),
    {
        let r = self.add_meta_method(ctx, MetaMethod::Call, Value::Function(func));
        assert(r is Ok);
    }

    /// Queues the operations that install `method` under the plain name
    /// `name`.
    pub fn add_method(&self, ctx: &mut LunarContext, name: &str, method: Function) -> (r: Result<
        (),
        LunarError,
    >)
        requires
            old(ctx).wf(),
            old(ctx).top() + 2 <= LUAI_MAXSTACK,
        ensures
            final(ctx).wf(),
            final(ctx).frame() == old(ctx).frame(),
            final(ctx).top() == old(ctx).top(),
            match r {
                Ok(()) => {
                    &&& !has_terminator(c_bytes(name@))
                    &&& final(ctx).ops() == old(ctx).ops() + set_instrs(
                        self.spec_id(),
                        name@,
                        Value::Function(method),
                        old(ctx).top(),
                    )
                },
                Err(e) => {
                    &&& has_terminator(c_bytes(name@))
                    &&& e == LunarError::Conversion
                    &&& final(ctx).ops() == old(ctx).ops()
                },
            },
    {
        self.table.set(ctx, name, Value::Function(method))
    }

    /// Queues the operations that install `value` under the name of the
    /// hook `metamethod`. Only a value that cannot cross is refused.
    pub fn add_meta_method(&self, ctx: &mut LunarContext, metamethod: MetaMethod, value: Value) -> (r:
        Result<(), LunarError>)
        requires
            old(ctx).wf(),
            old(ctx).top() + 1 + push_room(value) <= LUAI_MAXSTACK,
        ensures
            final(ctx).wf(),
            final(ctx).frame() == old(ctx).frame(),
            final(ctx).top() == old(ctx).top(),
            match r {
                Ok(()) => {
                    &&& crosses(value)
                    &&& final(ctx).ops() == old(ctx).ops() + set_instrs(
                        self.spec_id(),
                        metamethod.spec_name(),
                        value,
                        old(ctx).top(),
                    )
                },
                Err(e) => {
                    &&& !crosses(value)
                    &&& e == LunarError::Conversion
                    &&& final(ctx).ops() == old(ctx).ops()
                },
            },
    {
        proof {
            lemma_name_shape(metamethod);
        }
        self.table.set(ctx, metamethod.name(), value)
    }

    /// Queues the push of the metatable, and gives the stack index at
    /// which it will stand.
    pub fn push_metatable(&self, ctx: &mut LunarContext) -> (index: i32)
        requires
            old(ctx).wf(),
            old(ctx).top() + 1 <= LUAI_MAXSTACK,
        ensures
            final(ctx).wf(),
            final(ctx).frame() == old(ctx).frame(),
            final(ctx).ops() == old(ctx).ops().push(Instr::RefPush(self.spec_id())),
            final(ctx).top() == old(ctx).top() + 1,
            index == final(ctx).top(),
    {
        self.table.push_table(ctx)
    }
}

/// The hooks that a metatable can hold.
#[derive(Debug, Copy, Clone, Eq, PartialEq, Hash, Structural)]
pub enum MetaMethod {
    /// The `+` operator.
    Add,
    /// The `-` operator.
    Sub,
    /// The `*` operator.
    Mul,
    /// The `/` operator.
    Div,
    /// The `%` operator.
    Mod,
    /// The `^` operator.
    Pow,
    /// The unary minus (`-`) operator.
    Unm,
    /// The floor division (`//`) operator.
    IDiv,
    /// The bitwise AND (`&`) operator.
    BAnd,
    /// The bitwise OR (`|`) operator.
    BOr,
    /// The bitwise XOR (binary `~`) operator.
    BXor,
    /// The bitwise NOT (unary `~`) operator.
    BNot,
    /// The bitwise left shift (`<<`) operator.
    Shl,
    /// The bitwise right shift (`>>`) operator.
    Shr,
    /// The string concatenation operator `..`.
    Concat,
    /// The length operator `#`.
    Len,
    /// The `==` operator.
    Eq,
    /// The `<` operator.
    Lt,
    /// The `<=` operator.
    Le,
    /// Index access `obj[key]`.
    Index,
    /// Index write access `obj[key] = value`.
    NewIndex,
    /// The call "operator" `obj(arg1, args2, ...)`.
    Call,
    /// Called by `tostring` and `print`.
    ToString,
    /// Called by the built-in `pairs` function.
    Pairs,
}

impl MetaMethod {
    /// The field name under which the engine looks the hook up.
    pub open spec fn spec_name(self) -> Seq<char> {
        match self {
            MetaMethod::Add => "__add"@,
            MetaMethod::Sub => "__sub"@,
            MetaMethod::Mul => "__mul"@,
            MetaMethod::Div => "__div"@,
            MetaMethod::Mod => "__mod"@,
            MetaMethod::Pow => "__pow"@,
            MetaMethod::Unm => "__unm"@,
            MetaMethod::IDiv => "__idiv"@,
            MetaMethod::BAnd => "__band"@,
            MetaMethod::BOr => "__bor"@,
            MetaMethod::BXor => "__bxor"@,
            MetaMethod::BNot => "__bnot"@,
            MetaMethod::Shl => "__shl"@,
            MetaMethod::Shr => "__shr"@,
            MetaMethod::Concat => "__concat"@,
            MetaMethod::Len => "__len"@,
            MetaMethod::Eq => "__eq"@,
            MetaMethod::Lt => "__lt"@,
            MetaMethod::Le => "__le"@,
            MetaMethod::Index => "__index"@,
            MetaMethod::NewIndex => "__newindex"@,
            MetaMethod::Call => "__call"@,
            MetaMethod::ToString => "__tostring"@,
            MetaMethod::Pairs => "__pairs"@,
        }
    }

    /// The field name under which the engine looks the hook up.
    pub fn name(self) -> (name: &'static str)
        ensures
            name@ == self.spec_name(),
    {
        match self {
            MetaMethod::Add => "__add",
            MetaMethod::Sub => "__sub",
            MetaMethod::Mul => "__mul",
            MetaMethod::Div => "__div",
            MetaMethod::Mod => "__mod",
            MetaMethod::Pow => "__pow",
            MetaMethod::Unm => "__unm",
            MetaMethod::IDiv => "__idiv",
            MetaMethod::BAnd => "__band",
            MetaMethod::BOr => "__bor",
            MetaMethod::BXor => "__bxor",
            MetaMethod::BNot => "__bnot",
            MetaMethod::Shl => "__shl",
            MetaMethod::Shr => "__shr",
            MetaMethod::Concat => "__concat",
            MetaMethod::Len => "__len",
            MetaMethod::Eq => "__eq",
            MetaMethod::Lt => "__lt",
            MetaMethod::Le => "__le",
            MetaMethod::Index => "__index",
            MetaMethod::NewIndex => "__newindex",
            MetaMethod::Call => "__call",
            MetaMethod::ToString => "__tostring",
            MetaMethod::Pairs => "__pairs",
        }
    }
}

impl MetaMethod {
    /// The field name of the hook as the bytes that the engine takes.
    pub fn bytes(self) -> (bytes: Vec<u8>)
        ensures
            bytes@ == c_bytes(self.spec_name()),
            !has_terminator(bytes@),
    {
        proof {
            lemma_name_shape(self);
        }
        vstd::slice::slice_to_vec(self.name().as_bytes())
    }
}

/// Every hook's name starts with two underscores, is plain ASCII, and can
/// cross to the engine.
pub proof fn lemma_name_shape(m: MetaMethod)
    ensures
        m.spec_name().len() > 2,
        m.spec_name()[0] == '_',
        m.spec_name()[1] == '_',
        is_ascii_chars(m.spec_name()),
        !has_terminator(c_bytes(m.spec_name())),
{
    reveal_strlit("__add");
    reveal_strlit("__sub");
    reveal_strlit("__mul");
    reveal_strlit("__div");
    reveal_strlit("__mod");
    reveal_strlit("__pow");
    reveal_strlit("__unm");
    reveal_strlit("__idiv");
    reveal_strlit("__band");
    reveal_strlit("__bor");
    reveal_strlit("__bxor");
    reveal_strlit("__bnot");
    reveal_strlit("__shl");
    reveal_strlit("__shr");
    reveal_strlit("__concat");
    reveal_strlit("__len");
    reveal_strlit("__eq");
    reveal_strlit("__lt");
    reveal_strlit("__le");
    reveal_strlit("__index");
    reveal_strlit("__newindex");
    reveal_strlit("__call");
    reveal_strlit("__tostring");
    reveal_strlit("__pairs");
    lemma_ascii_crosses(m.spec_name());
}

/// The length of a hook's name and its last character: enough to tell
/// the names apart once the third and fourth characters are known.
spec fn name_key(name: Seq<char>) -> (nat, char, char, char) {
    (name.len(), name[2], name[3], name[name.len() - 1])
}

proof fn lemma_name_key(m: MetaMethod)
    ensures
        name_key(m.spec_name()) == match m {
            MetaMethod::Add => (5nat, 'a', 'd', 'd'),
            MetaMethod::Sub => (5nat, 's', 'u', 'b'),
            MetaMethod::Mul => (5nat, 'm', 'u', 'l'),
            MetaMethod::Div => (5nat, 'd', 'i', 'v'),
            MetaMethod::Mod => (5nat, 'm', 'o', 'd'),
            MetaMethod::Pow => (5nat, 'p', 'o', 'w'),
            MetaMethod::Unm => (5nat, 'u', 'n', 'm'),
            MetaMethod::IDiv => (6nat, 'i', 'd', 'v'),
            MetaMethod::BAnd => (6nat, 'b', 'a', 'd'),
            MetaMethod::BOr => (5nat, 'b', 'o', 'r'),
            MetaMethod::BXor => (6nat, 'b', 'x', 'r'),
            MetaMethod::BNot => (6nat, 'b', 'n', 't'),
            MetaMethod::Shl => (5nat, 's', 'h', 'l'),
            MetaMethod::Shr => (5nat, 's', 'h', 'r'),
            MetaMethod::Concat => (8nat, 'c', 'o', 't'),
            MetaMethod::Len => (5nat, 'l', 'e', 'n'),
            MetaMethod::Eq => (4nat, 'e', 'q', 'q'),
            MetaMethod::Lt => (4nat, 'l', 't', 't'),
            MetaMethod::Le => (4nat, 'l', 'e', 'e'),
            MetaMethod::Index => (7nat, 'i', 'n', 'x'),
            MetaMethod::NewIndex => (10nat, 'n', 'e', 'x'),
            MetaMethod::Call => (6nat, 'c', 'a', 'l'),
            MetaMethod::ToString => (10nat, 't', 'o', 'g'),
            MetaMethod::Pairs => (7nat, 'p', 'a', 's'),
        },
{
    reveal_strlit("__add");
    reveal_strlit("__sub");
    reveal_strlit("__mul");
    reveal_strlit("__div");
    reveal_strlit("__mod");
    reveal_strlit("__pow");
    reveal_strlit("__unm");
    reveal_strlit("__idiv");
    reveal_strlit("__band");
    reveal_strlit("__bor");
    reveal_strlit("__bxor");
    reveal_strlit("__bnot");
    reveal_strlit("__shl");
    reveal_strlit("__shr");
    reveal_strlit("__concat");
    reveal_strlit("__len");
    reveal_strlit("__eq");
    reveal_strlit("__lt");
    reveal_strlit("__le");
    reveal_strlit("__index");
    reveal_strlit("__newindex");
    reveal_strlit("__call");
    reveal_strlit("__tostring");
    reveal_strlit("__pairs");
}

/// Two hooks never share a name.
pub proof fn lemma_name_injective(a: MetaMethod, b: MetaMethod)
    requires
        a.spec_name() == b.spec_name(),
    ensures
        a == b,
{
    lemma_name_key(a);
    lemma_name_key(b);
}

} // verus!
