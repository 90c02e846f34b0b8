//! What the bridge's operations achieve on an engine that behaves as the
//! reference semantics say.

use vstd::prelude::*;
use vstd::std_specs::convert::TryFromSpec;
use vstd::utf8::{encode_utf8_decode_utf8, encode_utf8_valid_utf8};
use crate::context::{crosses, push_instrs, slot_at, Function, Value};
use crate::lua::{
    boolean_of, c_bytes, checked_userdata_of, float_of, integer_of, long_of, text_of, userdata_of,
    Instr, LunarError, Slot, LUAI_MAXSTACK,
};
use crate::machine::{
    assign, lemma_run_concat, lemma_run_first, lemma_run_one, lookup, Cell, Machine, Object,
};
use crate::lunar::seal_instrs;
use crate::metatable::MetaMethod;
use crate::table::{
    bind_instrs, create_instrs, fetch_instrs, find_instrs, publish_instrs, set_instrs,
    set_metatable_instrs,
};

verus! {

/// Whether `value` is plain: one that the engine holds by itself, with no
/// table, userdata cell or address behind it.
pub open spec fn plain(value: Value) -> bool {
    match value {
        Value::Nil => true,
        Value::Bool(_) => true,
        Value::Function(_) => true,
        Value::Int(_) => true,
        Value::Uint(_) => true,
        Value::Long(_) => true,
        Value::Float(_) => true,
        Value::String(_) => true,
        _ => false,
    }
}

/// The engine's value for the plain host value `value`.
pub open spec fn cell_of(value: Value) -> Cell {
    match value {
        Value::Bool(b) => Cell::Bool(b),
        Value::Function(f) => Cell::Function(f),
        Value::Int(i) => Cell::Integer(i as i64),
        Value::Uint(u) => Cell::Integer(u as i64),
        Value::Long(i) => Cell::Integer(i),
        Value::Float(bits) => Cell::Float(bits),
        Value::String(s) => Cell::Text(c_bytes(s@)),
        _ => Cell::Nil,
    }
}

/// Whether reading `slot` with the getter that matches `value` gives
/// `value` back.
pub open spec fn reads_back(value: Value, slot: Slot) -> bool {
    match value {
        Value::Bool(b) => boolean_of(slot) == Ok::<bool, LunarError>(b),
        Value::Int(i) => integer_of::<i32>(slot, "int") == Ok::<i32, LunarError>(i),
        Value::Uint(u) => integer_of::<u32>(slot, "uint") == Ok::<u32, LunarError>(u),
        Value::Long(i) => long_of(slot) == Ok::<i64, LunarError>(i),
        Value::Float(bits) => float_of(slot) == Ok::<u64, LunarError>(bits),
        Value::String(s) => text_of(slot) == Ok::<Seq<char>, LunarError>(s@),
        _ => true,
    }
}

/// Pushing a plain value that can cross puts the engine's value for it on
/// top of the stack, and touches nothing else.
pub proof fn lemma_push_plain(m: Machine, value: Value)
    requires
        plain(value),
        crosses(value),
        m.has_room(),
    ensures
        m.run(push_instrs(value, m.stack.len() as int)) == Some(m.pushed(cell_of(value))),
{
    let queued = push_instrs(value, m.stack.len() as int);
    assert(queued.len() == 1);
    assert(queued =~= seq![queued[0]]);
    lemma_run_one(m, queued[0]);
}

/// Whatever the engine reports of its value for a plain host value, the
/// matching getter reads the host value back from the report.
pub proof fn lemma_report_reads_back(m: Machine, value: Value, slot: Slot)
    requires
        plain(value),
        m.reports(cell_of(value), slot),
    ensures
        reads_back(value, slot),
{
    match value {
        Value::String(s) => {
            encode_utf8_valid_utf8(s@);
            encode_utf8_decode_utf8(s@);
        },
        _ => {},
    }
}

/// A value that is pushed and then read at the index where it stands comes
/// back as it was: for every boolean, integer, float and text that can
/// cross, for every state of the engine with room for one more value, and
/// for every report `frame` that the engine can give of the stack
/// afterwards.
pub proof fn lemma_push_then_get(m: Machine, value: Value, frame: Seq<Slot>)
    requires
        plain(value),
        crosses(value),
        m.has_room(),
        frame.len() == m.stack.len() + 1,
        m.pushed(cell_of(value)).reports(cell_of(value), frame.last()),
    ensures
        m.run(push_instrs(value, m.stack.len() as int)) == Some(m.pushed(cell_of(value))),
        reads_back(value, slot_at(frame, (m.stack.len() + 1) as int)),
{
    lemma_push_plain(m, value);
    lemma_report_reads_back(m.pushed(cell_of(value)), value, frame.last());
}

/// A getter that meets a value of another category than its own fails
/// with a type mismatch that names the type it was asked for.
pub proof fn lemma_mismatch(slot: Slot)
    ensures
        !(slot is Bool) ==> boolean_of(slot) == Err::<bool, LunarError>(
            LunarError::TypeMismatch("bool"),
        ),
        !(slot is Number) ==> integer_of::<i32>(slot, "int") == Err::<i32, LunarError>(
            LunarError::TypeMismatch("int"),
        ),
        !(slot is Number) ==> integer_of::<u32>(slot, "uint") == Err::<u32, LunarError>(
            LunarError::TypeMismatch("uint"),
        ),
        !(slot is Number) ==> long_of(slot) == Err::<i64, LunarError>(
            LunarError::TypeMismatch("long"),
        ),
        !(slot is Number) ==> float_of(slot) == Err::<u64, LunarError>(
            LunarError::TypeMismatch("float"),
        ),
        !(slot is Text) ==> text_of(slot) == Err::<Seq<char>, LunarError>(
            LunarError::TypeMismatch("string"),
        ),
        !(slot is Userdata) ==> userdata_of(slot) == Err::<u64, LunarError>(
            LunarError::TypeMismatch("userdata"),
        ),
{
}

/// The machine `m` after the field `key` of its table `o` has been set to
/// `cell`.
pub open spec fn with_field(m: Machine, o: int, key: Seq<u8>, cell: Cell) -> Machine {
    Machine {
        heap: m.heap.insert(
            o,
            Object::Table { fields: assign(m.fields(o), key, cell), meta: m.heap[o]->Table_meta },
        ),
        ..m
    }
}

/// Whether the table `o` of `m` takes an assignment to `key` as it is,
/// without a hook of its metatable stepping in.
pub open spec fn takes(m: Machine, o: int, key: Seq<u8>) -> bool {
    m.fields(o).contains_key(key) || !m.hooked(o, c_bytes("__newindex"@))
}

/// Setting a field through a handle leaves the stack as deep as it was and
/// changes that one field of the table behind the handle.
#[verifier::rlimit(40)]
pub proof fn lemma_set(m: Machine, id: i32, o: int, field: Seq<char>, value: Value)
    requires
        plain(value),
        crosses(value),
        m.stack.len() + 2 <= LUAI_MAXSTACK,
        lookup(m.registry, id as int) == Cell::Object(o),
        m.is_table(Cell::Object(o)),
        takes(m, o, c_bytes(field)),
    ensures
        m.run(set_instrs(id, field, value, m.stack.len() as int)) == Some(
            with_field(m, o, c_bytes(field), cell_of(value)),
        ),
{
    let top = m.stack.len() as int;
    let key = c_bytes(field);
    let cell = cell_of(value);
    let m1 = m.pushed(Cell::Object(o));
    let m2 = m1.pushed(cell);
    let tail = seq![Instr::SetField((top + 1) as i32, key), Instr::SetTop(-2i32)];
    let m3 = Machine {
        stack: m1.stack,
        heap: m.heap.insert(
            o,
            Object::Table { fields: assign(m.fields(o), key, cell), meta: m.heap[o]->Table_meta },
        ),
        ..m
    };
    assert(set_instrs(id, field, value, top) =~= seq![Instr::RefPush(id)] + (push_instrs(
        value,
        top + 1,
    ) + tail));
    lemma_run_first(m, Instr::RefPush(id), push_instrs(value, top + 1) + tail);
    assert(m.step(Instr::RefPush(id)) == Some(m1));
    lemma_run_concat(m1, push_instrs(value, top + 1), tail);
    lemma_push_plain(m1, value);
    assert(tail =~= seq![Instr::SetField((top + 1) as i32, key)] + seq![Instr::SetTop(-2i32)]);
    lemma_run_first(m2, Instr::SetField((top + 1) as i32, key), seq![Instr::SetTop(-2i32)]);
    assert(m2.stack[top] == Cell::Object(o));
    assert(m2.stack.drop_last() =~= m1.stack);
    assert(m2.set_field(top + 1, key) == Some(m3));
    lemma_run_one(m3, Instr::SetTop(-2i32));
    assert(m3.stack.take(top) =~= m.stack);
}

/// Fetching a field through a handle puts the table and then the field's
/// value on the stack, and clearing takes both off again.
pub proof fn lemma_fetch(m: Machine, id: i32, o: int, field: Seq<char>)
    requires
        m.stack.len() + 2 <= LUAI_MAXSTACK,
        lookup(m.registry, id as int) == Cell::Object(o),
        m.is_table(Cell::Object(o)),
        m.fields(o).contains_key(c_bytes(field)),
    ensures
        m.run(fetch_instrs(id, field, m.stack.len() as int)) == Some(
            m.pushed(Cell::Object(o)).pushed(m.fields(o)[c_bytes(field)]),
        ),
        m.pushed(Cell::Object(o)).pushed(m.fields(o)[c_bytes(field)]).run(
            seq![Instr::SetTop(-3i32)],
        ) == Some(m),
{
    let top = m.stack.len() as int;
    let key = c_bytes(field);
    let m1 = m.pushed(Cell::Object(o));
    let m2 = m1.pushed(m.fields(o)[key]);
    assert(fetch_instrs(id, field, top) =~= seq![Instr::RefPush(id)] + seq![
        Instr::GetField((top + 1) as i32, key),
    ]);
    lemma_run_first(m, Instr::RefPush(id), seq![Instr::GetField((top + 1) as i32, key)]);
    lemma_run_one(m1, Instr::GetField((top + 1) as i32, key));
    assert(m1.stack[top] == Cell::Object(o));
    lemma_run_one(m2, Instr::SetTop(-3i32));
    assert(m2.stack.take(top) =~= m.stack);
}

/// What is set through one handle of a table is what a fetch through any
/// handle of the same table finds: for every boolean, integer, float,
/// text and callback that can cross, for every field name, and whether
/// the two handles are one or were obtained apart. Both operations leave
/// the stack as deep as it was.
pub proof fn lemma_set_then_fetch(
    m: Machine,
    setter: i32,
    getter: i32,
    o: int,
    field: Seq<char>,
    value: Value,
    slot: Slot,
)
    requires
        plain(value),
        !(value is Nil),
        crosses(value),
        m.stack.len() + 2 <= LUAI_MAXSTACK,
        lookup(m.registry, setter as int) == Cell::Object(o),
        lookup(m.registry, getter as int) == Cell::Object(o),
        m.is_table(Cell::Object(o)),
        takes(m, o, c_bytes(field)),
        with_field(m, o, c_bytes(field), cell_of(value)).reports(cell_of(value), slot),
    ensures
        ({
            let top = m.stack.len() as int;
            let set = with_field(m, o, c_bytes(field), cell_of(value));
            let fetched = set.pushed(Cell::Object(o)).pushed(cell_of(value));
            &&& m.run(set_instrs(setter, field, value, top)) == Some(set)
            &&& set.stack == m.stack
            &&& set.run(fetch_instrs(getter, field, top)) == Some(fetched)
            &&& fetched.run(seq![Instr::SetTop(-3i32)]) == Some(set)
            &&& reads_back(value, slot)
        }),
{
    let set = with_field(m, o, c_bytes(field), cell_of(value));
    lemma_set(m, setter, o, field, value);
    lemma_fetch(set, getter, o, field);
    lemma_report_reads_back(set, value, slot);
}

/// The fields of a table that has just been created under `name` and
/// bound to the slot number `id`.
pub open spec fn fresh_fields(name: Seq<char>, id: i32) -> Map<Seq<u8>, Cell> {
    if name.len() == 0 {
        Map::<Seq<u8>, Cell>::empty().insert(c_bytes("__ref"@), Cell::Integer(id as i64))
    } else {
        Map::<Seq<u8>, Cell>::empty().insert(c_bytes("__name"@), Cell::Text(c_bytes(name))).insert(
            c_bytes("__ref"@),
            Cell::Integer(id as i64),
        )
    }
}

/// The machine `m` after a table has been created under `name`, registered
/// under the slot number `id`, and bound to it.
pub open spec fn with_table(m: Machine, name: Seq<char>, global: bool, id: i32) -> Machine {
    Machine {
        stack: m.stack,
        globals: if global && name.len() > 0 {
            m.globals.insert(c_bytes(name), Cell::Object(m.next))
        } else {
            m.globals
        },
        registry: m.registry.insert(id as int, Cell::Object(m.next)),
        heap: m.heap.insert(
            m.next,
            Object::Table { fields: fresh_fields(name, id), meta: None },
        ),
        next: m.next + 1,
        light_meta: m.light_meta,
        picks: m.picks.drop_first(),
    }
}

/// Publishing the new table on top of the stack gives it its name and, for
/// a global table, binds it under that name.
#[verifier::rlimit(40)]
proof fn lemma_publish(m: Machine, name: Seq<char>, global: bool, o: int)
    requires
        1 <= m.stack.len(),
        m.stack.len() + 1 <= LUAI_MAXSTACK,
        m.stack.last() == Cell::Object(o),
        m.heap.contains_key(o),
        m.heap[o] == (Object::Table { fields: Map::empty(), meta: None }),
    ensures
        m.run(publish_instrs(name, global, m.stack.len() as i32)) == Some(
            if name.len() == 0 {
                m
            } else {
                Machine {
                    globals: if global {
                        m.globals.insert(c_bytes(name), Cell::Object(o))
                    } else {
                        m.globals
                    },
                    heap: m.heap.insert(
                        o,
                        Object::Table {
                            fields: Map::<Seq<u8>, Cell>::empty().insert(
                                c_bytes("__name"@),
                                Cell::Text(c_bytes(name)),
                            ),
                            meta: None,
                        },
                    ),
                    ..m
                }
            },
        ),
{
    let index = m.stack.len() as i32;
    let queued = publish_instrs(name, global, index);
    if name.len() == 0 {
    } else {
        let key = c_bytes("__name"@);
        let text = Cell::Text(c_bytes(name));
        let m1 = m.pushed(text);
        let m2 = Machine {
            heap: m.heap.insert(
                o,
                Object::Table {
                    fields: Map::<Seq<u8>, Cell>::empty().insert(key, text),
                    meta: None,
                },
            ),
            ..m
        };
        assert(m1.stack[index - 1] == Cell::Object(o));
        assert(m1.stack.drop_last() =~= m.stack);
        assert(m1.set_field(index as int, key) == Some(m2));
        if global {
            let rest = seq![
                Instr::SetField(index, key),
                Instr::PushValue(index),
                Instr::SetGlobal(c_bytes(name)),
            ];
            let rest2 = seq![Instr::PushValue(index), Instr::SetGlobal(c_bytes(name))];
            assert(queued =~= seq![Instr::PushString(c_bytes(name))] + rest);
            lemma_run_first(m, Instr::PushString(c_bytes(name)), rest);
            assert(rest =~= seq![Instr::SetField(index, key)] + rest2);
            lemma_run_first(m1, Instr::SetField(index, key), rest2);
            assert(rest2 =~= seq![Instr::PushValue(index)] + seq![
                Instr::SetGlobal(c_bytes(name)),
            ]);
            lemma_run_first(m2, Instr::PushValue(index), seq![Instr::SetGlobal(c_bytes(name))]);
            let m3 = m2.pushed(Cell::Object(o));
            assert(m2.step(Instr::PushValue(index)) == Some(m3));
            lemma_run_one(m3, Instr::SetGlobal(c_bytes(name)));
            assert(m3.stack.drop_last() =~= m.stack);
        } else {
            assert(queued =~= seq![Instr::PushString(c_bytes(name))] + seq![
                Instr::SetField(index, key),
            ]);
            lemma_run_first(m, Instr::PushString(c_bytes(name)), seq![Instr::SetField(index, key)]);
            lemma_run_one(m1, Instr::SetField(index, key));
        }
    }
}

/// The machine `m` after a table has been created under `name` and
/// registered under the slot number `id`.
pub open spec fn with_new_table(m: Machine, name: Seq<char>, global: bool, id: i32) -> Machine {
    Machine {
        stack: m.stack,
        globals: if global && name.len() > 0 {
            m.globals.insert(c_bytes(name), Cell::Object(m.next))
        } else {
            m.globals
        },
        registry: m.registry.insert(id as int, Cell::Object(m.next)),
        heap: m.heap.insert(
            m.next,
            Object::Table {
                fields: if name.len() == 0 {
                    Map::<Seq<u8>, Cell>::empty()
                } else {
                    Map::<Seq<u8>, Cell>::empty().insert(
                        c_bytes("__name"@),
                        Cell::Text(c_bytes(name)),
                    )
                },
                meta: None,
            },
        ),
        next: m.next + 1,
        light_meta: m.light_meta,
        picks: m.picks.drop_first(),
    }
}

/// The first half of creating a table makes a new one, publishes it, and
/// leaves it to the registry under the slot number that the engine chose.
#[verifier::rlimit(40)]
pub proof fn lemma_create(m: Machine, name: Seq<char>, global: bool, id: i32)
    requires
        m.stack.len() + 2 <= LUAI_MAXSTACK,
        m.picks.len() >= 1,
        m.picks[0] == id,
        id > 0,
        !m.registry.contains_key(id as int),
    ensures
        m.run(create_instrs(name, global, m.stack.len() as int)) == Some(
            with_new_table(m, name, global, id),
        ),
{
    let top = m.stack.len() as int;
    let o = m.next;
    let m1 = m.allocated(Object::Table { fields: Map::empty(), meta: None });
    let published = publish_instrs(name, global, (top + 1) as i32);
    assert(create_instrs(name, global, top) =~= seq![Instr::CreateTable] + (published + seq![
        Instr::Ref,
    ]));
    lemma_run_first(m, Instr::CreateTable, published + seq![Instr::Ref]);
    assert(m.step(Instr::CreateTable) == Some(m1));
    lemma_run_concat(m1, published, seq![Instr::Ref]);
    lemma_publish(m1, name, global, o);
    let m2 = m1.run(published)->0;
    lemma_run_one(m2, Instr::Ref);
    assert(m2.stack.drop_last() =~= m.stack);
    assert(m2.heap =~= with_new_table(m, name, global, id).heap);
}

/// Creating a table makes a new one, known to the registry under the slot
/// number that the engine chose and to itself under `__ref`. A named
/// global table is bound under its name; any other table leaves the
/// globals as they were, so that no name leads to it. The stack is as deep
/// afterwards as it was before.
pub proof fn lemma_create_publishes(m: Machine, name: Seq<char>, global: bool, id: i32)
    requires
        m.wf(),
        m.stack.len() + 2 <= LUAI_MAXSTACK,
        m.picks.len() >= 1,
        m.picks[0] == id,
        id > 0,
        !m.registry.contains_key(id as int),
    ensures
        !m.heap.contains_key(m.next),
        m.run(
            create_instrs(name, global, m.stack.len() as int) + bind_instrs(
                id,
                m.stack.len() as int,
            ),
        ) == Some(with_table(m, name, global, id)),
        with_table(m, name, global, id).wf(),
{
    let top = m.stack.len() as int;
    let o = m.next;
    let created = with_new_table(m, name, global, id);
    lemma_create(m, name, global, id);
    lemma_run_concat(m, create_instrs(name, global, top), bind_instrs(id, top));
    lemma_bind(created, id, o);
    lemma_fresh_fields(name, id);
    assert(with_field(created, o, c_bytes("__ref"@), Cell::Integer(id as i64)).heap =~= with_table(
        m,
        name,
        global,
        id,
    ).heap);
}

/// The second half of creating a table records the slot number in the
/// table's `__ref` field.
pub proof fn lemma_bind(m: Machine, id: i32, o: int)
    requires
        m.stack.len() + 2 <= LUAI_MAXSTACK,
        lookup(m.registry, id as int) == Cell::Object(o),
        m.is_table(Cell::Object(o)),
        takes(m, o, c_bytes("__ref"@)),
    ensures
        m.run(bind_instrs(id, m.stack.len() as int)) == Some(
            with_field(m, o, c_bytes("__ref"@), Cell::Integer(id as i64)),
        ),
{
    let top = m.stack.len() as int;
    assert(bind_instrs(id, top) =~= set_instrs(id, "__ref"@, Value::Int(id), top));
    lemma_set(m, id, o, "__ref"@, Value::Int(id));
}

/// The two fields of a new table have different names.
proof fn lemma_fresh_fields(name: Seq<char>, id: i32)
    ensures
        c_bytes("__name"@) != c_bytes("__ref"@),
        fresh_fields(name, id) == (if name.len() == 0 {
            Map::<Seq<u8>, Cell>::empty()
        } else {
            Map::<Seq<u8>, Cell>::empty().insert(c_bytes("__name"@), Cell::Text(c_bytes(name)))
        }).insert(c_bytes("__ref"@), Cell::Integer(id as i64)),
{
    reveal_strlit("__name");
    reveal_strlit("__ref");
    crate::lua::lemma_ascii_crosses("__name"@);
    crate::lua::lemma_ascii_crosses("__ref"@);
}

/// Looking a published table up by its name finds the slot number that the
/// table keeps under `__ref`, so that every lookup of the same table
/// yields the same handle, for as long as the binding and the field stand.
pub proof fn lemma_find(m: Machine, name: Seq<char>, o: int, id: i32, slot: Slot)
    requires
        m.stack.len() + 2 <= LUAI_MAXSTACK,
        lookup(m.globals, c_bytes(name)) == Cell::Object(o),
        m.is_table(Cell::Object(o)),
        lookup(m.fields(o), c_bytes("__ref"@)) == Cell::Integer(id as i64),
        m.reports(Cell::Integer(id as i64), slot),
    ensures
        m.run(find_instrs(name, m.stack.len() as int)) == Some(
            m.pushed(Cell::Object(o)).pushed(Cell::Integer(id as i64)),
        ),
        m.pushed(Cell::Object(o)).pushed(Cell::Integer(id as i64)).run(
            seq![Instr::SetTop(-3i32)],
        ) == Some(m),
        integer_of::<i32>(slot, "int") == Ok::<i32, LunarError>(id),
{
    let top = m.stack.len() as int;
    let key = c_bytes("__ref"@);
    let m1 = m.pushed(Cell::Object(o));
    let m2 = m1.pushed(Cell::Integer(id as i64));
    assert(find_instrs(name, top) =~= seq![Instr::GetGlobal(c_bytes(name))] + seq![
        Instr::GetField((top + 1) as i32, key),
    ]);
    lemma_run_first(m, Instr::GetGlobal(c_bytes(name)), seq![Instr::GetField((top + 1) as i32, key)]);
    lemma_run_one(m1, Instr::GetField((top + 1) as i32, key));
    assert(m1.stack[top] == Cell::Object(o));
    lemma_run_one(m2, Instr::SetTop(-3i32));
    assert(m2.stack.take(top) =~= m.stack);
}

/// The machine `m` after the table `mt` has been attached to the table `o`
/// as its metatable.
pub open spec fn with_meta(m: Machine, o: int, mt: int) -> Machine {
    Machine {
        heap: m.heap.insert(o, Object::Table { fields: m.fields(o), meta: Some(mt) }),
        ..m
    }
}

/// Attaching a metatable through the two handles changes the metatable of
/// the one table and leaves the stack as deep as it was.
#[verifier::rlimit(40)]
pub proof fn lemma_set_metatable(m: Machine, table: i32, metatable: i32, o: int, mt: int)
    requires
        m.stack.len() + 2 <= LUAI_MAXSTACK,
        lookup(m.registry, table as int) == Cell::Object(o),
        lookup(m.registry, metatable as int) == Cell::Object(mt),
        m.is_table(Cell::Object(o)),
        m.is_table(Cell::Object(mt)),
    ensures
        m.run(set_metatable_instrs(table, metatable, m.stack.len() as int)) == Some(
            with_meta(m, o, mt),
        ),
{
    let top = m.stack.len() as int;
    let m1 = m.pushed(Cell::Object(o));
    let m2 = m1.pushed(Cell::Object(mt));
    let m3 = Machine { stack: m1.stack, ..with_meta(m, o, mt) };
    let rest = seq![
        Instr::RefPush(metatable),
        Instr::SetMetatable((top + 1) as i32),
        Instr::SetTop(-2i32),
    ];
    let rest2 = seq![Instr::SetMetatable((top + 1) as i32), Instr::SetTop(-2i32)];
    assert(set_metatable_instrs(table, metatable, top) =~= seq![Instr::RefPush(table)] + rest);
    lemma_run_first(m, Instr::RefPush(table), rest);
    assert(rest =~= seq![Instr::RefPush(metatable)] + rest2);
    lemma_run_first(m1, Instr::RefPush(metatable), rest2);
    assert(rest2 =~= seq![Instr::SetMetatable((top + 1) as i32)] + seq![Instr::SetTop(-2i32)]);
    lemma_run_first(m2, Instr::SetMetatable((top + 1) as i32), seq![Instr::SetTop(-2i32)]);
    assert(m2.stack[top] == Cell::Object(o));
    assert(m2.stack.drop_last() =~= m1.stack);
    assert(m2.set_metatable(top + 1) == Some(m3));
    lemma_run_one(m3, Instr::SetTop(-2i32));
    assert(m3.stack.take(top) =~= m.stack);
}

/// The machine `m` after the class with the class table `c` and the method
/// table `mt` has been sealed with the trap `trap`.
pub open spec fn sealed(m: Machine, c: int, mt: int, trap: Function) -> Machine {
    Machine {
        heap: m.heap.insert(
            mt,
            Object::Table {
                fields: m.fields(mt).insert(
                    c_bytes(MetaMethod::NewIndex.spec_name()),
                    Cell::Function(trap),
                ),
                meta: m.heap[mt]->Table_meta,
            },
        ).insert(
            c,
            Object::Table {
                fields: m.fields(c).insert(c_bytes("__index"@), Cell::Object(mt)),
                meta: Some(mt),
            },
        ),
        ..m
    }
}

/// Sealing a class puts the trap into the method table, and makes the
/// method table both the `__index` field and the metatable of the class
/// table. From then on an assignment to a field that the class table does
/// not have is no plain assignment any more: it goes to the trap. The
/// stack is as deep afterwards as it was before.
#[verifier::rlimit(40)]
pub proof fn lemma_seal(m: Machine, class: i32, methods: i32, c: int, mt: int, trap: Function)
    requires
        m.stack.len() + 3 <= LUAI_MAXSTACK,
        lookup(m.registry, class as int) == Cell::Object(c),
        lookup(m.registry, methods as int) == Cell::Object(mt),
        m.is_table(Cell::Object(c)),
        m.is_table(Cell::Object(mt)),
        c != mt,
        takes(m, mt, c_bytes(MetaMethod::NewIndex.spec_name())),
        m.fields(c).contains_key(c_bytes("__index"@)) || m.heap[c]->Table_meta is None,
    ensures
        m.run(seal_instrs(class, methods, trap, m.stack.len() as int)) == Some(
            sealed(m, c, mt, trap),
        ),
        sealed(m, c, mt, trap).hooked(c, c_bytes("__newindex"@)),
        forall|key: Seq<u8>|
            !sealed(m, c, mt, trap).fields(c).contains_key(key) ==> !takes(
                sealed(m, c, mt, trap),
                c,
                key,
            ),
{
    reveal_strlit("__newindex");
    let top = m.stack.len() as int;
    let nk = c_bytes(MetaMethod::NewIndex.spec_name());
    let ik = c_bytes("__index"@);
    let trapped = set_instrs(methods, MetaMethod::NewIndex.spec_name(), Value::Function(trap), top);
    let indexed = seq![
        Instr::RefPush(class),
        Instr::RefPush(methods),
        Instr::SetField((top + 1) as i32, ik),
    ];
    let attached = set_metatable_instrs(class, methods, top + 1);
    let last = seq![Instr::SetTop(-2i32)];
    let m1 = with_field(m, mt, nk, Cell::Function(trap));
    lemma_set(m, methods, mt, MetaMethod::NewIndex.spec_name(), Value::Function(trap));
    assert(seal_instrs(class, methods, trap, top) =~= trapped + (indexed + (attached + last)));
    lemma_run_concat(m, trapped, indexed + (attached + last));
    lemma_run_concat(m1, indexed, attached + last);
    let m2 = m1.pushed(Cell::Object(c));
    let m3 = m2.pushed(Cell::Object(mt));
    let m4 = Machine { stack: m2.stack, ..with_field(m1, c, ik, Cell::Object(mt)) };
    let tail = seq![Instr::RefPush(methods), Instr::SetField((top + 1) as i32, ik)];
    assert(indexed =~= seq![Instr::RefPush(class)] + tail);
    lemma_run_first(m1, Instr::RefPush(class), tail);
    assert(tail =~= seq![Instr::RefPush(methods)] + seq![Instr::SetField((top + 1) as i32, ik)]);
    lemma_run_first(m2, Instr::RefPush(methods), seq![Instr::SetField((top + 1) as i32, ik)]);
    lemma_run_one(m3, Instr::SetField((top + 1) as i32, ik));
    assert(m3.stack[top] == Cell::Object(c));
    assert(m3.stack.drop_last() =~= m2.stack);
    assert(m3.set_field(top + 1, ik) == Some(m4));
    lemma_run_concat(m4, attached, last);
    lemma_set_metatable(m4, class, methods, c, mt);
    let m5 = with_meta(m4, c, mt);
    lemma_run_one(m5, Instr::SetTop(-2i32));
    assert(m5.stack.take(top) =~= m.stack);
    assert(m5.heap =~= sealed(m, c, mt, trap).heap);
}

/// A boxed value that is pushed under the name of a published type comes
/// back by its handle, and passes the check for that type: the cell that
/// the engine makes for it carries the type's table as its metatable, and
/// whatever the engine reports of the cell names the type.
pub proof fn lemma_push_userdata_then_check(
    m: Machine,
    name: &'static str,
    handle: u64,
    size: usize,
    c: int,
    slot: Slot,
)
    requires
        m.wf(),
        m.stack.len() + 2 <= LUAI_MAXSTACK,
        name@.len() > 0,
        lookup(m.globals, c_bytes(name@)) == Cell::Object(c),
        m.is_table(Cell::Object(c)),
        lookup(m.fields(c), c_bytes("__name"@)) == Cell::Text(c_bytes(name@)),
        with_userdata(m, handle, size, c).reports(Cell::Object(m.next), slot),
    ensures
        m.run(push_instrs(Value::Userdata(name, handle, size), m.stack.len() as int)) == Some(
            with_userdata(m, handle, size, c),
        ),
        userdata_of(slot) == Ok::<u64, LunarError>(handle),
        checked_userdata_of(slot, c_bytes(name@)) == Some(handle),
{
    let top = m.stack.len() as int;
    let value = Value::Userdata(name, handle, size);
    let key = c_bytes(name@);
    let m1 = m.allocated(Object::Userdata { handle, size, meta: None });
    let m2 = m1.pushed(Cell::Object(c));
    let rest = seq![Instr::GetGlobal(key), Instr::SetMetatable((top + 1) as i32)];
    assert(push_instrs(value, top) =~= seq![Instr::NewUserdata(handle, size)] + rest);
    lemma_run_first(m, Instr::NewUserdata(handle, size), rest);
    assert(rest =~= seq![Instr::GetGlobal(key)] + seq![Instr::SetMetatable((top + 1) as i32)]);
    lemma_run_first(m1, Instr::GetGlobal(key), seq![Instr::SetMetatable((top + 1) as i32)]);
    lemma_run_one(m2, Instr::SetMetatable((top + 1) as i32));
    assert(m2.stack[top] == Cell::Object(m.next));
    assert(m2.stack.drop_last() =~= m1.stack);
    assert(m2.set_metatable(top + 1)->0.heap =~= with_userdata(m, handle, size, c).heap);
}

/// The machine `m` after a userdata cell for `handle` has been made, given
/// the table `c` as its metatable, and left on top of the stack.
pub open spec fn with_userdata(m: Machine, handle: u64, size: usize, c: int) -> Machine {
    Machine {
        stack: m.stack.push(Cell::Object(m.next)),
        heap: m.heap.insert(m.next, Object::Userdata { handle, size, meta: Some(c) }),
        next: m.next + 1,
        ..m
    }
}

/// Releasing a handle empties its registry slot, which the engine is then
/// free to choose again, and touches nothing else. The numbers below zero
/// stand for no slot, and releasing one of them does nothing.
pub proof fn lemma_release(m: Machine, id: i32)
    ensures
        m.run(seq![Instr::Unref(id)]) == Some(
            if id >= 0 {
                Machine { registry: m.registry.remove(id as int), ..m }
            } else {
                m
            },
        ),
        id >= 0 ==> lookup(m.registry.remove(id as int), id as int) == Cell::Nil,
{
    lemma_run_one(m, Instr::Unref(id));
}

} // verus!
