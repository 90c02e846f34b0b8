//! The reference semantics of the engine's operations: what each of them
//! does to the stack, the globals, the registry and the tables, as the
//! engine's manual gives it. The laws of the bridge are stated against it.
//!
//! Running scripts is outside it, and so are the hooks of a metatable: an
//! operation that would run either has no meaning here.

use vstd::prelude::*;
use crate::lua::{c_bytes, Instr, Slot, LUAI_MAXSTACK};

verus! {

/// A value of the engine.
pub enum Cell {
    Nil,
    Bool(bool),
    Integer(i64),
    /// A floating-point number, by its bits.
    Float(u64),
    Text(Seq<u8>),
    LightUserdata(usize),
    /// A host callback.
    Function(usize),
    /// A table or a userdata cell, by its identity.
    Object(int),
}

/// What the engine keeps behind an identity.
pub enum Object {
    Table { fields: Map<Seq<u8>, Cell>, meta: Option<int> },
    Userdata { handle: u64, size: usize, meta: Option<int> },
}

/// The state of one engine instance.
pub struct Machine {
    pub stack: Seq<Cell>,
    pub globals: Map<Seq<u8>, Cell>,
    pub registry: Map<int, Cell>,
    pub heap: Map<int, Object>,
    /// The identity that the next new object gets.
    pub next: int,
    /// The metatable that all raw addresses share.
    pub light_meta: Option<int>,
    /// The slot numbers that the engine will choose for the registrations
    /// to come, the next one first.
    pub picks: Seq<int>,
}

/// The value under `key`, which is nil where the map holds none.
pub open spec fn lookup<K>(map: Map<K, Cell>, key: K) -> Cell {
    if map.contains_key(key) {
        map[key]
    } else {
        Cell::Nil
    }
}

/// The map after `value` has been assigned to `key`; assigning nil
/// removes the key.
pub open spec fn assign<K>(map: Map<K, Cell>, key: K, value: Cell) -> Map<K, Cell> {
    if value is Nil {
        map.remove(key)
    } else {
        map.insert(key, value)
    }
}

/// The position, counted from zero, that stack index `index` addresses on
/// a stack of `len` values.
pub open spec fn resolve(len: int, index: int) -> Option<int> {
    if 1 <= index <= len {
        Some(index - 1)
    } else if -len <= index <= -1 {
        Some(len + index)
    } else {
        None
    }
}

impl Machine {
    /// Whether the table `o` has a metatable that holds the hook `hook`.
    pub open spec fn hooked(self, o: int, hook: Seq<u8>) -> bool {
        &&& self.heap.contains_key(o)
        &&& self.heap[o] matches Object::Table { meta: Some(mt), .. }
        &&& self.heap.contains_key(mt)
        &&& self.heap[mt] matches Object::Table { fields, .. }
        &&& fields.contains_key(hook)
    }

    /// Whether `cell` is a table that the heap holds.
    pub open spec fn is_table(self, cell: Cell) -> bool {
        &&& cell matches Cell::Object(o)
        &&& self.heap.contains_key(o)
        &&& self.heap[o] is Table
    }

    /// The fields of the table `o`.
    pub open spec fn fields(self, o: int) -> Map<Seq<u8>, Cell> {
        self.heap[o]->fields
    }

    /// The machine with `cell` pushed.
    pub open spec fn pushed(self, cell: Cell) -> Machine {
        Machine { stack: self.stack.push(cell), ..self }
    }

    /// The machine with the top value popped.
    pub open spec fn popped(self) -> Machine {
        Machine { stack: self.stack.drop_last(), ..self }
    }

    /// The machine with a new object on the heap and on the stack.
    pub open spec fn allocated(self, object: Object) -> Machine {
        Machine {
            stack: self.stack.push(Cell::Object(self.next)),
            heap: self.heap.insert(self.next, object),
            next: self.next + 1,
            ..self
        }
    }

    /// The machine after the assignment `t[name] = v`, where `v` is the top
    /// value and `t` the value at stack index `index`; the value is
    /// popped. The assignment has no meaning here unless `t` is a table,
    /// and none where it would run the table's hook for new fields.
    pub open spec fn set_field(self, index: int, name: Seq<u8>) -> Option<Machine> {
        if self.stack.len() >= 1 && resolve(self.stack.len() as int, index) is Some {
            let target = self.stack[resolve(self.stack.len() as int, index)->0];
            let value = self.stack.last();
            if self.is_table(target) {
                let o = target->Object_0;
                if !self.fields(o).contains_key(name) && self.hooked(o, c_bytes("__newindex"@)) {
                    None
                } else {
                    Some(
                        Machine {
                            stack: self.stack.drop_last(),
                            heap: self.heap.insert(
                                o,
                                Object::Table {
                                    fields: assign(self.fields(o), name, value),
                                    meta: self.heap[o]->Table_meta,
                                },
                            ),
                            ..self
                        },
                    )
                }
            } else {
                None
            }
        } else {
            None
        }
    }

    /// The machine after the push of `t[name]`, where `t` is the value at
    /// stack index `index`. The read has no meaning here unless `t` is a
    /// table, and none where it would run the table's hook for missing
    /// fields.
    pub open spec fn get_field(self, index: int, name: Seq<u8>) -> Option<Machine> {
        if resolve(self.stack.len() as int, index) is Some {
            let target = self.stack[resolve(self.stack.len() as int, index)->0];
            if self.is_table(target) {
                let o = target->Object_0;
                if !self.fields(o).contains_key(name) && self.hooked(o, c_bytes("__index"@)) {
                    None
                } else {
                    Some(self.pushed(lookup(self.fields(o), name)))
                }
            } else {
                None
            }
        } else {
            None
        }
    }

    /// The machine after the top value, a table or nil, has been attached
    /// as the metatable of the value at stack index `index` and popped.
    pub open spec fn set_metatable(self, index: int) -> Option<Machine> {
        if self.stack.len() >= 1 && resolve(self.stack.len() as int, index) is Some && (
        self.stack.last() is Nil || self.is_table(self.stack.last())) {
            let target = self.stack[resolve(self.stack.len() as int, index)->0];
            let meta = if self.stack.last() is Nil {
                None
            } else {
                Some(self.stack.last()->Object_0)
            };
            match target {
                Cell::Object(o) => if self.heap.contains_key(o) {
                    let object = match self.heap[o] {
                        Object::Table { fields, .. } => Object::Table { fields, meta },
                        Object::Userdata { handle, size, .. } => Object::Userdata {
                            handle,
                            size,
                            meta,
                        },
                    };
                    Some(
                        Machine {
                            stack: self.stack.drop_last(),
                            heap: self.heap.insert(o, object),
                            ..self
                        },
                    )
                } else {
                    None
                },
                Cell::LightUserdata(_) => Some(
                    Machine { stack: self.stack.drop_last(), light_meta: meta, ..self },
                ),
                _ => None,
            }
        } else {
            None
        }
    }

    /// The machine after the stack has been cut or filled with nil to the
    /// depth that stack index `index` names.
    pub open spec fn set_top(self, index: int) -> Option<Machine> {
        let len = self.stack.len() as int;
        let depth = if index >= 0 {
            index
        } else {
            len + index + 1
        };
        if 0 <= depth <= len {
            Some(Machine { stack: self.stack.take(depth), ..self })
        } else if len < depth <= LUAI_MAXSTACK {
            Some(
                Machine {
                    stack: self.stack + Seq::new((depth - len) as nat, |i: int| Cell::Nil),
                    ..self
                },
            )
        } else {
            None
        }
    }

    /// The machine after the top value has been moved into the registry
    /// under the slot number of the engine's choosing: a number above zero
    /// that the registry does not hold yet or, for nil, the number that
    /// stands for nil, with the registry as it was.
    pub open spec fn register(self) -> Option<Machine> {
        if self.stack.len() >= 1 && self.picks.len() >= 1 {
            let pick = self.picks[0];
            if self.stack.last() is Nil {
                if pick == -1 {
                    Some(
                        Machine {
                            stack: self.stack.drop_last(),
                            picks: self.picks.drop_first(),
                            ..self
                        },
                    )
                } else {
                    None
                }
            } else if pick > 0 && !self.registry.contains_key(pick) {
                Some(
                    Machine {
                        stack: self.stack.drop_last(),
                        registry: self.registry.insert(pick, self.stack.last()),
                        picks: self.picks.drop_first(),
                        ..self
                    },
                )
            } else {
                None
            }
        } else {
            None
        }
    }

    /// Whether the stack has room for one more value.
    pub open spec fn has_room(self) -> bool {
        self.stack.len() < LUAI_MAXSTACK
    }

    /// The machine after the operation `instr`, where the operation has a
    /// meaning here.
    pub open spec fn step(self, instr: Instr) -> Option<Machine> {
        match instr {
            Instr::PushNil => if self.has_room() {
                Some(self.pushed(Cell::Nil))
            } else {
                None
            },
            Instr::PushBoolean(b) => if self.has_room() {
                Some(self.pushed(Cell::Bool(b)))
            } else {
                None
            },
            Instr::PushInteger(i) => if self.has_room() {
                Some(self.pushed(Cell::Integer(i)))
            } else {
                None
            },
            Instr::PushNumber(bits) => if self.has_room() {
                Some(self.pushed(Cell::Float(bits)))
            } else {
                None
            },
            Instr::PushString(bytes) => if self.has_room() {
                Some(self.pushed(Cell::Text(bytes)))
            } else {
                None
            },
            Instr::PushLightUserdata(address) => if self.has_room() {
                Some(self.pushed(Cell::LightUserdata(address)))
            } else {
                None
            },
            Instr::PushFunction(f) => if self.has_room() {
                Some(self.pushed(Cell::Function(f)))
            } else {
                None
            },
            Instr::NewUserdata(handle, size) => if self.has_room() {
                Some(self.allocated(Object::Userdata { handle, size, meta: None }))
            } else {
                None
            },
            Instr::PushValue(index) => if self.has_room() && resolve(
                self.stack.len() as int,
                index as int,
            ) is Some {
                Some(self.pushed(self.stack[resolve(self.stack.len() as int, index as int)->0]))
            } else {
                None
            },
            Instr::CreateTable => if self.has_room() {
                Some(self.allocated(Object::Table { fields: Map::empty(), meta: None }))
            } else {
                None
            },
            Instr::GetGlobal(name) => if self.has_room() {
                Some(self.pushed(lookup(self.globals, name)))
            } else {
                None
            },
            Instr::SetGlobal(name) => if self.stack.len() >= 1 {
                Some(
                    Machine {
                        stack: self.stack.drop_last(),
                        globals: assign(self.globals, name, self.stack.last()),
                        ..self
                    },
                )
            } else {
                None
            },
            Instr::GetField(index, name) => if self.has_room() {
                self.get_field(index as int, name)
            } else {
                None
            },
            Instr::SetField(index, name) => self.set_field(index as int, name),
            Instr::SetMetatable(index) => self.set_metatable(index as int),
            Instr::SetTop(index) => self.set_top(index as int),
            Instr::Ref => self.register(),
            Instr::RefPush(id) => if self.has_room() {
                Some(self.pushed(lookup(self.registry, id as int)))
            } else {
                None
            },
            Instr::Unref(id) => if id >= 0 {
                Some(Machine { registry: self.registry.remove(id as int), ..self })
            } else {
                Some(self)
            },
            Instr::LoadString(_) => None,
            Instr::ProtectedCall(_, _) => None,
            Instr::OpenLibs => None,
        }
    }

    /// The machine after the operations `instrs`, first to last, where all
    /// of them have a meaning here.
    pub open spec fn run(self, instrs: Seq<Instr>) -> Option<Machine>
        decreases instrs.len(),
    {
        if instrs.len() == 0 {
            Some(self)
        } else {
            match self.step(instrs[0]) {
                Some(next) => next.run(instrs.drop_first()),
                None => None,
            }
        }
    }

    /// What holds of every state that the engine reaches: identities are
    /// handed out in order, so the next one is new.
    pub open spec fn wf(self) -> bool {
        forall|o: int| self.heap.contains_key(o) ==> o < self.next
    }

    /// The name that the object `o` goes by: the text under the `__name`
    /// field of a table, or of the metatable of a userdata cell, and
    /// nothing where there is none.
    pub open spec fn name_of(self, o: int) -> Seq<u8> {
        match self.heap[o] {
            Object::Table { fields, .. } => match lookup(fields, c_bytes("__name"@)) {
                Cell::Text(bytes) => bytes,
                _ => Seq::empty(),
            },
            Object::Userdata { meta: Some(mt), .. } => if self.heap.contains_key(mt)
                && self.heap[mt] is Table {
                match lookup(self.fields(mt), c_bytes("__name"@)) {
                    Cell::Text(bytes) => bytes,
                    _ => Seq::empty(),
                }
            } else {
                Seq::empty()
            },
            Object::Userdata { meta: None, .. } => Seq::empty(),
        }
    }

    /// Whether `slot` is a report that the engine can give of `cell`.
    pub open spec fn reports(self, cell: Cell, slot: Slot) -> bool {
        match cell {
            Cell::Nil => slot == Slot::Nil,
            Cell::Bool(b) => slot == Slot::Bool(b),
            Cell::Integer(i) => slot matches Slot::Number(Some(j), _) && i == j,
            Cell::Float(bits) => slot matches Slot::Number(_, b) && bits == b,
            Cell::Text(bytes) => slot matches Slot::Text(b) && bytes == b@,
            Cell::LightUserdata(address) => slot == Slot::LightUserdata(address),
            Cell::Function(_) => slot == Slot::Function,
            Cell::Object(o) => self.heap.contains_key(o) && match self.heap[o] {
                Object::Table { .. } => slot matches Slot::Table(name) && name@ == self.name_of(o),
                Object::Userdata { handle, .. } => slot matches Slot::Userdata(h, name) && h
                    == handle && name@ == self.name_of(o),
            },
        }
    }
}

/// Running nothing leaves the machine as it is.
pub proof fn lemma_run_none(m: Machine)
    ensures
        m.run(seq![]) == Some(m),
{
}

/// Running one operation is one step.
pub proof fn lemma_run_one(m: Machine, a: Instr)
    ensures
        m.run(seq![a]) == m.step(a),
{
    reveal_with_fuel(Machine::run, 2);
    assert(seq![a].drop_first() =~= Seq::<Instr>::empty());
}

/// Running a sequence that begins with `a` is the step `a`, and then the
/// rest.
pub proof fn lemma_run_first(m: Machine, a: Instr, rest: Seq<Instr>)
    ensures
        m.run(seq![a] + rest) == match m.step(a) {
            Some(next) => next.run(rest),
            None => None,
        },
{
    assert((seq![a] + rest).drop_first() =~= rest);
}

/// Running two sequences one after the other is running the one that
/// joins them.
pub proof fn lemma_run_concat(m: Machine, a: Seq<Instr>, b: Seq<Instr>)
    ensures
        m.run(a + b) == match m.run(a) {
            Some(next) => next.run(b),
            None => None,
        },
    decreases a.len(),
{
    if a.len() == 0 {
        assert(a + b =~= b);
    } else {
        assert((a + b).drop_first() =~= a.drop_first() + b);
        assert((a + b)[0] == a[0]);
        match m.step(a[0]) {
            Some(next) => {
                lemma_run_concat(next, a.drop_first(), b);
            },
            None => {},
        }
    }
}

} // verus!
