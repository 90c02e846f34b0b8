//! The queued operations, performed on a small stand-in for the engine:
//! a stack, globals, a registry and tables, with no scripts and no hooks.

use std::collections::HashMap;

use lunar::context::{LunarContext, Userdata, Value};
use lunar::lua::{LunarError, Op, Slot};
use lunar::lunar::Lunar;
use lunar::table::Table;
use lunar::userdata::Arena;

#[derive(Debug, Clone, PartialEq)]
enum Cell {
    Nil,
    Bool(bool),
    Integer(i64),
    Float(u64),
    Text(Vec<u8>),
    Light(usize),
    Function(usize),
    Object(usize),
}

#[derive(Debug, Clone)]
enum Object {
    Table { fields: HashMap<Vec<u8>, Cell>, meta: Option<usize> },
    Userdata { handle: u64, meta: Option<usize> },
}

#[derive(Debug, Default)]
struct Engine {
    stack: Vec<Cell>,
    globals: HashMap<Vec<u8>, Cell>,
    registry: HashMap<i32, Cell>,
    heap: Vec<Object>,
    last_ref: i32,
}

fn assign<K: std::hash::Hash + Eq>(map: &mut HashMap<K, Cell>, key: K, value: Cell) {
    if value == Cell::Nil {
        map.remove(&key);
    } else {
        map.insert(key, value);
    }
}

impl Engine {
    fn position(&self, index: i32) -> usize {
        let len = self.stack.len() as i32;
        if 1 <= index && index <= len {
            (index - 1) as usize
        } else if -len <= index && index <= -1 {
            (len + index) as usize
        } else {
            panic!("no value at index {index}")
        }
    }

    fn table(&self, cell: &Cell) -> usize {
        match cell {
            Cell::Object(o) if matches!(self.heap[*o], Object::Table { .. }) => *o,
            other => panic!("{other:?} is no table"),
        }
    }

    fn perform(&mut self, op: &Op) -> Option<i32> {
        match op {
            Op::PushNil => self.stack.push(Cell::Nil),
            Op::PushBoolean(b) => self.stack.push(Cell::Bool(*b)),
            Op::PushInteger(i) => self.stack.push(Cell::Integer(*i)),
            Op::PushNumber(bits) => self.stack.push(Cell::Float(*bits)),
            Op::PushString(bytes) => self.stack.push(Cell::Text(bytes.clone())),
            Op::PushLightUserdata(address) => self.stack.push(Cell::Light(*address)),
            Op::PushFunction(f) => self.stack.push(Cell::Function(*f)),
            Op::NewUserdata(handle, _) => {
                self.heap.push(Object::Userdata { handle: *handle, meta: None });
                self.stack.push(Cell::Object(self.heap.len() - 1));
            }
            Op::PushValue(index) => {
                let cell = self.stack[self.position(*index)].clone();
                self.stack.push(cell);
            }
            Op::CreateTable => {
                self.heap.push(Object::Table { fields: HashMap::new(), meta: None });
                self.stack.push(Cell::Object(self.heap.len() - 1));
            }
            Op::GetGlobal(name) => {
                self.stack.push(self.globals.get(name).cloned().unwrap_or(Cell::Nil));
            }
            Op::SetGlobal(name) => {
                let value = self.stack.pop().unwrap();
                assign(&mut self.globals, name.clone(), value);
            }
            Op::GetField(index, name) => {
                let o = self.table(&self.stack[self.position(*index)]);
                let Object::Table { fields, .. } = &self.heap[o] else { unreachable!() };
                let cell = fields.get(name).cloned().unwrap_or(Cell::Nil);
                self.stack.push(cell);
            }
            Op::SetField(index, name) => {
                let o = self.table(&self.stack[self.position(*index)]);
                let value = self.stack.pop().unwrap();
                let Object::Table { fields, .. } = &mut self.heap[o] else { unreachable!() };
                assign(fields, name.clone(), value);
            }
            Op::SetMetatable(index) => {
                let target = self.stack[self.position(*index)].clone();
                let attached = match self.stack.pop().unwrap() {
                    Cell::Nil => None,
                    cell => Some(self.table(&cell)),
                };
                if let Cell::Object(o) = target {
                    match &mut self.heap[o] {
                        Object::Table { meta, .. } => *meta = attached,
                        Object::Userdata { meta, .. } => *meta = attached,
                    }
                }
            }
            Op::SetTop(index) => {
                let len = self.stack.len() as i32;
                let depth = if *index >= 0 { *index } else { len + index + 1 };
                assert!(depth >= 0);
                self.stack.resize(depth as usize, Cell::Nil);
            }
            Op::Ref => {
                let value = self.stack.pop().unwrap();
                if value == Cell::Nil {
                    return Some(-1);
                }
                self.last_ref += 1;
                self.registry.insert(self.last_ref, value);
                return Some(self.last_ref);
            }
            Op::RefPush(id) => {
                self.stack.push(self.registry.get(id).cloned().unwrap_or(Cell::Nil));
            }
            Op::Unref(id) => {
                self.registry.remove(id);
            }
            Op::OpenLibs => {}
            other => panic!("{other:?} runs a script"),
        }
        None
    }

    /// Performs what `ctx` has queued, and gives the last slot number that
    /// a registration returned.
    fn flush(&mut self, ctx: &mut LunarContext) -> Option<i32> {
        let mut slot = None;
        for op in ctx.take_ops() {
            if let Some(id) = self.perform(&op) {
                slot = Some(id);
            }
        }
        assert_eq!(self.stack.len() as i32, ctx.stack_size());
        slot
    }

    fn name_of(&self, o: usize) -> Vec<u8> {
        let fields = match &self.heap[o] {
            Object::Table { fields, .. } => fields,
            Object::Userdata { meta: Some(mt), .. } => match &self.heap[*mt] {
                Object::Table { fields, .. } => fields,
                _ => return Vec::new(),
            },
            Object::Userdata { meta: None, .. } => return Vec::new(),
        };
        match fields.get(b"__name".as_slice()) {
            Some(Cell::Text(bytes)) => bytes.clone(),
            _ => Vec::new(),
        }
    }

    fn report(&self, index: i32) -> Slot {
        let len = self.stack.len() as i32;
        if !((1 <= index && index <= len) || (-len <= index && index <= -1)) {
            return Slot::Absent;
        }
        match &self.stack[self.position(index)] {
            Cell::Nil => Slot::Nil,
            Cell::Bool(b) => Slot::Bool(*b),
            Cell::Integer(i) => Slot::Number(Some(*i), (*i as f64).to_bits()),
            Cell::Float(bits) => {
                let float = f64::from_bits(*bits);
                let exact = float.fract() == 0.0 && float.abs() < 9.0e18;
                Slot::Number(if exact { Some(float as i64) } else { None }, *bits)
            }
            Cell::Text(bytes) => Slot::Text(bytes.clone()),
            Cell::Light(address) => Slot::LightUserdata(*address),
            Cell::Function(_) => Slot::Function,
            Cell::Object(o) => match &self.heap[*o] {
                Object::Table { .. } => Slot::Table(self.name_of(*o)),
                Object::Userdata { handle, .. } => Slot::Userdata(*handle, self.name_of(*o)),
            },
        }
    }

    fn frame(&self) -> Vec<Slot> {
        (1..=self.stack.len() as i32).map(|index| self.report(index)).collect()
    }
}

/// Pushes `value`, lets the engine perform, and opens a bridge over what
/// the engine then reports.
fn pushed(value: Value) -> (Engine, LunarContext) {
    let mut engine = Engine::default();
    let mut ctx = LunarContext::new(vec![]);
    assert_eq!(ctx.push(value), Ok(()));
    engine.flush(&mut ctx);
    let ctx = LunarContext::new(engine.frame());
    (engine, ctx)
}

fn new_table(engine: &mut Engine, ctx: &mut LunarContext, name: &str, global: bool) -> Table {
    assert_eq!(Table::new(ctx, name, global), Ok(()));
    let id = engine.flush(ctx).unwrap();
    let table = Table::bind(ctx, id);
    engine.flush(ctx);
    table
}

fn fetch(engine: &mut Engine, ctx: &mut LunarContext, table: &Table, field: &str) -> Slot {
    let index = table.fetch(ctx, field).unwrap();
    engine.flush(ctx);
    engine.report(index)
}

#[test]
fn push_then_get_boolean() {
    for b in [true, false] {
        let (_, ctx) = pushed(Value::Bool(b));
        assert_eq!(ctx.get_boolean(1), Ok(b));
    }
}

#[test]
fn push_then_get_integers() {
    for i in [0, 1, -1, 75, i32::MAX, i32::MIN] {
        let (_, ctx) = pushed(Value::Int(i));
        assert_eq!(ctx.get_int::<i32>(1), Ok(i));
        assert_eq!(ctx.get_int::<i32>(-1), Ok(i));
    }
    for u in [0, 1, 1166, u32::MAX] {
        let (_, ctx) = pushed(Value::Uint(u));
        assert_eq!(ctx.get_uint::<u32>(1), Ok(u));
    }
    for i in [0, -1, i64::MAX, i64::MIN] {
        let (_, ctx) = pushed(Value::Long(i));
        assert_eq!(ctx.get_long(1), Ok(i));
    }
}

#[test]
fn push_then_get_float() {
    for f in [0.0f64, 1.5, -2.25, 1.0e300, f64::INFINITY] {
        let (_, ctx) = pushed(Value::Float(f.to_bits()));
        assert_eq!(ctx.get_float(1).map(f64::from_bits), Ok(f));
    }
}

#[test]
fn push_then_get_string() {
    for text in ["", "Hello World!", "día", "日本語"] {
        let (_, ctx) = pushed(Value::String(text.to_string()));
        assert_eq!(ctx.get_string(1), Ok(text.to_string()));
    }
}

#[test]
fn getters_refuse_other_categories() {
    let (engine, ctx) = pushed(Value::Int(7));
    assert_eq!(ctx.get_string(1), Err(LunarError::TypeMismatch("string")));
    assert_eq!(ctx.get_boolean(1), Err(LunarError::TypeMismatch("bool")));
    assert_eq!(ctx.get_userdata(1), Err(LunarError::TypeMismatch("userdata")));
    assert_eq!(ctx.stack_size(), 1);
    assert_eq!(engine.stack.len(), 1);

    let (_, ctx) = pushed(Value::String("7".to_string()));
    assert_eq!(ctx.get_int::<i32>(1), Err(LunarError::TypeMismatch("int")));
    assert_eq!(ctx.get_uint::<u32>(1), Err(LunarError::TypeMismatch("uint")));
    assert_eq!(ctx.get_long(1), Err(LunarError::TypeMismatch("long")));
    assert_eq!(ctx.get_float(1), Err(LunarError::TypeMismatch("float")));
    assert_eq!(ctx.get_boolean(1), Err(LunarError::TypeMismatch("bool")));
    assert_eq!(ctx.stack_size(), 1);

    let (_, ctx) = pushed(Value::Bool(true));
    assert_eq!(ctx.get_int::<i32>(1), Err(LunarError::TypeMismatch("int")));
    assert_eq!(ctx.get_string(1), Err(LunarError::TypeMismatch("string")));
    assert_eq!(ctx.stack_size(), 1);

    let (_, ctx) = pushed(Value::Nil);
    assert_eq!(ctx.get_boolean(1), Err(LunarError::TypeMismatch("bool")));
    assert_eq!(ctx.get_string(2), Err(LunarError::TypeMismatch("string")));
}

#[test]
fn table_field_round_trip() {
    let mut engine = Engine::default();
    let mut ctx = LunarContext::new(vec![]);
    let table = new_table(&mut engine, &mut ctx, "", false);

    assert_eq!(table.set(&mut ctx, "flag", Value::Bool(true)), Ok(()));
    assert_eq!(table.set(&mut ctx, "count", Value::Int(-12)), Ok(()));
    assert_eq!(table.set(&mut ctx, "label", Value::String("Hello Lunar!".to_string())), Ok(()));
    engine.flush(&mut ctx);
    assert_eq!(engine.stack.len(), 0);

    let found = fetch(&mut engine, &mut ctx, &table, "flag");
    assert_eq!(table.get_boolean(&mut ctx, &found), Ok(true));
    engine.flush(&mut ctx);
    let found = fetch(&mut engine, &mut ctx, &table, "count");
    assert_eq!(table.get_int::<i32>(&mut ctx, &found), Ok(-12));
    engine.flush(&mut ctx);
    let found = fetch(&mut engine, &mut ctx, &table, "label");
    assert_eq!(table.get_string(&mut ctx, &found), Ok("Hello Lunar!".to_string()));
    engine.flush(&mut ctx);
    assert_eq!(engine.stack.len(), 0);
    let found = fetch(&mut engine, &mut ctx, &table, "label");
    assert_eq!(table.get_long(&mut ctx, &found), Err(LunarError::TypeMismatch("long")));
    engine.flush(&mut ctx);
    assert_eq!(engine.stack.len(), 0);
    let found = fetch(&mut engine, &mut ctx, &table, "count");
    assert_eq!(table.get_string(&mut ctx, &found), Err(LunarError::TypeMismatch("string")));
    engine.flush(&mut ctx);
    assert_eq!(engine.stack.len(), 0);

    let found = fetch(&mut engine, &mut ctx, &table, "missing");
    assert_eq!(found, Slot::Nil);
    assert_eq!(table.get_uint(&mut ctx, &found), Err(LunarError::TypeMismatch("uint")));
    engine.flush(&mut ctx);
    assert_eq!(engine.stack.len(), 0);
}

#[test]
fn global_tables_are_visible_and_others_are_not() {
    let mut engine = Engine::default();
    let mut ctx = LunarContext::new(vec![]);
    let global = new_table(&mut engine, &mut ctx, "T", true);
    assert_eq!(engine.globals.get(b"T".as_slice()), engine.registry.get(&global.id()));
    assert!(matches!(engine.globals.get(b"T".as_slice()), Some(Cell::Object(_))));

    let local = new_table(&mut engine, &mut ctx, "U", false);
    assert!(engine.registry.contains_key(&local.id()));
    assert_eq!(engine.globals.get(b"U".as_slice()), None);
    assert_eq!(engine.globals.len(), 1);

    let nameless = new_table(&mut engine, &mut ctx, "", true);
    assert!(engine.registry.contains_key(&nameless.id()));
    assert_eq!(engine.globals.len(), 1);
    assert_eq!(engine.stack.len(), 0);
}

#[test]
fn lookups_by_name_alias_one_table() {
    let mut engine = Engine::default();
    let mut ctx = LunarContext::new(vec![]);
    let published = new_table(&mut engine, &mut ctx, "Shared", true);

    let mut reopen = |engine: &mut Engine, ctx: &mut LunarContext| {
        let index = Table::find(ctx, "Shared").unwrap();
        engine.flush(ctx);
        let found = engine.report(index);
        let table = Table::from(ctx, &found).unwrap();
        engine.flush(ctx);
        table
    };
    let first = reopen(&mut engine, &mut ctx);
    let second = reopen(&mut engine, &mut ctx);
    assert_eq!(first, second);
    assert_eq!(first, published);

    assert_eq!(first.set(&mut ctx, "value", Value::Int(32)), Ok(()));
    engine.flush(&mut ctx);
    let found = fetch(&mut engine, &mut ctx, &second, "value");
    assert_eq!(second.get_int::<i32>(&mut ctx, &found), Ok(32));
    engine.flush(&mut ctx);
    assert_eq!(engine.stack.len(), 0);
}

#[test]
fn lookup_of_what_is_no_published_table_is_refused() {
    let mut engine = Engine::default();
    let mut ctx = LunarContext::new(vec![]);

    // A global table that was made behind the bridge's back carries no slot number.
    engine.perform(&Op::CreateTable);
    engine.perform(&Op::SetGlobal(b"Broken".to_vec()));
    let index = Table::find(&mut ctx, "Broken").unwrap();
    engine.flush(&mut ctx);
    let found = engine.report(index);
    assert_eq!(found, Slot::Nil);
    assert_eq!(Table::from(&mut ctx, &found), Err(LunarError::TypeMismatch("int")));
    engine.flush(&mut ctx);
    assert_eq!(engine.stack.len(), 0);

    // So does a published table whose field was overwritten with a number too large.
    let table = new_table(&mut engine, &mut ctx, "Shared", true);
    assert_eq!(table.set(&mut ctx, "__ref", Value::Long(1 << 40)), Ok(()));
    let index = Table::find(&mut ctx, "Shared").unwrap();
    engine.flush(&mut ctx);
    let found = engine.report(index);
    assert_eq!(Table::from(&mut ctx, &found), Err(LunarError::Overflow));
    engine.flush(&mut ctx);
    assert_eq!(engine.stack.len(), 0);
}

#[test]
fn point_fields_add_up() {
    let mut engine = Engine::default();
    let mut lunar = Lunar::new(0x1000);
    assert_eq!(lunar.create_table("Point", true), Ok(()));
    let id = engine.flush(&mut lunar.ctx).unwrap();
    let point = lunar.table_created(id);
    assert_eq!(point.set(&mut lunar.ctx, "x", Value::Int(1)), Ok(()));
    assert_eq!(point.set(&mut lunar.ctx, "y", Value::Int(2)), Ok(()));
    engine.flush(&mut lunar.ctx);

    let found = fetch(&mut engine, &mut lunar.ctx, &point, "x");
    let x = point.get_int::<i32>(&mut lunar.ctx, &found).unwrap();
    let found = fetch(&mut engine, &mut lunar.ctx, &point, "y");
    let y = point.get_int::<i32>(&mut lunar.ctx, &found).unwrap();
    engine.flush(&mut lunar.ctx);
    assert_eq!(x + y, 3);
    assert!(matches!(engine.globals.get(b"Point".as_slice()), Some(Cell::Object(_))));
}

fn add(ctx: &mut LunarContext) -> Result<i32, LunarError> {
    let sum = ctx.get_int::<i32>(1)? + ctx.get_int::<i32>(2)?;
    ctx.return_value(Value::Int(sum))
}

#[test]
fn add_returns_the_sum() {
    let mut engine = Engine::default();
    engine.stack = vec![Cell::Integer(2), Cell::Integer(3)];
    let mut ctx = LunarContext::new(engine.frame());
    assert_eq!(add(&mut ctx), Ok(1));
    engine.flush(&mut ctx);
    assert_eq!(engine.report(-1).to_integer::<i32>("int"), Ok(5));
}

#[test]
fn wrong_argument_is_a_type_mismatch() {
    let mut engine = Engine::default();
    engine.stack = vec![Cell::Text(b"not a number".to_vec())];
    let mut ctx = LunarContext::new(engine.frame());
    assert_eq!(add(&mut ctx), Err(LunarError::TypeMismatch("int")));
    assert_eq!(ctx.take_ops(), vec![]);

    let mut lunar = Lunar::new(0x1000);
    assert_eq!(lunar.load("test(\"not a number\")"), Ok(()));
    lunar.exec();
    let failure = Slot::Text(b"bad argument #1 to 'test' (int expected, got string)".to_vec());
    assert_eq!(
        lunar.exec_returned(2, &failure),
        Err("bad argument #1 to 'test' (int expected, got string)".to_string())
    );
}

struct Counter {
    value: i32,
}

#[test]
fn counter_keeps_its_identity() {
    let mut engine = Engine::default();
    let mut arena: Arena<Counter> = Arena::new();

    // The constructor boxes the counter and returns the cell that stands for it.
    let mut ctx = LunarContext::new(engine.frame());
    let data = Userdata::new(Counter { value: 0 });
    let size = data.size();
    let handle = arena.insert(data).unwrap();
    new_table(&mut engine, &mut ctx, "Counter", true);
    assert_eq!(ctx.return_value(Value::Userdata("Counter", handle, size)), Ok(1));
    engine.flush(&mut ctx);

    // Each call of the method finds the same counter behind the cell.
    let mut inc = |engine: &Engine, arena: &mut Arena<Counter>| {
        let mut ctx = LunarContext::new(engine.frame());
        assert_eq!(ctx.get_userdata(1), Ok(handle));
        let handle = ctx.check_userdata(1, "Counter").unwrap();
        let value = arena.get(handle).unwrap().value + 1;
        assert!(arena.replace(handle, Counter { value }).is_ok());
        assert_eq!(ctx.return_value(Value::Int(value)), Ok(1));
        ctx.take_ops()
    };
    assert_eq!(inc(&engine, &mut arena), vec![Op::PushInteger(1)]);
    assert_eq!(inc(&engine, &mut arena), vec![Op::PushInteger(2)]);
    assert_eq!(arena.get(handle).unwrap().value, 2);
}

#[test]
fn named_userdata_carries_its_type() {
    let mut engine = Engine::default();
    let mut ctx = LunarContext::new(vec![]);
    new_table(&mut engine, &mut ctx, "Calculator", true);
    assert_eq!(ctx.push(Value::Userdata("Calculator", 77, 8)), Ok(()));
    engine.flush(&mut ctx);
    assert_eq!(engine.report(1), Slot::Userdata(77, b"Calculator".to_vec()));

    let ctx = LunarContext::new(engine.frame());
    assert_eq!(ctx.check_userdata(1, "Calculator"), Ok(77));
    assert_eq!(
        ctx.check_userdata(1, "Counter"),
        Err(LunarError::UserdataMismatch("Counter".to_string()))
    );
    assert_eq!(
        ctx.check_userdata(2, "Calculator"),
        Err(LunarError::UserdataMismatch("Calculator".to_string()))
    );
    assert_eq!(ctx.get_userdata(1), Ok(77));
}

#[test]
fn sealed_class_is_wired() {
    let mut engine = Engine::default();
    let mut lunar = Lunar::new(0x1000);
    let class = lunar.register_userdata("Counter").unwrap();
    let id = engine.flush(&mut lunar.ctx).unwrap();
    let class = class.table_created(&mut lunar.ctx, id);
    let id = engine.flush(&mut lunar.ctx).unwrap();
    let class = class.methods_created(&mut lunar.ctx, id);
    class.methods().constructor(&mut lunar.ctx, 1);
    assert_eq!(class.methods().add_method(&mut lunar.ctx, "inc", 2), Ok(()));
    let sealed = class.seal(&mut lunar.ctx, 3);
    engine.flush(&mut lunar.ctx);
    assert_eq!(engine.stack.len(), 0);

    let Some(Cell::Object(c)) = engine.globals.get(b"Counter".as_slice()).cloned() else {
        panic!("the class is no global")
    };
    assert_eq!(engine.registry.get(&sealed.class().id()), Some(&Cell::Object(c)));
    let Object::Table { fields, meta } = engine.heap[c].clone() else { panic!() };
    let Some(mt) = meta else { panic!("the class has no metatable") };
    assert_eq!(fields.get(b"__index".as_slice()), Some(&Cell::Object(mt)));
    let Object::Table { fields, .. } = engine.heap[mt].clone() else { panic!() };
    assert_eq!(fields.get(b"__call".as_slice()), Some(&Cell::Function(1)));
    assert_eq!(fields.get(b"inc".as_slice()), Some(&Cell::Function(2)));
    assert_eq!(fields.get(b"__newindex".as_slice()), Some(&Cell::Function(3)));
    assert_eq!(fields.get(b"__name".as_slice()), Some(&Cell::Text(b"Counter".to_vec())));
}

#[test]
fn released_slot_holds_nothing() {
    let mut engine = Engine::default();
    let mut ctx = LunarContext::new(vec![]);
    let table = new_table(&mut engine, &mut ctx, "", false);
    let id = table.id();
    assert!(engine.registry.contains_key(&id));
    table.release(&mut ctx);
    assert_eq!(ctx.take_ops(), vec![Op::Unref(id)]);
    engine.perform(&Op::Unref(id));
    assert!(!engine.registry.contains_key(&id));
    engine.perform(&Op::RefPush(id));
    assert_eq!(engine.report(1), Slot::Nil);
}

#[test]
fn set_metatable_attaches_and_clears_the_stack() {
    let mut engine = Engine::default();
    let mut lunar = Lunar::new(0x1000);
    let table = new_table(&mut engine, &mut lunar.ctx, "", false);
    assert_eq!(lunar::metatable::MetaTable::new(&mut lunar.ctx, "Meta"), Ok(()));
    let id = engine.flush(&mut lunar.ctx).unwrap();
    let meta = lunar::metatable::MetaTable::bind(&mut lunar.ctx, id);
    table.set_metatable(&mut lunar.ctx, &meta);
    engine.flush(&mut lunar.ctx);
    assert_eq!(engine.stack.len(), 0);
    let Some(Cell::Object(o)) = engine.registry.get(&table.id()).cloned() else { panic!() };
    let Some(Cell::Object(mt)) = engine.registry.get(&id).cloned() else { panic!() };
    let Object::Table { meta, .. } = engine.heap[o].clone() else { panic!() };
    assert_eq!(meta, Some(mt));
}
