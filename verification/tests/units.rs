use lunar::context::{LunarContext, StackLine, Userdata, Value};
use lunar::lua::{
    arg_expected, check_integer, error, lua_pop, pcall, same_bytes, to_const_char, to_string,
    LunarError, Op, Slot, LUAI_MAXSTACK, LUA_REGISTRYINDEX,
};
use lunar::lunar::Lunar;
use lunar::lunar_ref::LunarRef;
use lunar::metatable::MetaMethod;
use lunar::refr::LuaRef;
use lunar::stack::LuaStack;
use lunar::state::State;
use lunar::typedef::LunarType;
use lunar::types::{LuaType, Type};
use lunar::userdata::Arena;
use lunar::value::LunarValue;

fn bytes(text: &str) -> Vec<u8> {
    text.as_bytes().to_vec()
}

#[test]
fn type_tags_map_to_categories() {
    let expected = [
        (0, LuaType::Nil),
        (1, LuaType::Bool),
        (2, LuaType::LightUserdata),
        (3, LuaType::Number),
        (4, LuaType::String),
        (5, LuaType::Table),
        (6, LuaType::Function),
        (7, LuaType::Userdata),
        (8, LuaType::Undefined),
        (-1, LuaType::Undefined),
        (i32::MAX, LuaType::Undefined),
    ];
    for (tag, category) in expected {
        assert_eq!(LuaType::from(tag), category);
    }
    assert_eq!(LunarType::from(3), LunarType::NUMBER);
    assert_eq!(LunarType::from(0), LunarType::NIL);
    assert_eq!(LunarType::from(7), LunarType::USERDATA);
    assert_eq!(LunarType::from(9), LunarType::UNDEFINED);
    for tag in -2..12 {
        assert_ne!(LunarType::from(tag), LunarType::INTEGER);
    }
}

#[test]
fn host_types_have_categories() {
    assert_eq!(<i8 as Type>::type_of(), LuaType::Number);
    assert_eq!(<i32 as Type>::type_of(), LuaType::Number);
    assert_eq!(<u64 as Type>::type_of(), LuaType::Number);
    assert_eq!(<String as Type>::type_of(), LuaType::String);
    assert_eq!(<bool as Type>::type_of(), LuaType::Bool);
    assert_eq!(<i16 as lunar::typedef::Type>::type_of(), LunarType::INTEGER);
    assert_eq!(<u32 as lunar::typedef::Type>::type_of(), LunarType::INTEGER);
    assert_eq!(<String as lunar::typedef::Type>::type_of(), LunarType::STRING);
    assert_eq!(<bool as lunar::typedef::Type>::type_of(), LunarType::BOOLEAN);
}

#[test]
fn stack_names_are_their_indices() {
    assert_eq!(i32::from(LuaStack::STACK1), 1);
    assert_eq!(i32::from(LuaStack::STACK2), 2);
    assert_eq!(i32::from(LuaStack::STACK3), 3);
    assert_eq!(i32::from(LuaStack::STACK4), 4);
    assert_eq!(i32::from(LuaStack::STACK5), 5);
    assert_eq!(i32::from(LuaStack::STACK6), 6);
}

#[test]
fn host_numbers_widen() {
    assert_eq!(LunarValue::from(-3i8), LunarValue::INTEGER(-3));
    assert_eq!(LunarValue::from(-300i16), LunarValue::INTEGER(-300));
    assert_eq!(LunarValue::from(i32::MIN), LunarValue::INTEGER(-2147483648));
    assert_eq!(LunarValue::from(i64::MAX), LunarValue::INTEGER(i64::MAX));
    assert_eq!(LunarValue::from(255u8), LunarValue::INTEGER(255));
    assert_eq!(LunarValue::from(65535u16), LunarValue::INTEGER(65535));
    assert_eq!(LunarValue::from(u32::MAX), LunarValue::INTEGER(4294967295));
    assert_eq!(LunarValue::from("x".to_string()), LunarValue::STRING("x".to_string()));
}

#[test]
fn hooks_have_their_names() {
    let expected = [
        (MetaMethod::Add, "__add"),
        (MetaMethod::Sub, "__sub"),
        (MetaMethod::Mul, "__mul"),
        (MetaMethod::Div, "__div"),
        (MetaMethod::Mod, "__mod"),
        (MetaMethod::Pow, "__pow"),
        (MetaMethod::Unm, "__unm"),
        (MetaMethod::IDiv, "__idiv"),
        (MetaMethod::BAnd, "__band"),
        (MetaMethod::BOr, "__bor"),
        (MetaMethod::BXor, "__bxor"),
        (MetaMethod::BNot, "__bnot"),
        (MetaMethod::Shl, "__shl"),
        (MetaMethod::Shr, "__shr"),
        (MetaMethod::Concat, "__concat"),
        (MetaMethod::Len, "__len"),
        (MetaMethod::Eq, "__eq"),
        (MetaMethod::Lt, "__lt"),
        (MetaMethod::Le, "__le"),
        (MetaMethod::Index, "__index"),
        (MetaMethod::NewIndex, "__newindex"),
        (MetaMethod::Call, "__call"),
        (MetaMethod::ToString, "__tostring"),
        (MetaMethod::Pairs, "__pairs"),
    ];
    for (hook, name) in expected {
        assert_eq!(hook.name(), name);
        assert_eq!(hook.bytes(), bytes(name));
    }
    for (a, _) in expected {
        for (b, _) in expected {
            assert_eq!(a.name() == b.name(), a == b);
        }
    }
}

#[test]
fn constants_of_the_engine() {
    assert_eq!(LUAI_MAXSTACK, 1000000);
    assert_eq!(LUA_REGISTRYINDEX, -LUAI_MAXSTACK - 1000);
    assert_eq!(lua_pop(1), Op::SetTop(-2));
    assert_eq!(lua_pop(0), Op::SetTop(-1));
    assert_eq!(lua_pop(3), Op::SetTop(-4));
}

#[test]
fn text_crosses_without_the_terminator() {
    assert_eq!(to_const_char("value"), Ok(bytes("value")));
    assert_eq!(to_const_char(""), Ok(vec![]));
    assert_eq!(to_const_char("día"), Ok(vec![b'd', 0xc3, 0xad, b'a']));
    assert_eq!(to_const_char("a\0b"), Err(LunarError::Conversion));
    assert_eq!(to_const_char("\0"), Err(LunarError::Conversion));
}

#[test]
fn bytes_become_text_only_when_valid() {
    assert_eq!(to_string(bytes("Hello World!")), Ok("Hello World!".to_string()));
    assert_eq!(to_string(vec![]), Ok(String::new()));
    assert_eq!(to_string(vec![b'd', 0xc3, 0xad, b'a']), Ok("día".to_string()));
    assert_eq!(to_string(vec![0xff, 0xfe]), Err(LunarError::Conversion));
    assert_eq!(to_string(vec![b'a', 0xc3]), Err(LunarError::Conversion));
    assert_eq!(to_string(vec![0xed, 0xa0, 0x80]), Err(LunarError::Conversion));
    assert_eq!(Slot::Text(vec![0xc0, 0x80]).to_text(), Err(LunarError::Conversion));
}

#[test]
fn integers_narrow_or_overflow() {
    assert_eq!(check_integer::<i32>(75), Ok(75));
    assert_eq!(check_integer::<i32>(2147483647), Ok(i32::MAX));
    assert_eq!(check_integer::<i32>(2147483648), Err(LunarError::Overflow));
    assert_eq!(check_integer::<i32>(-2147483649), Err(LunarError::Overflow));
    assert_eq!(check_integer::<u32>(4294967295), Ok(u32::MAX));
    assert_eq!(check_integer::<u32>(4294967296), Err(LunarError::Overflow));
    assert_eq!(check_integer::<u32>(-1), Err(LunarError::Overflow));
    assert_eq!(check_integer::<i8>(-128), Ok(-128));
    assert_eq!(check_integer::<i8>(128), Err(LunarError::Overflow));
    assert_eq!(check_integer::<u8>(255), Ok(255));
    assert_eq!(check_integer::<u16>(65536), Err(LunarError::Overflow));
    assert_eq!(check_integer::<i16>(-32768), Ok(-32768));
    assert_eq!(check_integer::<u64>(-1), Err(LunarError::Overflow));
    assert_eq!(check_integer::<i64>(i64::MIN), Ok(i64::MIN));
}

#[test]
fn expectations_name_the_type() {
    assert_eq!(arg_expected(true, "int"), Ok(()));
    assert_eq!(arg_expected(false, "int"), Err(LunarError::TypeMismatch("int")));
    assert_eq!(arg_expected(false, "string"), Err(LunarError::TypeMismatch("string")));
}

#[test]
fn numbers_without_integer_reading() {
    let half = Slot::Number(None, 0.5f64.to_bits());
    assert_eq!(half.to_integer::<i32>("int"), Err(LunarError::Conversion));
    assert_eq!(half.to_long(), Err(LunarError::Conversion));
    assert_eq!(half.to_float().map(f64::from_bits), Ok(0.5));
    let big = Slot::Number(Some(1 << 40), ((1u64 << 40) as f64).to_bits());
    assert_eq!(big.to_integer::<i32>("int"), Err(LunarError::Overflow));
    assert_eq!(big.to_integer::<u32>("uint"), Err(LunarError::Overflow));
    assert_eq!(big.to_long(), Ok(1 << 40));
}

#[test]
fn slots_know_their_tags() {
    let slots = [
        (Slot::Absent, -1, LuaType::Undefined),
        (Slot::Nil, 0, LuaType::Nil),
        (Slot::Bool(false), 1, LuaType::Bool),
        (Slot::LightUserdata(8), 2, LuaType::LightUserdata),
        (Slot::Number(Some(1), 1.0f64.to_bits()), 3, LuaType::Number),
        (Slot::Text(vec![]), 4, LuaType::String),
        (Slot::Table(vec![]), 5, LuaType::Table),
        (Slot::Function, 6, LuaType::Function),
        (Slot::Userdata(0, vec![]), 7, LuaType::Userdata),
    ];
    let frame: Vec<Slot> = slots.iter().map(|(slot, _, _)| slot.clone()).collect();
    let ctx = LunarContext::new(frame);
    for (i, (slot, tag, category)) in slots.iter().enumerate() {
        assert_eq!(slot.type_tag(), *tag);
        assert_eq!(ctx.get_type(i as i32 + 1), *category);
    }
    assert_eq!(ctx.get_type(0), LuaType::Undefined);
    assert_eq!(ctx.get_type(10), LuaType::Undefined);
    assert_eq!(ctx.get_type(-8), LuaType::Nil);
    assert_eq!(ctx.get_type(-1), LuaType::Userdata);
    assert_eq!(ctx.get_type(-10), LuaType::Undefined);
}

#[test]
fn indices_count_from_either_end() {
    let ctx = LunarContext::new(vec![
        Slot::Number(Some(10), 10.0f64.to_bits()),
        Slot::Number(Some(20), 20.0f64.to_bits()),
        Slot::Number(Some(30), 30.0f64.to_bits()),
    ]);
    assert_eq!(ctx.stack_size(), 3);
    assert_eq!(ctx.get_int::<i32>(1), Ok(10));
    assert_eq!(ctx.get_int::<i32>(3), Ok(30));
    assert_eq!(ctx.get_int::<i32>(-1), Ok(30));
    assert_eq!(ctx.get_int::<i32>(-3), Ok(10));
    assert_eq!(ctx.get_int::<i32>(0), Err(LunarError::TypeMismatch("int")));
    assert_eq!(ctx.get_int::<i32>(4), Err(LunarError::TypeMismatch("int")));
    assert_eq!(ctx.get_int::<i32>(-4), Err(LunarError::TypeMismatch("int")));
    assert_eq!(ctx.get_int::<i32>(LUA_REGISTRYINDEX), Err(LunarError::TypeMismatch("int")));
    assert_eq!(ctx.get_int::<i32>(i32::MIN), Err(LunarError::TypeMismatch("int")));
    assert_eq!(ctx.get_int::<i32>(i32::MAX), Err(LunarError::TypeMismatch("int")));
}

#[test]
fn every_value_has_its_push() {
    let cases: Vec<(Value, Vec<Op>)> = vec![
        (Value::Nil, vec![Op::PushNil]),
        (Value::Bool(true), vec![Op::PushBoolean(true)]),
        (Value::Function(4), vec![Op::PushFunction(4)]),
        (Value::Int(-5), vec![Op::PushInteger(-5)]),
        (Value::Uint(u32::MAX), vec![Op::PushInteger(4294967295)]),
        (Value::Long(i64::MIN), vec![Op::PushInteger(i64::MIN)]),
        (Value::Float(2.5f64.to_bits()), vec![Op::PushNumber(2.5f64.to_bits())]),
        (Value::String("hi".to_string()), vec![Op::PushString(bytes("hi"))]),
        (Value::Userdata("", 9, 16), vec![Op::NewUserdata(9, 16)]),
        (
            Value::Userdata("Point", 9, 16),
            vec![Op::NewUserdata(9, 16), Op::GetGlobal(bytes("Point")), Op::SetMetatable(3)],
        ),
        (Value::LightUserdata("", 64), vec![Op::PushLightUserdata(64)]),
        (
            Value::LightUserdata("Raw", 64),
            vec![Op::PushLightUserdata(64), Op::GetGlobal(bytes("Raw")), Op::SetMetatable(3)],
        ),
    ];
    for (value, ops) in cases {
        let mut ctx = LunarContext::new(vec![Slot::Nil, Slot::Nil]);
        assert_eq!(ctx.push(value), Ok(()));
        assert_eq!(ctx.stack_size(), 3);
        assert_eq!(ctx.take_ops(), ops);
    }
}

#[test]
fn what_cannot_cross_is_refused_whole() {
    let refused = vec![
        Value::String("a\0b".to_string()),
        Value::Userdata("Po\0int", 9, 16),
        Value::LightUserdata("\0", 64),
    ];
    for value in refused {
        let mut ctx = LunarContext::new(vec![]);
        assert_eq!(ctx.push(value.clone()), Err(LunarError::Conversion));
        assert_eq!(ctx.return_value(value.clone()), Err(LunarError::Conversion));
        assert_eq!(ctx.call_function(1, vec![Value::Int(1), value], 0), Err(LunarError::Conversion));
        assert_eq!(ctx.stack_size(), 0);
        assert_eq!(ctx.take_ops(), vec![]);
    }
    let mut ctx = LunarContext::new(vec![Slot::Table(vec![])]);
    assert_eq!(ctx.get_global("a\0"), Err(LunarError::Conversion));
    assert_eq!(ctx.get_field("a\0", 1), Err(LunarError::Conversion));
    assert_eq!(ctx.set_field("a\0", 1), Err(LunarError::Conversion));
    assert_eq!(ctx.take_ops(), vec![]);

    let mut lunar = Lunar::new(1);
    assert_eq!(lunar.load("print(1)\0"), Err(LunarError::Conversion));
    assert_eq!(lunar.create_global_value("a\0", Value::Nil), Err(LunarError::Conversion));
    assert_eq!(
        lunar.create_global_value("a", Value::String("\0".to_string())),
        Err(LunarError::Conversion)
    );
    assert_eq!(lunar.create_static_function("a\0", 0), Err(LunarError::Conversion));
    assert_eq!(lunar.create_table("a\0", true), Err(LunarError::Conversion));
    assert!(lunar.register_userdata("a\0").is_err());
    assert_eq!(lunar.call_global_function("a\0", vec![], 0), Err(LunarError::Conversion));
    assert_eq!(lunar.ctx.take_ops(), vec![]);
    assert_eq!(lunar.ctx.stack_size(), 0);
}

#[test]
fn queue_primitives() {
    let mut ctx = LunarContext::new(vec![Slot::Table(vec![])]);
    assert_eq!(ctx.get_global("print"), Ok(()));
    assert_eq!(ctx.stack_size(), 2);
    assert_eq!(ctx.get_field("x", 1), Ok(3));
    assert_eq!(ctx.set_field("y", 1), Ok(()));
    assert_eq!(ctx.stack_size(), 2);
    ctx.pop_last();
    assert_eq!(ctx.stack_size(), 1);
    assert_eq!(
        ctx.take_ops(),
        vec![
            Op::GetGlobal(bytes("print")),
            Op::GetField(1, bytes("x")),
            Op::SetField(1, bytes("y")),
            Op::SetTop(-2),
        ]
    );
    assert_eq!(ctx.take_ops(), vec![]);
    assert_eq!(ctx.stack_size(), 1);
}

#[test]
fn calls_queue_the_function_the_arguments_and_the_call() {
    let mut ctx = LunarContext::new(vec![Slot::Function]);
    assert_eq!(
        ctx.call_function(1, vec![Value::Int(2), Value::String("x".to_string())], 1),
        Ok(())
    );
    assert_eq!(ctx.stack_size(), 2);
    assert_eq!(
        ctx.take_ops(),
        vec![
            Op::PushValue(1),
            Op::PushInteger(2),
            Op::PushString(bytes("x")),
            Op::ProtectedCall(2, 1),
        ]
    );
    assert_eq!(ctx.call_returned(0, &Slot::Nil, 1), Ok(()));
    assert_eq!(ctx.stack_size(), 2);
    assert_eq!(ctx.take_ops(), vec![]);

    let mut lunar = Lunar::new(1);
    assert_eq!(lunar.call_global_function("sum", vec![Value::Int(2), Value::Int(3)], 1), Ok(()));
    assert_eq!(lunar.ctx.stack_size(), 1);
    assert_eq!(
        lunar.ctx.take_ops(),
        vec![
            Op::GetGlobal(bytes("sum")),
            Op::PushInteger(2),
            Op::PushInteger(3),
            Op::ProtectedCall(2, 1),
        ]
    );
    assert_eq!(
        lunar.ctx.call_returned(2, &Slot::Text(bytes("attempt to call a nil value")), 1),
        Err("attempt to call a nil value".to_string())
    );
    assert_eq!(lunar.ctx.stack_size(), 0);
    assert_eq!(lunar.ctx.take_ops(), vec![Op::SetTop(-2)]);
}

#[test]
fn failures_carry_a_description() {
    assert_eq!(pcall(0, &Slot::Absent), Ok(()));
    assert_eq!(pcall(0, &Slot::Text(bytes("ignored"))), Ok(()));
    assert_eq!(pcall(2, &Slot::Text(bytes("boom"))), Err("boom".to_string()));
    assert_eq!(pcall(-1, &Slot::Text(bytes("boom"))), Err("boom".to_string()));
    let fallback = "Unable to get error description.".to_string();
    assert_eq!(pcall(2, &Slot::Text(vec![])), Err(fallback.clone()));
    assert_eq!(pcall(2, &Slot::Text(vec![0xff])), Err(fallback.clone()));
    assert_eq!(pcall(2, &Slot::Nil), Err(fallback.clone()));
    assert_eq!(pcall(3, &Slot::Table(bytes("Error"))), Err(fallback.clone()));
    assert_eq!(error(&Slot::Text(bytes("x"))), "x");
    assert_eq!(error(&Slot::Absent), fallback);
}

#[test]
fn a_failed_run_leaves_the_next_one_alone() {
    let mut lunar = Lunar::new(1);
    assert_eq!(lunar.load("this is not valid syntax ("), Ok(()));
    lunar.exec();
    assert_eq!(
        lunar.ctx.take_ops(),
        vec![Op::LoadString(bytes("this is not valid syntax (")), Op::ProtectedCall(0, 0)]
    );
    let message = Slot::Text(bytes("[string \"this is not valid syntax (\"]:1: syntax error"));
    let outcome = lunar.exec_returned(3, &message);
    assert!(matches!(&outcome, Err(text) if !text.is_empty()));
    assert_eq!(lunar.ctx.take_ops(), vec![Op::SetTop(-2)]);
    assert_eq!(lunar.ctx.stack_size(), 0);
    assert_eq!(lunar.lua.L(), 1);

    assert_eq!(lunar.load("x = 1"), Ok(()));
    lunar.exec();
    assert_eq!(lunar.exec_returned(0, &Slot::Absent), Ok(()));
    assert_eq!(
        lunar.ctx.take_ops(),
        vec![Op::LoadString(bytes("x = 1")), Op::ProtectedCall(0, 0)]
    );
    assert_eq!(lunar.ctx.stack_size(), 0);
}

#[test]
fn references_register_and_push() {
    let mut ctx = LunarContext::new(vec![Slot::Table(vec![])]);
    LuaRef::register_last_stack_value(&mut ctx);
    assert_eq!(ctx.stack_size(), 0);
    let kept = LuaRef::from(12);
    assert_eq!(kept.id(), 12);
    assert_eq!(kept.push_reference(&mut ctx), 1);
    assert_eq!(kept.push_reference(&mut ctx), 2);
    kept.release(&mut ctx);
    assert_eq!(
        ctx.take_ops(),
        vec![Op::Ref, Op::RefPush(12), Op::RefPush(12), Op::Unref(12)]
    );

    let mut ctx = LunarContext::new(vec![Slot::Function]);
    LunarRef::register(&mut ctx);
    let kept = LunarRef::new(3);
    kept.get(&mut ctx);
    assert_eq!(ctx.stack_size(), 1);
    assert_eq!(ctx.take_ops(), vec![Op::Ref, Op::RefPush(3)]);
}

#[test]
fn light_userdata_may_be_null() {
    let ctx = LunarContext::new(vec![
        Slot::LightUserdata(0x80),
        Slot::LightUserdata(0),
        Slot::Userdata(5, vec![]),
    ]);
    assert_eq!(ctx.get_light_userdata(1), Some(0x80));
    assert_eq!(ctx.get_light_userdata(2), None);
    assert_eq!(ctx.get_light_userdata(3), None);
    assert_eq!(ctx.get_light_userdata(4), None);
    assert_eq!(ctx.get_userdata(3), Ok(5));
    assert_eq!(ctx.check_userdata(3, ""), Ok(5));
    assert_eq!(
        ctx.check_userdata(3, "a\0"),
        Err(LunarError::UserdataMismatch("a\0".to_string()))
    );
    assert_eq!(
        ctx.check_userdata(1, "Counter"),
        Err(LunarError::UserdataMismatch("Counter".to_string()))
    );
    assert_eq!(ctx.check_userdata(9, ""), Err(LunarError::UserdataMismatch(String::new())));
    assert_eq!(
        Slot::Nil.to_checked_userdata("Counter"),
        Err(LunarError::UserdataMismatch("Counter".to_string()))
    );
    assert_eq!(Slot::Userdata(4, b"Counter".to_vec()).to_checked_userdata("Counter"), Ok(4));
    assert_eq!(
        Slot::Userdata(4, b"Counter".to_vec()).to_checked_userdata("Calculator"),
        Err(LunarError::UserdataMismatch("Calculator".to_string()))
    );
    assert_eq!(ctx.get_userdata(1), Err(LunarError::TypeMismatch("userdata")));
}

#[test]
fn stack_dump_covers_seven_positions() {
    let ctx = LunarContext::new(vec![
        Slot::Table(bytes("Point")),
        Slot::Userdata(1, bytes("Counter")),
        Slot::Table(vec![]),
        Slot::Userdata(2, vec![0xff]),
        Slot::Number(Some(1), 1.0f64.to_bits()),
    ]);
    let line = |stack, typename, name: Option<&str>| StackLine {
        stack,
        typename,
        name: name.map(str::to_string),
    };
    assert_eq!(
        ctx.stackdump(),
        vec![
            line(1, LuaType::Table, Some("Point")),
            line(2, LuaType::Userdata, Some("Counter")),
            line(3, LuaType::Table, None),
            line(4, LuaType::Userdata, None),
            line(5, LuaType::Number, None),
            line(6, LuaType::Undefined, None),
            line(7, LuaType::Undefined, None),
        ]
    );
}

#[test]
fn boxes_know_their_size() {
    let data = Userdata::new(7u64);
    assert_eq!(data.size(), 8);
    assert_eq!(*data.get(), 7);
    assert_eq!(*data.as_box(), 7);
    assert_eq!(Userdata::new((1u8, 2u8)).size(), 2);
    assert_eq!(Userdata::new(()).size(), 0);
}

#[test]
fn engine_handle_closes_once() {
    let mut state = State::new(0xbeef);
    assert_eq!(state.L(), 0xbeef);
    assert_eq!(state.destroy(), Some(0xbeef));
    assert_eq!(state.L(), 0);
    assert_eq!(state.destroy(), None);
    assert_eq!(state.destroy(), None);
}

#[test]
fn arena_hands_out_and_retires_handles() {
    let mut arena: Arena<String> = Arena::new();
    assert!(arena.get(0).is_none());
    let a = arena.insert(Userdata::new("a".to_string())).unwrap();
    let b = arena.insert(Userdata::new("b".to_string())).unwrap();
    assert_ne!(a, b);
    assert_eq!(arena.get(a).map(String::as_str), Some("a"));
    assert_eq!(arena.get(b).map(String::as_str), Some("b"));

    assert_eq!(arena.replace(a, "c".to_string()).map(|old| *old), Ok("a".to_string()));
    assert_eq!(arena.get(a).map(String::as_str), Some("c"));
    assert_eq!(arena.replace(99 << 32, "d".to_string()), Err("d".to_string()));

    assert_eq!(arena.remove(a).map(|old| *old), Some("c".to_string()));
    assert!(arena.get(a).is_none());
    assert!(arena.remove(a).is_none());
    assert_eq!(arena.replace(a, "e".to_string()), Err("e".to_string()));
    assert_eq!(arena.get(b).map(String::as_str), Some("b"));

    // A new arena always has a handle to give.
    let mut fresh: Arena<u8> = Arena::new();
    assert!(fresh.insert(Userdata::new(1)).is_some());
    assert!(fresh.insert(Userdata::new(2)).is_some());

    // The slot is taken again, under a handle that is new.
    let c = arena.insert(Userdata::new("f".to_string())).unwrap();
    assert_ne!(c, a);
    assert_ne!(c, b);
    assert_eq!(c >> 32, a >> 32);
    assert!(arena.get(a).is_none());
    assert_eq!(arena.get(c).map(String::as_str), Some("f"));
}
