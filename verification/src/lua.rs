//! The engine's call surface as plain data: the operations that the bridge
//! asks for, what the engine reports of a stack position, and the conversions
//! between host text and the engine's byte strings.

use vstd::prelude::*;
use vstd::slice::slice_to_vec;
use vstd::std_specs::convert::TryFromSpec;
use vstd::string::StringSliceAdditionalSpecFns;
use vstd::utf8::{
    decode_utf8, encode_utf8, is_ascii_chars, is_ascii_chars_encode_utf8, valid_utf8,
};

verus! {

/// The largest number of values that the engine's stack can hold.
pub const LUAI_MAXSTACK: i32 = 1000000;

/// The pseudo-index under which the engine keeps its registry.
pub const LUA_REGISTRYINDEX: i32 = -1001000;

/// What can go wrong at the boundary between host and engine.
#[derive(Debug, Clone, PartialEq, Eq)]
pub enum LunarError {
    /// A stack position holds a value of another category than the one asked
    /// for. Carries the name of the type that was expected.
    TypeMismatch(&'static str),
    /// A stack position does not hold a userdata cell of the type that was
    /// asked for. Carries the name of that type.
    UserdataMismatch(String),
    /// A value cannot be converted: bytes from the engine are not valid
    /// text, host text holds the terminator byte, or a number has no
    /// integer reading.
    Conversion,
    /// The engine's integer does not fit the width that was asked for.
    Overflow,
}

/// Whether `error` is the failure of a check for the userdata type that
/// goes by the name `tname`.
pub open spec fn names_type(error: LunarError, tname: Seq<char>) -> bool {
    error matches LunarError::UserdataMismatch(name) && name@ == tname
}

/// What the engine reports of one stack position.
#[derive(Debug, Clone, PartialEq, Eq)]
pub enum Slot {
    /// The position holds no value.
    Absent,
    Nil,
    Bool(bool),
    /// A raw address.
    LightUserdata(usize),
    /// A number: its integer reading, if the engine can give one without
    /// loss, and the bits of its floating-point reading.
    Number(Option<i64>, u64),
    /// A byte string.
    Text(Vec<u8>),
    /// A table, with the text under its `__name` field (empty if it has none).
    Table(Vec<u8>),
    Function,
    /// A userdata cell: the handle it holds, and the name of the type
    /// descriptor attached to it (empty if it has none).
    Userdata(u64, Vec<u8>),
}

/// One operation of the engine, as the bridge asks for it.
#[derive(Debug, Clone, PartialEq, Eq)]
pub enum Op {
    PushNil,
    PushBoolean(bool),
    PushInteger(i64),
    /// Push the floating-point number with these bits.
    PushNumber(u64),
    PushString(Vec<u8>),
    PushLightUserdata(usize),
    /// Push the host callback that the program keeps under this number.
    PushFunction(usize),
    /// Allocate a userdata cell that holds the given handle, which stands
    /// for a host value of the given size, and push it.
    NewUserdata(u64, usize),
    /// Push a copy of the value at the index.
    PushValue(i32),
    /// Push a new empty table.
    CreateTable,
    GetGlobal(Vec<u8>),
    SetGlobal(Vec<u8>),
    GetField(i32, Vec<u8>),
    SetField(i32, Vec<u8>),
    SetMetatable(i32),
    SetTop(i32),
    /// Move the top value into the registry; the engine answers with the
    /// slot number it chose.
    Ref,
    /// Push the value kept in the registry under the slot number.
    RefPush(i32),
    /// Give the slot number back to the registry, which lets go of the
    /// value kept under it.
    Unref(i32),
    /// Compile the text, and push the chunk or the error value.
    LoadString(Vec<u8>),
    /// Call with that many arguments, asking for that many results, under
    /// the engine's protection.
    ProtectedCall(i32, i32),
    OpenLibs,
}

/// An operation as a mathematical value.
pub enum Instr {
    PushNil,
    PushBoolean(bool),
    PushInteger(i64),
    PushNumber(u64),
    PushString(Seq<u8>),
    PushLightUserdata(usize),
    PushFunction(usize),
    NewUserdata(u64, usize),
    PushValue(i32),
    CreateTable,
    GetGlobal(Seq<u8>),
    SetGlobal(Seq<u8>),
    GetField(i32, Seq<u8>),
    SetField(i32, Seq<u8>),
    SetMetatable(i32),
    SetTop(i32),
    Ref,
    RefPush(i32),
    Unref(i32),
    LoadString(Seq<u8>),
    ProtectedCall(i32, i32),
    OpenLibs,
}

impl View for Op {
    type V = Instr;

    open spec fn view(&self) -> Instr {
        match *self {
            Op::PushNil => Instr::PushNil,
            Op::PushBoolean(b) => Instr::PushBoolean(b),
            Op::PushInteger(i) => Instr::PushInteger(i),
            Op::PushNumber(bits) => Instr::PushNumber(bits),
            Op::PushString(s) => Instr::PushString(s@),
            Op::PushLightUserdata(p) => Instr::PushLightUserdata(p),
            Op::PushFunction(f) => Instr::PushFunction(f),
            Op::NewUserdata(p, size) => Instr::NewUserdata(p, size),
            Op::PushValue(i) => Instr::PushValue(i),
            Op::CreateTable => Instr::CreateTable,
            Op::GetGlobal(name) => Instr::GetGlobal(name@),
            Op::SetGlobal(name) => Instr::SetGlobal(name@),
            Op::GetField(i, name) => Instr::GetField(i, name@),
            Op::SetField(i, name) => Instr::SetField(i, name@),
            Op::SetMetatable(i) => Instr::SetMetatable(i),
            Op::SetTop(i) => Instr::SetTop(i),
            Op::Ref => Instr::Ref,
            Op::RefPush(id) => Instr::RefPush(id),
            Op::Unref(id) => Instr::Unref(id),
            Op::LoadString(s) => Instr::LoadString(s@),
            Op::ProtectedCall(nargs, nresults) => Instr::ProtectedCall(nargs, nresults),
            Op::OpenLibs => Instr::OpenLibs,
        }
    }
}

/// The operations of `ops`, each as a mathematical value.
pub open spec fn instrs(ops: Seq<Op>) -> Seq<Instr> {
    Seq::new(ops.len(), |i: int| ops[i]@)
}

/// The bytes under which host text crosses to the engine.
pub open spec fn c_bytes(text: Seq<char>) -> Seq<u8> {
    encode_utf8(text)
}

/// Whether `bytes` holds the terminator byte.
pub open spec fn has_terminator(bytes: Seq<u8>) -> bool {
    exists|i: int| 0 <= i < bytes.len() && bytes[i] == 0u8
}

/// Plain ASCII text without the null character holds no terminator byte.
pub proof fn lemma_ascii_crosses(text: Seq<char>)
    requires
        is_ascii_chars(text),
        forall|i: int| 0 <= i < text.len() ==> text[i] != '\0',
    ensures
        !has_terminator(c_bytes(text)),
        c_bytes(text).len() == text.len(),
{
    is_ascii_chars_encode_utf8(text);
    assert forall|i: int| 0 <= i < c_bytes(text).len() implies c_bytes(text)[i] != 0u8 by {
        let c = text[i];
        assert(c as u8 == encode_utf8(text)[i]);
        assert('\0' <= c <= '\u{7f}');
        assert(c != '\0');
    }
}

/// The bytes of the field name `name`, which is plain ASCII.
pub(crate) fn field_bytes(name: &'static str) -> (bytes: Vec<u8>)
    requires
        is_ascii_chars(name@),
        forall|i: int| 0 <= i < name@.len() ==> name@[i] != '\0',
    ensures
        bytes@ == c_bytes(name@),
        !has_terminator(bytes@),
{
    proof {
        lemma_ascii_crosses(name@);
    }
    slice_to_vec(name.as_bytes())
}

fn find_terminator(bytes: &Vec<u8>) -> (found: bool)
    ensures
        found == has_terminator(bytes@),
{
    let mut i: usize = 0;
    while i < bytes.len()
        invariant
            i <= bytes.len(),
            forall|j: int| 0 <= j < i ==> bytes@[j] != 0u8,
        decreases bytes.len() - i,
    {
        if bytes[i] == 0 {
            return true;
        }
        i += 1;
    }
    false
}

/// The bytes of `string` as the engine takes them. Text that holds the
/// terminator byte cannot cross, and is refused.
pub fn to_const_char(string: &str) -> (r: Result<Vec<u8>, LunarError>)
    ensures
        match r {
            Ok(bytes) => !has_terminator(c_bytes(string@)) && bytes@ == c_bytes(string@),
            Err(e) => has_terminator(c_bytes(string@)) && e == LunarError::Conversion,
        },
{
    let bytes = slice_to_vec(string.as_bytes());
    if find_terminator(&bytes) {
        Err(LunarError::Conversion)
    } else {
        Ok(bytes)
    }
}

/// Calls `String::from_utf8` of the standard library. Its contract is
/// taken on trust from the documentation of that function: the call
/// succeeds on the byte sequences that are valid UTF-8 and on no others,
/// and the text it gives has `bytes` as its encoding.
#[verifier::external_body]
fn text_of_bytes(bytes: Vec<u8>) -> (r: Option<String>)
    ensures
        r is Some <==> valid_utf8(bytes@),
        r matches Some(text) ==> encode_utf8(text@) == bytes@,
{
    match String::from_utf8(bytes) {
        Ok(text) => Some(text),
        Err(_) => None,
    }
}

/// The host text that the engine's byte string `bytes` stands for.
pub fn to_string(bytes: Vec<u8>) -> (r: Result<String, LunarError>)
    ensures
        match r {
            Ok(text) => valid_utf8(bytes@) && text@ == decode_utf8(bytes@),
            Err(e) => !valid_utf8(bytes@) && e == LunarError::Conversion,
        },
{
    match text_of_bytes(bytes) {
        Some(text) => {
            proof {
                vstd::utf8::encode_utf8_decode_utf8(text@);
            }
            Ok(text)
        },
        None => Err(LunarError::Conversion),
    }
}

impl Slot {
    /// The engine's numeric type tag for the value at the position.
    pub open spec fn spec_type_tag(&self) -> i32 {
        match *self {
            Slot::Absent => -1i32,
            Slot::Nil => 0,
            Slot::Bool(_) => 1,
            Slot::LightUserdata(_) => 2,
            Slot::Number(_, _) => 3,
            Slot::Text(_) => 4,
            Slot::Table(_) => 5,
            Slot::Function => 6,
            Slot::Userdata(_, _) => 7,
        }
    }

    #[verifier::when_used_as_spec(spec_type_tag)]
    pub fn type_tag(&self) -> (tag: i32)
        ensures
            tag == self.spec_type_tag(),
    {
        match self {
            Slot::Absent => -1,
            Slot::Nil => 0,
            Slot::Bool(_) => 1,
            Slot::LightUserdata(_) => 2,
            Slot::Number(_, _) => 3,
            Slot::Text(_) => 4,
            Slot::Table(_) => 5,
            Slot::Function => 6,
            Slot::Userdata(_, _) => 7,
        }
    }
}

/// The boolean at a position: the position must hold a boolean.
pub open spec fn boolean_of(slot: Slot) -> Result<bool, LunarError> {
    match slot {
        Slot::Bool(b) => Ok(b),
        _ => Err(LunarError::TypeMismatch("bool")),
    }
}

/// The integer at a position, in the width `T`: the position must hold a
/// number that has an integer reading, and the integer must fit. A mismatch
/// names `expected` as the type that was asked for.
pub open spec fn integer_of<T: TryFrom<i64>>(slot: Slot, expected: &'static str) -> Result<
    T,
    LunarError,
> {
    match slot {
        Slot::Number(Some(native), _) => narrow::<T>(native),
        Slot::Number(None, _) => Err(LunarError::Conversion),
        _ => Err(LunarError::TypeMismatch(expected)),
    }
}

/// The integer at a position, in the engine's own width.
pub open spec fn long_of(slot: Slot) -> Result<i64, LunarError> {
    match slot {
        Slot::Number(Some(native), _) => Ok(native),
        Slot::Number(None, _) => Err(LunarError::Conversion),
        _ => Err(LunarError::TypeMismatch("long")),
    }
}

/// The bits of the floating-point number at a position.
pub open spec fn float_of(slot: Slot) -> Result<u64, LunarError> {
    match slot {
        Slot::Number(_, bits) => Ok(bits),
        _ => Err(LunarError::TypeMismatch("float")),
    }
}

/// The text at a position: the position must hold a byte string, and the
/// bytes must be valid text.
pub open spec fn text_of(slot: Slot) -> Result<Seq<char>, LunarError> {
    match slot {
        Slot::Text(bytes) => if valid_utf8(bytes@) {
            Ok(decode_utf8(bytes@))
        } else {
            Err(LunarError::Conversion)
        },
        _ => Err(LunarError::TypeMismatch("string")),
    }
}

/// The handle held by the userdata cell at a position.
pub open spec fn userdata_of(slot: Slot) -> Result<u64, LunarError> {
    match slot {
        Slot::Userdata(handle, _) => Ok(handle),
        _ => Err(LunarError::TypeMismatch("userdata")),
    }
}

/// The handle held by the userdata cell at a position, if the position
/// holds such a cell and the type descriptor attached to it goes by the
/// name `tname`.
pub open spec fn checked_userdata_of(slot: Slot, tname: Seq<u8>) -> Option<u64> {
    match slot {
        Slot::Userdata(handle, name) => if name@ == tname {
            Some(handle)
        } else {
            None
        },
        _ => None,
    }
}

/// The raw address at a position, if the position holds one that is not
/// null.
pub open spec fn light_userdata_of(slot: Slot) -> Option<usize> {
    match slot {
        Slot::LightUserdata(address) => if address != 0 {
            Some(address)
        } else {
            None
        },
        _ => None,
    }
}

/// The name that a table or a userdata cell goes by, where it has one that
/// is valid text.
pub open spec fn name_of(slot: Slot) -> Option<Seq<char>> {
    match slot {
        Slot::Table(name) => if name@.len() > 0 && valid_utf8(name@) {
            Some(decode_utf8(name@))
        } else {
            None
        },
        Slot::Userdata(_, name) => if name@.len() > 0 && valid_utf8(name@) {
            Some(decode_utf8(name@))
        } else {
            None
        },
        _ => None,
    }
}

/// The text that `bytes` stands for, if it is not empty and valid.
fn name_text(bytes: &Vec<u8>) -> (r: Option<String>)
    ensures
        match r {
            Some(text) => bytes@.len() > 0 && valid_utf8(bytes@) && text@ == decode_utf8(bytes@),
            None => !(bytes@.len() > 0 && valid_utf8(bytes@)),
        },
{
    if bytes.len() == 0 {
        return None;
    }
    match to_string(bytes.clone()) {
        Ok(text) => Some(text),
        Err(_) => None,
    }
}

/// Whether `a` and `b` hold the same bytes.
pub fn same_bytes(a: &Vec<u8>, b: &Vec<u8>) -> (same: bool)
    ensures
        same == (a@ == b@),
{
    if a.len() != b.len() {
        return false;
    }
    let mut i: usize = 0;
    while i < a.len()
        invariant
            i <= a.len(),
            a.len() == b.len(),
            forall|j: int| 0 <= j < i ==> a@[j] == b@[j],
        decreases a.len() - i,
    {
        if a[i] != b[i] {
            return false;
        }
        i += 1;
    }
    assert(a@ =~= b@);
    true
}

impl Slot {
    /// Reads the position as a boolean.
    pub fn to_boolean(&self) -> (r: Result<bool, LunarError>)
        ensures
            r == boolean_of(*self),
    {
        match self {
            Slot::Bool(b) => Ok(*b),
            _ => Err(LunarError::TypeMismatch("bool")),
        }
    }

    /// Reads the position as an integer of the width `T`.
    pub fn to_integer<T: TryFrom<i64>>(&self, expected: &'static str) -> (r: Result<T, LunarError>)
        ensures
            T::obeys_try_from_spec() ==> r == integer_of::<T>(*self, expected),
    {
        match self {
            Slot::Number(Some(native), _) => check_integer::<T>(*native),
            Slot::Number(None, _) => Err(LunarError::Conversion),
            _ => Err(LunarError::TypeMismatch(expected)),
        }
    }

    /// Reads the position as an integer of the engine's own width.
    pub fn to_long(&self) -> (r: Result<i64, LunarError>)
        ensures
            r == long_of(*self),
    {
        match self {
            Slot::Number(Some(native), _) => Ok(*native),
            Slot::Number(None, _) => Err(LunarError::Conversion),
            _ => Err(LunarError::TypeMismatch("long")),
        }
    }

    /// Reads the position as a floating-point number, by its bits.
    pub fn to_float(&self) -> (r: Result<u64, LunarError>)
        ensures
            r == float_of(*self),
    {
        match self {
            Slot::Number(_, bits) => Ok(*bits),
            _ => Err(LunarError::TypeMismatch("float")),
        }
    }

    /// Reads the position as text.
    pub fn to_text(&self) -> (r: Result<String, LunarError>)
        ensures
            match r {
                Ok(text) => text_of(*self) == Ok::<Seq<char>, LunarError>(text@),
                Err(e) => text_of(*self) == Err::<Seq<char>, LunarError>(e),
            },
    {
        match self {
            Slot::Text(bytes) => to_string(bytes.clone()),
            _ => Err(LunarError::TypeMismatch("string")),
        }
    }

    /// Reads the handle that the userdata cell at the position holds.
    pub fn to_userdata(&self) -> (r: Result<u64, LunarError>)
        ensures
            r == userdata_of(*self),
    {
        match self {
            Slot::Userdata(handle, _) => Ok(*handle),
            _ => Err(LunarError::TypeMismatch("userdata")),
        }
    }

    /// Reads the handle that the userdata cell at the position holds,
    /// after checking that its type descriptor goes by the name `tname`.
    /// A position that holds anything else fails the check, and the
    /// failure names the type that was asked for.
    pub fn to_checked_userdata(&self, tname: &str) -> (r: Result<u64, LunarError>)
        ensures
            match r {
                Ok(handle) => checked_userdata_of(*self, c_bytes(tname@)) == Some(handle),
                Err(e) => checked_userdata_of(*self, c_bytes(tname@)) is None && names_type(
                    e,
                    tname@,
                ),
            },
    {
        let asked = slice_to_vec(tname.as_bytes());
        match self {
            Slot::Userdata(handle, name) => {
                if same_bytes(name, &asked) {
                    Ok(*handle)
                } else {
                    Err(LunarError::UserdataMismatch(tname.to_owned()))
                }
            },
            _ => Err(LunarError::UserdataMismatch(tname.to_owned())),
        }
    }

    /// The name that the table or userdata cell at the position goes by.
    pub fn name(&self) -> (r: Option<String>)
        ensures
            match r {
                Some(text) => name_of(*self) == Some(text@),
                None => name_of(*self) is None,
            },
    {
        match self {
            Slot::Table(name) => name_text(name),
            Slot::Userdata(_, name) => name_text(name),
            _ => None,
        }
    }

    /// Reads the raw address at the position.
    pub fn to_light_userdata(&self) -> (r: Option<usize>)
        ensures
            r == light_userdata_of(*self),
    {
        match self {
            Slot::LightUserdata(address) => {
                if *address != 0 {
                    Some(*address)
                } else {
                    None
                }
            },
            _ => None,
        }
    }
}

/// Passes when `cond` holds, and otherwise fails with a type mismatch that
/// names `tname` as the type that was expected.
pub fn arg_expected(cond: bool, tname: &'static str) -> (r: Result<(), LunarError>)
    ensures
        r == (if cond {
            Ok::<(), LunarError>(())
        } else {
            Err::<(), LunarError>(LunarError::TypeMismatch(tname))
        }),
{
    if cond {
        Ok(())
    } else {
        Err(LunarError::TypeMismatch(tname))
    }
}

/// The engine's integer `native` in the width `T`, if it fits.
pub open spec fn narrow<T: TryFrom<i64>>(native: i64) -> Result<T, LunarError> {
    match T::try_from_spec(native) {
        Ok(v) => Ok(v),
        Err(_) => Err(LunarError::Overflow),
    }
}

/// Narrows the engine's integer `native` to the width `T`; an integer that
/// does not fit is an overflow.
pub fn check_integer<T: TryFrom<i64>>(native: i64) -> (r: Result<T, LunarError>)
    ensures
        T::obeys_try_from_spec() ==> r == narrow::<T>(native),
{
    match T::try_from(native) {
        Ok(v) => Ok(v),
        Err(_) => Err(LunarError::Overflow),
    }
}

/// The operation that pops `n` values off the stack.
pub fn lua_pop(n: i32) -> (op: Op)
    requires
        0 <= n <= LUAI_MAXSTACK,
    ensures
        op@ == Instr::SetTop((-n - 1) as i32),
{
    Op::SetTop(-n - 1)
}

/// The text of the failure that the engine's error value describes: the
/// value's own text where it has one, and a fixed description otherwise.
pub open spec fn error_text(message: Slot) -> Seq<char> {
    match message {
        Slot::Text(bytes) => if valid_utf8(bytes@) && decode_utf8(bytes@).len() > 0 {
            decode_utf8(bytes@)
        } else {
            "Unable to get error description."@
        },
        _ => "Unable to get error description."@,
    }
}

/// The description of a failure is never empty.
pub proof fn lemma_error_text_not_empty(message: Slot)
    ensures
        error_text(message).len() > 0,
{
    reveal_strlit("Unable to get error description.");
}

/// The text of the engine's error value `message`.
pub fn error(message: &Slot) -> (text: String)
    ensures
        text@ == error_text(*message),
{
    if let Slot::Text(bytes) = message {
        if let Ok(text) = to_string(bytes.clone()) {
            if !text.as_str().is_empty() {
                return text;
            }
        }
    }
    "Unable to get error description.".to_owned()
}

/// The outcome of a protected call, from the status that the engine
/// returned and the error value that it left: success for status zero, and
/// otherwise the failure that the error value describes.
pub fn pcall(status: i32, message: &Slot) -> (r: Result<(), String>)
    ensures
        match r {
            Ok(()) => status == 0,
            Err(text) => status != 0 && text@ == error_text(*message),
        },
{
    if status != 0 {
        return Err(error(message));
    }
    Ok(())
}

} // verus!
