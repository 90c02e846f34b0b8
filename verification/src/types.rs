//! The type tags of the engine and the host types that correspond to them.

use vstd::prelude::*;
use vstd::std_specs::convert::FromSpecImpl;

verus! {

/// The category of a value on the engine's stack.
#[derive(Debug, Clone, Copy, PartialEq, Eq, Structural)]
pub enum LuaType {
    Undefined,
    Nil,
    Bool,
    Function,
    Number,
    String,
    Userdata,
    LightUserdata,
    Table,
}

/// The category that the engine's numeric type tag `tag` stands for.
pub open spec fn lua_type_of_tag(tag: i32) -> LuaType {
    if tag == 0 {
        LuaType::Nil
    } else if tag == 1 {
        LuaType::Bool
    } else if tag == 2 {
        LuaType::LightUserdata
    } else if tag == 3 {
        LuaType::Number
    } else if tag == 4 {
        LuaType::String
    } else if tag == 5 {
        LuaType::Table
    } else if tag == 6 {
        LuaType::Function
    } else if tag == 7 {
        LuaType::Userdata
    } else {
        LuaType::Undefined
    }
}

impl From<i32> for LuaType {
    fn from(value: i32) -> (ret: Self) {
        match value {
            0 => LuaType::Nil,
            1 => LuaType::Bool,
            2 => LuaType::LightUserdata,
            3 => LuaType::Number,
            4 => LuaType::String,
            5 => LuaType::Table,
            6 => LuaType::Function,
            7 => LuaType::Userdata,
            _ => LuaType::Undefined,
        }
    }
}

impl FromSpecImpl<i32> for LuaType {
    open spec fn obeys_from_spec() -> bool {
        true
    }

    open spec fn from_spec(value: i32) -> Self {
        lua_type_of_tag(value)
    }
}

/// A host type that has a category on the engine's side.
pub trait Type {
    /// The category under which a value of this type crosses the boundary.
    spec fn category() -> LuaType;

    fn type_of() -> (t: LuaType)
        ensures
            t == Self::category(),
    ;
}

impl Type for i8 {
    open spec fn category() -> LuaType {
        LuaType::Number
    }

    fn type_of() -> (t: LuaType) {
        LuaType::Number
    }
}

impl Type for i16 {
    open spec fn category() -> LuaType {
        LuaType::Number
    }

    fn type_of() -> (t: LuaType) {
        LuaType::Number
    }
}

impl Type for i32 {
    open spec fn category() -> LuaType {
        LuaType::Number
    }

    fn type_of() -> (t: LuaType) {
        LuaType::Number
    }
}

impl Type for i64 {
    open spec fn category() -> LuaType {
        LuaType::Number
    }

    fn type_of() -> (t: LuaType) {
        LuaType::Number
    }
}

impl Type for u8 {
    open spec fn category() -> LuaType {
        LuaType::Number
    }

    fn type_of() -> (t: LuaType) {
        LuaType::Number
    }
}

impl Type for u16 {
    open spec fn category() -> LuaType {
        LuaType::Number
    }

    fn type_of() -> (t: LuaType) {
        LuaType::Number
    }
}

impl Type for u32 {
    open spec fn category() -> LuaType {
        LuaType::Number
    }

    fn type_of() -> (t: LuaType) {
        LuaType::Number
    }
}

impl Type for u64 {
    open spec fn category() -> LuaType {
        LuaType::Number
    }

    fn type_of() -> (t: LuaType) {
        LuaType::Number
    }
}

impl Type for String {
    open spec fn category() -> LuaType {
        LuaType::String
    }

    fn type_of() -> (t: LuaType) {
        LuaType::String
    }
}

impl Type for bool {
    open spec fn category() -> LuaType {
        LuaType::Bool
    }

    fn type_of() -> (t: LuaType) {
        LuaType::Bool
    }
}

} // verus!
