//! The kinds of value that the bridge tells apart, with integers set apart
//! from the other numbers.

use vstd::prelude::*;
use vstd::std_specs::convert::FromSpecImpl;

verus! {

/// The kind of a value, as the bridge sees it.
#[allow(non_camel_case_types)]
#[derive(Debug, Clone, Copy, PartialEq, Eq, Structural)]
pub enum LunarType {
    UNDEFINED,
    NIL,
    BOOLEAN,
    LIGHTUSERDATA,
    NUMBER,
    STRING,
    TABLE,
    FUNCTION,
    USERDATA,
    /// A number that is an integer. The engine's type tags do not tell it
    /// from the other numbers; host types do.
    INTEGER,
}

/// The kind that the engine's numeric type tag `tag` stands for.
pub open spec fn lunar_type_of_tag(tag: i32) -> LunarType {
    if tag == 0 {
        LunarType::NIL
    } else if tag == 1 {
        LunarType::BOOLEAN
    } else if tag == 2 {
        LunarType::LIGHTUSERDATA
    } else if tag == 3 {
        LunarType::NUMBER
    } else if tag == 4 {
        LunarType::STRING
    } else if tag == 5 {
        LunarType::TABLE
    } else if tag == 6 {
        LunarType::FUNCTION
    } else if tag == 7 {
        LunarType::USERDATA
    } else {
        LunarType::UNDEFINED
    }
}

impl From<i32> for LunarType {
    fn from(value: i32) -> (ret: Self) {
        match value {
            0 => LunarType::NIL,
            1 => LunarType::BOOLEAN,
            2 => LunarType::LIGHTUSERDATA,
            3 => LunarType::NUMBER,
            4 => LunarType::STRING,
            5 => LunarType::TABLE,
            6 => LunarType::FUNCTION,
            7 => LunarType::USERDATA,
            _ => LunarType::UNDEFINED,
        }
    }
}

impl FromSpecImpl<i32> for LunarType {
    open spec fn obeys_from_spec() -> bool {
        true
    }

    open spec fn from_spec(value: i32) -> Self {
        lunar_type_of_tag(value)
    }
}

/// No type tag of the engine stands for an integer.
pub proof fn lemma_no_tag_for_integer(tag: i32)
    ensures
        lunar_type_of_tag(tag) != LunarType::INTEGER,
{
}

/// A host type that has a kind on the bridge.
pub trait Type {
    /// The kind under which a value of this type crosses the boundary.
    spec fn kind() -> LunarType;

    fn type_of() -> (t: LunarType)
        ensures
            t == Self::kind(),
    ;
}

impl Type for i8 {
    open spec fn kind() -> LunarType {
        LunarType::INTEGER
    }

    fn type_of() -> (t: LunarType) {
        LunarType::INTEGER
    }
}

impl Type for i16 {
    open spec fn kind() -> LunarType {
        LunarType::INTEGER
    }

    fn type_of() -> (t: LunarType) {
        LunarType::INTEGER
    }
}

impl Type for i32 {
    open spec fn kind() -> LunarType {
        LunarType::INTEGER
    }

    fn type_of() -> (t: LunarType) {
        LunarType::INTEGER
    }
}

impl Type for i64 {
    open spec fn kind() -> LunarType {
        LunarType::INTEGER
    }

    fn type_of() -> (t: LunarType) {
        LunarType::INTEGER
    }
}

impl Type for u8 {
    open spec fn kind() -> LunarType {
        LunarType::INTEGER
    }

    fn type_of() -> (t: LunarType) {
        LunarType::INTEGER
    }
}

impl Type for u16 {
    open spec fn kind() -> LunarType {
        LunarType::INTEGER
    }

    fn type_of() -> (t: LunarType) {
        LunarType::INTEGER
    }
}

impl Type for u32 {
    open spec fn kind() -> LunarType {
        LunarType::INTEGER
    }

    fn type_of() -> (t: LunarType) {
        LunarType::INTEGER
    }
}

impl Type for u64 {
    open spec fn kind() -> LunarType {
        LunarType::INTEGER
    }

    fn type_of() -> (t: LunarType) {
        LunarType::INTEGER
    }
}

impl Type for String {
    open spec fn kind() -> LunarType {
        LunarType::STRING
    }

    fn type_of() -> (t: LunarType) {
        LunarType::STRING
    }
}

impl Type for bool {
    open spec fn kind() -> LunarType {
        LunarType::BOOLEAN
    }

    fn type_of() -> (t: LunarType) {
        LunarType::BOOLEAN
    }
}

} // verus!
