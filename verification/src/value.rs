//! Values as the engine holds them, with host numbers widened to the
//! engine's own width.

use vstd::prelude::*;
use vstd::std_specs::convert::FromSpecImpl;
use crate::context::Function;
use crate::table::Table;

verus! {

/// A value in the engine's own terms.
#[allow(non_camel_case_types)]
#[derive(Debug, Clone, PartialEq, Eq)]
pub enum LunarValue {
    NIL,
    BOOLEAN(bool),
    /// A raw address.
    LIGHTUSERDATA(usize),
    INTEGER(i64),
    /// A floating-point number, by its bits.
    NUMBER(u64),
    STRING(String),
    TABLE(Table),
    FUNCTION(Function),
    /// The address that a userdata cell holds.
    USERDATA(usize),
}

impl From<i8> for LunarValue {
    fn from(value: i8) -> (ret: Self) {
        LunarValue::INTEGER(value as i64)
    }
}

impl FromSpecImpl<i8> for LunarValue {
    open spec fn obeys_from_spec() -> bool {
        true
    }

    open spec fn from_spec(value: i8) -> Self {
        LunarValue::INTEGER(value as i64)
    }
}

impl From<i16> for LunarValue {
    fn from(value: i16) -> (ret: Self) {
        LunarValue::INTEGER(value as i64)
    }
}

impl FromSpecImpl<i16> for LunarValue {
    open spec fn obeys_from_spec() -> bool {
        true
    }

    open spec fn from_spec(value: i16) -> Self {
        LunarValue::INTEGER(value as i64)
    }
}

impl From<i32> for LunarValue {
    fn from(value: i32) -> (ret: Self) {
        LunarValue::INTEGER(value as i64)
    }
}

impl FromSpecImpl<i32> for LunarValue {
    open spec fn obeys_from_spec() -> bool {
        true
    }

    open spec fn from_spec(value: i32) -> Self {
        LunarValue::INTEGER(value as i64)
    }
}

impl From<u8> for LunarValue {
    fn from(value: u8) -> (ret: Self) {
        LunarValue::INTEGER(value as i64)
    }
}

impl FromSpecImpl<u8> for LunarValue {
    open spec fn obeys_from_spec() -> bool {
        true
    }

    open spec fn from_spec(value: u8) -> Self {
        LunarValue::INTEGER(value as i64)
    }
}

impl From<u16> for LunarValue {
    fn from(value: u16) -> (ret: Self) {
        LunarValue::INTEGER(value as i64)
    }
}

impl FromSpecImpl<u16> for LunarValue {
    open spec fn obeys_from_spec() -> bool {
        true
    }

    open spec fn from_spec(value: u16) -> Self {
        LunarValue::INTEGER(value as i64)
    }
}

impl From<u32> for LunarValue {
    fn from(value: u32) -> (ret: Self) {
        LunarValue::INTEGER(value as i64)
    }
}

impl FromSpecImpl<u32> for LunarValue {
    open spec fn obeys_from_spec() -> bool {
        true
    }

    open spec fn from_spec(value: u32) -> Self {
        LunarValue::INTEGER(value as i64)
    }
}

impl From<i64> for LunarValue {
    fn from(value: i64) -> (ret: Self) {
        LunarValue::INTEGER(value)
    }
}

impl FromSpecImpl<i64> for LunarValue {
    open spec fn obeys_from_spec() -> bool {
        true
    }

    open spec fn from_spec(value: i64) -> Self {
        LunarValue::INTEGER(value)
    }
}

impl From<String> for LunarValue {
    fn from(value: String) -> (ret: Self) {
        LunarValue::STRING(value)
    }
}

impl FromSpecImpl<String> for LunarValue {
    open spec fn obeys_from_spec() -> bool {
        true
    }

    open spec fn from_spec(value: String) -> Self {
        LunarValue::STRING(value)
    }
}

} // verus!
