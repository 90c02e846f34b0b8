//! The first stack positions, by name.

use vstd::prelude::*;
use vstd::std_specs::convert::FromSpecImpl;

verus! {

/// One of the first six stack positions.
#[derive(Debug, Clone, Copy, PartialEq, Eq, Structural)]
pub enum LuaStack {
    STACK1,
    STACK2,
    STACK3,
    STACK4,
    STACK5,
    STACK6,
}

/// The stack index that `stack` names.
pub open spec fn stack_index(stack: LuaStack) -> i32 {
    match stack {
        LuaStack::STACK1 => 1,
        LuaStack::STACK2 => 2,
        LuaStack::STACK3 => 3,
        LuaStack::STACK4 => 4,
        LuaStack::STACK5 => 5,
        LuaStack::STACK6 => 6,
    }
}

impl From<LuaStack> for i32 {
    fn from(value: LuaStack) -> (ret: Self) {
        match value {
            LuaStack::STACK1 => 1,
            LuaStack::STACK2 => 2,
            LuaStack::STACK3 => 3,
            LuaStack::STACK4 => 4,
            LuaStack::STACK5 => 5,
            LuaStack::STACK6 => 6,
        }
    }
}

impl FromSpecImpl<LuaStack> for i32 {
    open spec fn obeys_from_spec() -> bool {
        true
    }

    open spec fn from_spec(value: LuaStack) -> Self {
        stack_index(value)
    }
}

} // verus!
