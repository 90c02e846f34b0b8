//! A binding layer between a host program and an embedded, stack-based
//! scripting engine.
//!
//! The library decides; the program around it performs. Every function here
//! works on plain values: the operations it wants the engine to carry out are
//! queued as [`lua::Op`] values, and what the engine reports back comes in as
//! [`lua::Slot`] values and integers.

pub mod context;
pub mod lua;
pub mod lunar;
pub mod lunar_ref;
pub mod machine;
pub mod metatable;
pub mod refr;
pub mod stack;
pub mod state;
pub mod table;
pub mod theorems;
pub mod typedef;
pub mod types;
pub mod userdata;
pub mod value;
