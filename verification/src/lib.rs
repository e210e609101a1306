//! A trampoline layer that lets an embedding virtual machine hold, inspect
//! and mutate a native calendar timestamp type: boxing and checked unboxing
//! of native values behind the machine's tagged references, normalization of
//! its loosely typed construction arguments, dispatch of each operation over
//! the runtime type of its operands, and translation of native failures into
//! the machine's exception taxonomy.

pub mod args;
pub mod buf;
pub mod calendar;
pub mod error;
pub mod options;
pub mod timestamp;
pub mod trampoline;
pub mod value;
