//! The code generator that turns the methods of a worker `impl` block into
//! task types, a client and a task executor: which arguments it accepts,
//! which items it takes apart, the names and messages it gives to what it
//! generates, the choices that shape it, and the generated code itself.
pub mod args;
pub mod codegen;
pub mod items;
pub mod names;
pub mod plan;
