//! A stack-based bytecode engine: a closed instruction set, a typed value
//! stack and an accumulator, with every step proved against a model of
//! the machine.

pub mod value;
pub mod cpu;
pub mod laws;
