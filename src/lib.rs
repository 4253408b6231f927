//! A virtual machine for programs of signed 64-bit words, driven one input and
//! one output at a time.
pub mod intcode;
pub mod interpreter;
pub mod machine;
pub mod memory;
pub mod opcode;
pub mod process;

pub use intcode::Intcode;
pub use interpreter::Interpreter;
