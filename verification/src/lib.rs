//! A small 16-bit stack-oriented virtual machine: a fixed register file,
//! bounds-checked byte-addressable memory with little-endian 16-bit helpers,
//! a two-byte instruction codec, and a fetch-decode-execute engine whose only
//! halt and extension mechanism is a table of signal handlers.

pub mod errors;
pub mod machine;
pub mod memory;
pub mod opcodes;
pub mod registers;

pub use crate::errors::VmError;
pub use crate::machine::HaltHandler;
pub use crate::machine::Machine;
pub use crate::machine::SignalHandler;
pub use crate::machine::execute_instruction;
pub use crate::memory::Addressable;
pub use crate::memory::LinearMemory;
pub use crate::opcodes::Op;
pub use crate::opcodes::parse_instructions;
pub use crate::opcodes::parse_instructions_arg;
pub use crate::registers::Register;
