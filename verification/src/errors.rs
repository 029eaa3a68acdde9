//! Typed failures reported by the machine, the memory and the codec.

use vstd::prelude::*;

verus! {

/// Every fault the core can report. Unknown opcodes, register codes and
/// signal codes are data, not program errors: they come back as values.
#[derive(Debug, Clone, Copy, PartialEq, Eq, Structural)]
pub enum VmError {
    /// An out-of-bounds read or write, carrying the offending address.
    MemoryFault(u16),
    /// An instruction word whose low byte matches no opcode.
    UnknownOpcode(u8),
    /// A register operand byte that names no register.
    UnknownRegister(u8),
    /// A signal code with no registered handler.
    UnknownSignal(u8),
    /// A memory fault during a stack push or pop; a failed pop leaves
    /// the stack pointer unchanged.
    StackFault,
}

} // verus!
