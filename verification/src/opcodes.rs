//! The instruction codec: a pure, bidirectional mapping between 16-bit
//! instruction words and typed operations.
//!
//! An instruction word keeps its opcode in the low byte and its argument in
//! the high byte. A register operand is the register's code; a two-register
//! operand packs the first register's code into the high nibble of the
//! argument byte and the second's into the low nibble.

use vstd::prelude::*;

use crate::errors::VmError;
use crate::registers::Register;

verus! {

/// Operations the machine executes, one per opcode.
#[derive(Debug, Clone, Copy, PartialEq, Eq, Structural)]
pub enum Op {
    /// No effect. Opcode 0x00.
    Nop,
    /// Push an 8-bit immediate, zero-extended, onto the stack. Opcode 0x01.
    Push(u8),
    /// Pop the top of the stack into a register. Opcode 0x02.
    PopRegister(Register),
    /// Push a register's value onto the stack. Opcode 0x03.
    PushRegister(Register),
    /// Pop two values and push their wrapping sum. Opcode 0x0F.
    AddStack,
    /// Add the second register into the first, wrapping. Opcode 0x04.
    AddRegister(Register, Register),
    /// Dispatch to the handler registered for a code. Opcode 0x09.
    Signal(u8),
}

/// The numeric opcode of an operation.
pub open spec fn spec_opcode(op: Op) -> u8 {
    match op {
        Op::Nop => 0x00,
        Op::Push(_) => 0x01,
        Op::PopRegister(_) => 0x02,
        Op::PushRegister(_) => 0x03,
        Op::AddRegister(_, _) => 0x04,
        Op::Signal(_) => 0x09,
        Op::AddStack => 0x0F,
    }
}

/// The argument byte of an operation: its immediate, its register code,
/// its packed register pair, or zero where it has no operand.
pub open spec fn spec_arg(op: Op) -> u8 {
    match op {
        Op::Nop => 0,
        Op::Push(v) => v,
        Op::PopRegister(r) => r.spec_code(),
        Op::PushRegister(r) => r.spec_code(),
        Op::AddRegister(r1, r2) => (16 * r1.spec_code() + r2.spec_code()) as u8,
        Op::Signal(v) => v,
        Op::AddStack => 0,
    }
}

/// The instruction word of an operation: opcode in the low byte, argument
/// in the high byte.
pub open spec fn spec_encode(op: Op) -> u16 {
    (spec_opcode(op) + 256 * spec_arg(op)) as u16
}

/// The operation an instruction word decodes to, or the typed failure:
/// an unknown opcode or an operand nibble or byte naming no register.
pub open spec fn spec_decode(word: u16) -> Result<Op, VmError> {
    let opcode = (word % 256) as u8;
    let arg = (word / 256) as u8;
    match opcode {
        0x00 => Ok(Op::Nop),
        0x01 => Ok(Op::Push(arg)),
        0x02 => match Register::spec_from_u8(arg) {
            Some(r) => Ok(Op::PopRegister(r)),
            None => Err(VmError::UnknownRegister(arg)),
        },
        0x03 => match Register::spec_from_u8(arg) {
            Some(r) => Ok(Op::PushRegister(r)),
            None => Err(VmError::UnknownRegister(arg)),
        },
        0x04 => match Register::spec_from_u8(arg / 16) {
            Some(r1) => match Register::spec_from_u8(arg % 16) {
                Some(r2) => Ok(Op::AddRegister(r1, r2)),
                None => Err(VmError::UnknownRegister(arg % 16)),
            },
            None => Err(VmError::UnknownRegister(arg / 16)),
        },
        0x09 => Ok(Op::Signal(arg)),
        0x0F => Ok(Op::AddStack),
        _ => Err(VmError::UnknownOpcode(opcode)),
    }
}

impl Op {
    /// The numeric opcode of this operation.
    pub fn value(&self) -> (c: u8)
        ensures
            c == spec_opcode(*self),
    {
        match self {
            Op::Nop => 0x00,
            Op::Push(_) => 0x01,
            Op::PopRegister(_) => 0x02,
            Op::PushRegister(_) => 0x03,
            Op::AddRegister(_, _) => 0x04,
            Op::Signal(_) => 0x09,
            Op::AddStack => 0x0F,
        }
    }

    /// Whether a numeric opcode is the opcode of `other`.
    pub fn equals(x: u8, other: Op) -> (r: bool)
        ensures
            r == (x == spec_opcode(other)),
    {
        x == other.value()
    }

    /// Encodes this operation as its 16-bit instruction word, the exact
    /// inverse of `parse_instructions`.
    pub fn to_u16(&self) -> (word: u16)
        ensures
            word == spec_encode(*self),
    {
        let opcode = self.value();
        let arg: u8 = match self {
            Op::Nop => 0,
            Op::Push(v) => *v,
            Op::PopRegister(r) => r.code(),
            Op::PushRegister(r) => r.code(),
            Op::AddRegister(r1, r2) => 16 * r1.code() + r2.code(),
            Op::Signal(v) => *v,
            Op::AddStack => 0,
        };
        opcode as u16 + 256 * (arg as u16)
    }
}

/// Extracts the argument byte of an instruction word: its high byte.
pub fn parse_instructions_arg(ins: u16) -> (arg: u8)
    ensures
        arg == (ins / 256) as u8,
{
    (ins / 256) as u8
}

/// Decodes a 16-bit instruction word into an operation. An unknown opcode
/// or an operand naming no register is data, and comes back as a typed
/// failure.
pub fn parse_instructions(ins: u16) -> (r: Result<Op, VmError>)
    ensures
        r == spec_decode(ins),
{
    let opcode = (ins % 256) as u8;
    let arg = parse_instructions_arg(ins);
    match opcode {
        0x00 => Ok(Op::Nop),
        0x01 => Ok(Op::Push(arg)),
        0x02 => match Register::from_u8(arg) {
            Some(r) => Ok(Op::PopRegister(r)),
            None => Err(VmError::UnknownRegister(arg)),
        },
        0x03 => match Register::from_u8(arg) {
            Some(r) => Ok(Op::PushRegister(r)),
            None => Err(VmError::UnknownRegister(arg)),
        },
        0x04 => {
            let hi = arg / 16;
            let lo = arg % 16;
            match Register::from_u8(hi) {
                Some(r1) => match Register::from_u8(lo) {
                    Some(r2) => Ok(Op::AddRegister(r1, r2)),
                    None => Err(VmError::UnknownRegister(lo)),
                },
                None => Err(VmError::UnknownRegister(hi)),
            }
        },
        0x09 => Ok(Op::Signal(arg)),
        0x0F => Ok(Op::AddStack),
        _ => Err(VmError::UnknownOpcode(opcode)),
    }
}

/// An instruction word splits back into the byte pair it was packed from.
proof fn lemma_byte_split(opcode: u8, arg: u8)
    ensures
        (opcode + 256 * arg) % 256 == opcode,
        (opcode + 256 * arg) / 256 == arg,
{
    assert((opcode + 256 * arg) % 256 == opcode && (opcode + 256 * arg) / 256 == arg)
        by (nonlinear_arith);
}

/// An argument byte splits back into the nibble pair it was packed from.
proof fn lemma_nibble_split(hi: u8, lo: u8)
    requires
        hi < 16,
        lo < 16,
    ensures
        (16 * hi + lo) / 16 == hi,
        (16 * hi + lo) % 16 == lo,
{
    assert((16 * hi + lo) / 16 == hi && (16 * hi + lo) % 16 == lo) by (nonlinear_arith)
        requires
            hi < 16,
            lo < 16,
    ;
}

/// Round trip: decoding the encoding of any operation yields that
/// operation, for every variant and every operand value.
pub proof fn lemma_decode_encode(op: Op)
    ensures
        spec_decode(spec_encode(op)) == Ok::<Op, VmError>(op),
{
    lemma_byte_split(spec_opcode(op), spec_arg(op));
    match op {
        Op::AddRegister(r1, r2) => {
            lemma_nibble_split(r1.spec_code(), r2.spec_code());
        },
        _ => {},
    }
}

} // verus!
