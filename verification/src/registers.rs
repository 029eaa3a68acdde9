//! The register file's closed set of named roles and their numeric codes.
//!
//! Each register maps to a fixed index into the eight-entry register file;
//! the mapping is total and bijective. An unknown numeric code or mnemonic
//! converts to a typed failure, never to a default register.

use vstd::prelude::*;
use vstd::string::StringExecFns;
use vstd::string::StringSliceAdditionalSpecFns;

verus! {

/// The number of registers in the file.
pub const REGISTER_COUNT: usize = 8;

/// A register role. The codec stores a register operand as its code,
/// which is also its index into the register file.
#[derive(Debug, Clone, Copy, PartialEq, Eq, Structural)]
pub enum Register {
    /// General purpose register, code 0.
    A,
    /// General purpose register, code 1.
    B,
    /// General purpose register, code 2.
    C,
    /// Memory-operation scratch register, code 3.
    M,
    /// Stack pointer: the address one past the top of the stack, code 4.
    SP,
    /// Program counter: the address of the next instruction, code 5.
    PC,
    /// Base pointer, reserved for stack frames, code 6.
    BP,
    /// Status flags, unused by the current operations, code 7.
    FLAGS,
}

impl Register {
    /// The numeric code of this register, as stored in instruction operands.
    pub open spec fn spec_code(self) -> u8 {
        match self {
            Register::A => 0,
            Register::B => 1,
            Register::C => 2,
            Register::M => 3,
            Register::SP => 4,
            Register::PC => 5,
            Register::BP => 6,
            Register::FLAGS => 7,
        }
    }

    /// The index of this register in the register file.
    pub open spec fn spec_index(self) -> int {
        self.spec_code() as int
    }

    /// The register a numeric code names, if any.
    pub open spec fn spec_from_u8(v: u8) -> Option<Register> {
        match v {
            0 => Some(Register::A),
            1 => Some(Register::B),
            2 => Some(Register::C),
            3 => Some(Register::M),
            4 => Some(Register::SP),
            5 => Some(Register::PC),
            6 => Some(Register::BP),
            7 => Some(Register::FLAGS),
            _ => None,
        }
    }

    /// The numeric code of this register.
    pub fn code(self) -> (c: u8)
        ensures
            c == self.spec_code(),
    {
        match self {
            Register::A => 0,
            Register::B => 1,
            Register::C => 2,
            Register::M => 3,
            Register::SP => 4,
            Register::PC => 5,
            Register::BP => 6,
            Register::FLAGS => 7,
        }
    }

    /// The index of this register in the register file.
    pub fn index(self) -> (i: usize)
        ensures
            i == self.spec_index(),
            i < REGISTER_COUNT,
    {
        self.code() as usize
    }

    /// Converts a numeric code to a register; an unknown code is data and
    /// yields `None`.
    pub fn from_u8(v: u8) -> (r: Option<Register>)
        ensures
            r == Register::spec_from_u8(v),
    {
        match v {
            0 => Some(Register::A),
            1 => Some(Register::B),
            2 => Some(Register::C),
            3 => Some(Register::M),
            4 => Some(Register::SP),
            5 => Some(Register::PC),
            6 => Some(Register::BP),
            7 => Some(Register::FLAGS),
            _ => None,
        }
    }

    /// Round trip: every register comes back from its own code.
    pub proof fn lemma_code_from_u8(r: Register)
        ensures
            Register::spec_from_u8(r.spec_code()) == Some(r),
    {
    }

    /// The register a mnemonic names, matched case-sensitively against the
    /// canonical name set, given the mnemonic's UTF-8 bytes.
    pub open spec fn spec_from_name(name: Seq<u8>) -> Option<Register> {
        if name.len() == 1 && name[0] == 65 {  // "A"
            Some(Register::A)
        } else if name.len() == 1 && name[0] == 66 {  // "B"
            Some(Register::B)
        } else if name.len() == 1 && name[0] == 67 {  // "C"
            Some(Register::C)
        } else if name.len() == 1 && name[0] == 77 {  // "M"
            Some(Register::M)
        } else if name.len() == 2 && name[0] == 83 && name[1] == 80 {  // "SP"
            Some(Register::SP)
        } else if name.len() == 2 && name[0] == 80 && name[1] == 67 {  // "PC"
            Some(Register::PC)
        } else if name.len() == 2 && name[0] == 66 && name[1] == 80 {  // "BP"
            Some(Register::BP)
        } else if name.len() == 5 && name[0] == 70 && name[1] == 76 && name[2] == 65 && name[3]
            == 71 && name[4] == 83 {  // "FLAGS"
            Some(Register::FLAGS)
        } else {
            None
        }
    }

    /// Converts a mnemonic to a register by case-sensitive match against
    /// the canonical names; any other string is data and yields a failure
    /// carrying the offending name.
    pub fn from_str(s: &str) -> (r: Result<Register, String>)
        ensures
            match r {
                Ok(reg) => Register::spec_from_name(s.spec_bytes()) == Some(reg),
                Err(m) => Register::spec_from_name(s.spec_bytes()) is None && m@
                    == "Invalid register name: "@ + s@,
            },
    {
        let b = s.as_bytes();
        let found: Option<Register> = if b.len() == 1 {
            if b[0] == 65 {
                Some(Register::A)
            } else if b[0] == 66 {
                Some(Register::B)
            } else if b[0] == 67 {
                Some(Register::C)
            } else if b[0] == 77 {
                Some(Register::M)
            } else {
                None
            }
        } else if b.len() == 2 {
            if b[0] == 83 && b[1] == 80 {
                Some(Register::SP)
            } else if b[0] == 80 && b[1] == 67 {
                Some(Register::PC)
            } else if b[0] == 66 && b[1] == 80 {
                Some(Register::BP)
            } else {
                None
            }
        } else if b.len() == 5 {
            if b[0] == 70 && b[1] == 76 && b[2] == 65 && b[3] == 71 && b[4] == 83 {
                Some(Register::FLAGS)
            } else {
                None
            }
        } else {
            None
        };
        match found {
            Some(reg) => Ok(reg),
            None => {
                let mut msg = "Invalid register name: ".to_owned();
                msg.append(s);
                Err(msg)
            },
        }
    }
}

} // verus!
