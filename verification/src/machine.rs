//! The machine: register file, memory, halt flag and signal dispatch table,
//! driven by a fetch-decode-execute step.
//!
//! Each instruction is two bytes. A step reads the word at the program
//! counter, advances the program counter by exactly two whatever the
//! operation turns out to be, decodes, and dispatches. Every fault comes
//! back as a typed error; the driving loop treats the first fault as
//! terminal. The only sanctioned way to halt is a signal handler that sets
//! the halt flag.

use std::collections::HashMap;

use vstd::prelude::*;

use crate::errors::VmError;
use crate::memory::Addressable;
use crate::memory::LinearMemory;
use crate::memory::spec_read2;
use crate::memory::spec_write2;
use crate::memory::word_addr_ok;
use crate::opcodes::Op;
use crate::opcodes::parse_instructions;
use crate::opcodes::spec_decode;
use crate::registers::REGISTER_COUNT;
use crate::registers::Register;

verus! {

broadcast use vstd::std_specs::hash::group_hash_axioms;

/// The memory capacity of a machine, in bytes.
pub const DEFAULT_MEMORY_SIZE: usize = 8192;

/// The address where the stack region conventionally begins; the stack
/// pointer starts here and grows toward higher addresses.
pub const STACK_BASE: u16 = 0x1000;

/// The mathematical state of a machine: its register file, its memory
/// contents, and its halt flag. The signal table is configuration, fixed
/// before a run, and is not part of this state.
pub ghost struct MachineState {
    /// The register values, indexed by register code.
    pub regs: Seq<u16>,
    /// The memory contents.
    pub mem: Seq<u8>,
    /// Whether a handler has halted the machine.
    pub halt: bool,
}

/// Bundles a register file, memory contents and a halt flag into one state.
pub open spec fn state_of(regs: Seq<u16>, mem: Seq<u8>, halt: bool) -> MachineState {
    MachineState { regs, mem, halt }
}

impl MachineState {
    /// The stack pointer: the address one past the top of the stack.
    pub open spec fn sp(self) -> u16 {
        self.regs[Register::SP.spec_index()]
    }

    /// The program counter: the address of the next instruction.
    pub open spec fn pc(self) -> u16 {
        self.regs[Register::PC.spec_index()]
    }

    /// This state with one register replaced.
    pub open spec fn with_reg(self, r: Register, v: u16) -> MachineState {
        MachineState { regs: self.regs.update(r.spec_index(), v), mem: self.mem, halt: self.halt }
    }
}

/// A host-supplied signal handler, the machine's only extension mechanism.
/// A handler receives exclusive mutable access to the machine's state and
/// either succeeds or reports a typed failure; `handled` is the handler's
/// own contract, relating the state it was given to the state it leaves.
pub trait SignalHandler: Sized {
    /// What this handler guarantees: how the state after the call relates
    /// to the state before it, and what result it reports.
    spec fn handled(&self, pre: MachineState, post: MachineState, r: Result<(), VmError>) -> bool;

    /// Runs the handler on the machine's registers, memory and halt flag.
    /// A handler may change memory contents but never memory capacity.
    fn handle(&self, registers: &mut [u16; REGISTER_COUNT], memory: &mut LinearMemory, halt: &mut bool) -> (r: Result<
        (),
        VmError,
    >)
        ensures
            self.handled(
                state_of(old(registers)@, old(memory).mem(), *old(halt)),
                state_of(final(registers)@, final(memory).mem(), *final(halt)),
                r,
            ),
            final(memory).mem().len() == old(memory).mem().len(),
    ;
}

/// The conventional halt handler, commonly registered under code 0x09: it
/// sets the halt flag, changes nothing else, and succeeds. Since the
/// instruction set has no halt opcode, this is the sanctioned way to stop
/// the machine.
#[derive(Debug, Clone, Copy, PartialEq, Eq, Structural)]
pub struct HaltHandler;

impl SignalHandler for HaltHandler {
    open spec fn handled(&self, pre: MachineState, post: MachineState, r: Result<(), VmError>) -> bool {
        post == state_of(pre.regs, pre.mem, true) && r == Ok::<(), VmError>(())
    }

    fn handle(&self, registers: &mut [u16; REGISTER_COUNT], memory: &mut LinearMemory, halt: &mut bool) -> (r: Result<
        (),
        VmError,
    >) {
        *halt = true;
        Ok(())
    }
}

/// The state and result of a push: the value is written little-endian at
/// the stack pointer, and on success the stack pointer moves up by two.
/// An out-of-bounds write is a stack fault; a failing write whose first
/// half was in bounds still lands its low byte, and leaves the stack
/// pointer unchanged.
pub open spec fn spec_push(s: MachineState, v: u16) -> (MachineState, Result<(), VmError>) {
    let sp = s.sp();
    if word_addr_ok(s.mem.len() as int, sp) {
        (
            MachineState {
                regs: s.regs.update(Register::SP.spec_index(), (sp + 2) as u16),
                mem: spec_write2(s.mem, sp, v),
                halt: s.halt,
            },
            Ok(()),
        )
    } else {
        (
            MachineState { regs: s.regs, mem: spec_write2(s.mem, sp, v), halt: s.halt },
            Err(VmError::StackFault),
        )
    }
}

/// The state and result of a pop: the stack pointer moves down by two and
/// the word there is read. A stack pointer too low to move down, or an
/// out-of-bounds read, is a stack fault that leaves the stack pointer
/// unchanged.
pub open spec fn spec_pop(s: MachineState) -> (MachineState, Result<u16, VmError>) {
    let sp = s.sp();
    if sp < 2 {
        (s, Err(VmError::StackFault))
    } else if word_addr_ok(s.mem.len() as int, (sp - 2) as u16) {
        (s.with_reg(Register::SP, (sp - 2) as u16), Ok(spec_read2(s.mem, (sp - 2) as u16)))
    } else {
        (s, Err(VmError::StackFault))
    }
}

/// What executing one decoded operation does to the machine state, and
/// what it returns. For a signal with a registered handler the outcome is
/// whatever that handler's own contract admits; every other case is
/// determined exactly.
pub open spec fn spec_exec_post<H: SignalHandler>(
    pre: MachineState,
    handlers: Map<u8, H>,
    op: Op,
    post: MachineState,
    r: Result<(), VmError>,
) -> bool {
    match op {
        Op::Nop => post == pre && r == Ok::<(), VmError>(()),
        Op::Push(v) => (post, r) == spec_push(pre, v as u16),
        Op::PopRegister(rg) => {
            let (s2, pr) = spec_pop(pre);
            match pr {
                Ok(v) => post == s2.with_reg(rg, v) && r == Ok::<(), VmError>(()),
                Err(e) => post == s2 && r == Err::<(), VmError>(e),
            }
        },
        Op::PushRegister(rg) => (post, r) == spec_push(pre, pre.regs[rg.spec_index()]),
        Op::AddStack => {
            let (s2, r1) = spec_pop(pre);
            match r1 {
                Err(e) => post == s2 && r == Err::<(), VmError>(e),
                Ok(a) => {
                    let (s3, r2) = spec_pop(s2);
                    match r2 {
                        Err(e) => post == s3 && r == Err::<(), VmError>(e),
                        Ok(b) => (post, r) == spec_push(s3, a.wrapping_add(b)),
                    }
                },
            }
        },
        Op::AddRegister(r1g, r2g) => {
            post == pre.with_reg(
                r1g,
                pre.regs[r1g.spec_index()].wrapping_add(pre.regs[r2g.spec_index()]),
            ) && r == Ok::<(), VmError>(())
        },
        Op::Signal(code) => {
            if handlers.contains_key(code) {
                handlers[code].handled(pre, post, r)
            } else {
                post == pre && r == Err::<(), VmError>(VmError::UnknownSignal(code))
            }
        },
    }
}

/// What one fetch-decode-execute step does. A fetch that runs out of
/// bounds faults before the program counter moves; after a successful
/// fetch the program counter advances by exactly two, whatever decode and
/// dispatch then do.
pub open spec fn spec_step_post<H: SignalHandler>(
    pre: MachineState,
    handlers: Map<u8, H>,
    post: MachineState,
    r: Result<(), VmError>,
) -> bool {
    let pc = pre.pc();
    if !word_addr_ok(pre.mem.len() as int, pc) {
        post == pre && r == Err::<(), VmError>(VmError::MemoryFault(pc))
    } else {
        let ins = spec_read2(pre.mem, pc);
        let s1 = pre.with_reg(Register::PC, (pc + 2) as u16);
        match spec_decode(ins) {
            Err(e) => post == s1 && r == Err::<(), VmError>(e),
            Ok(op) => spec_exec_post(s1, handlers, op, post, r),
        }
    }
}

/// The state of a machine as created: stack pointer at the stack base,
/// program counter at zero, everything else zero, memory zero-filled.
pub open spec fn init_state() -> MachineState {
    MachineState {
        regs: seq![0u16, 0, 0, 0, STACK_BASE, 0, 0, 0],
        mem: Seq::new(DEFAULT_MEMORY_SIZE as nat, |i: int| 0u8),
        halt: false,
    }
}

/// The virtual machine: one register file, one memory, one halt flag, and
/// one signal dispatch table mapping codes to handlers of type `H`.
pub struct Machine<H> {
    /// The register file, indexed by register code.
    pub registers: [u16; REGISTER_COUNT],
    /// Whether a signal handler has halted the machine.
    pub halt: bool,
    /// The signal dispatch table, populated before the run begins.
    pub signal_handlers: HashMap<u8, H>,
    /// The machine's memory.
    pub memory: LinearMemory,
}

impl<H: SignalHandler> Machine<H> {
    /// The mathematical state of this machine.
    pub open spec fn state(self) -> MachineState {
        state_of(self.registers@, self.memory.mem(), self.halt)
    }

    /// Well-formedness: every memory address fits a 16-bit word, so stack
    /// and program-counter arithmetic cannot wrap.
    pub open spec fn wf(self) -> bool {
        self.memory.mem().len() <= 0xFFFF
    }

    /// Creates a machine with the stack pointer at the stack base, the
    /// program counter at zero, all other registers zero, memory
    /// zero-filled, and no signal handlers.
    pub fn new() -> (m: Machine<H>)
        ensures
            m.wf(),
            m.state() == init_state(),
            m.signal_handlers@ == Map::<u8, H>::empty(),
    {
        let mut registers: [u16; REGISTER_COUNT] = [0, 0, 0, 0, 0, 0, 0, 0];
        registers[Register::SP.index()] = STACK_BASE;
        let m = Machine {
            registers,
            halt: false,
            signal_handlers: HashMap::new(),
            memory: LinearMemory::new(DEFAULT_MEMORY_SIZE),
        };
        proof {
            assert(m.state().regs =~= init_state().regs);
            assert(m.state().mem =~= init_state().mem);
        }
        m
    }

    /// The current value of a register.
    pub fn get_register(&self, r: Register) -> (v: u16)
        ensures
            v == self.state().regs[r.spec_index()],
    {
        self.registers[r.index()]
    }

    /// Sets a register to a value.
    pub fn set_register(&mut self, r: Register, v: u16)
        ensures
            final(self).state() == old(self).state().with_reg(r, v),
            final(self).signal_handlers@ == old(self).signal_handlers@,
    {
        let i = r.index();
        self.registers[i] = v;
    }

    /// Registers `f` as the handler for signal code `index`, replacing any
    /// handler that code had.
    pub fn define_handler(&mut self, index: u8, f: H)
        ensures
            final(self).signal_handlers@ == old(self).signal_handlers@.insert(index, f),
            final(self).state() == old(self).state(),
    {
        self.signal_handlers.insert(index, f);
    }

    /// Pushes a 16-bit value: writes it at the stack pointer, then moves
    /// the stack pointer up by two. An out-of-bounds write is a stack
    /// fault and leaves the stack pointer unchanged.
    pub fn push(&mut self, v: u16) -> (r: Result<(), VmError>)
        requires
            old(self).wf(),
        ensures
            final(self).wf(),
            final(self).signal_handlers@ == old(self).signal_handlers@,
            spec_push(old(self).state(), v) == (final(self).state(), r),
    {
        let sp = self.registers[Register::SP.index()];
        if !self.memory.write2(sp, v) {
            return Err(VmError::StackFault);
        }
        self.registers[Register::SP.index()] = sp + 2;
        Ok(())
    }

    /// Pops a 16-bit value: moves the stack pointer down by two, then
    /// reads the word there. A stack pointer too low to move down, or an
    /// out-of-bounds read, is a stack fault that leaves the stack pointer
    /// unchanged.
    pub fn pop(&mut self) -> (r: Result<u16, VmError>)
        requires
            old(self).wf(),
        ensures
            final(self).wf(),
            final(self).signal_handlers@ == old(self).signal_handlers@,
            spec_pop(old(self).state()) == (final(self).state(), r),
    {
        let sp = self.registers[Register::SP.index()];
        if sp < 2 {
            return Err(VmError::StackFault);
        }
        match self.memory.read2(sp - 2) {
            Some(v) => {
                self.registers[Register::SP.index()] = sp - 2;
                Ok(v)
            },
            None => Err(VmError::StackFault),
        }
    }

    /// One fetch-decode-execute step, callable while the machine is
    /// running. Fetches the word at the program counter (an out-of-bounds
    /// fetch is a memory fault at that address), advances the program
    /// counter by exactly two, decodes, and executes. The first fault is
    /// returned and is terminal for the driving loop.
    pub fn step(&mut self) -> (r: Result<(), VmError>)
        requires
            old(self).wf(),
            !old(self).halt,
        ensures
            final(self).wf(),
            final(self).signal_handlers@ == old(self).signal_handlers@,
            spec_step_post(old(self).state(), old(self).signal_handlers@, final(self).state(), r),
    {
        let pc = self.registers[Register::PC.index()];
        let ins = match self.memory.read2(pc) {
            Some(ins) => ins,
            None => {
                return Err(VmError::MemoryFault(pc));
            },
        };
        self.registers[Register::PC.index()] = pc + 2;
        let op = match parse_instructions(ins) {
            Ok(op) => op,
            Err(e) => {
                return Err(e);
            },
        };
        execute_instruction(self, op)
    }
}

/// Executes one already-decoded operation against the machine: the
/// dispatch half of a step, without the fetch and the program-counter
/// advance.
pub fn execute_instruction<H: SignalHandler>(machine: &mut Machine<H>, op: Op) -> (r: Result<
    (),
    VmError,
>)
    requires
        old(machine).wf(),
    ensures
        final(machine).wf(),
        final(machine).signal_handlers@ == old(machine).signal_handlers@,
        spec_exec_post(old(machine).state(), old(machine).signal_handlers@, op, final(machine).state(), r),
{
    match op {
        Op::Nop => Ok(()),
        Op::Push(v) => machine.push(v as u16),
        Op::PopRegister(rg) => {
            match machine.pop() {
                Ok(value) => {
                    let i = rg.index();
                    machine.registers[i] = value;
                    Ok(())
                },
                Err(e) => Err(e),
            }
        },
        Op::PushRegister(rg) => {
            let value = machine.registers[rg.index()];
            machine.push(value)
        },
        Op::AddStack => {
            let a = match machine.pop() {
                Ok(a) => a,
                Err(e) => {
                    return Err(e);
                },
            };
            let b = match machine.pop() {
                Ok(b) => b,
                Err(e) => {
                    return Err(e);
                },
            };
            machine.push(a.wrapping_add(b))
        },
        Op::AddRegister(r1g, r2g) => {
            let i1 = r1g.index();
            let i2 = r2g.index();
            let sum = machine.registers[i1].wrapping_add(machine.registers[i2]);
            machine.registers[i1] = sum;
            Ok(())
        },
        Op::Signal(s) => {
            match machine.signal_handlers.get(&s) {
                None => Err(VmError::UnknownSignal(s)),
                Some(h) => h.handle(&mut machine.registers, &mut machine.memory, &mut machine.halt),
            }
        },
    }
}

/// Stack discipline: from any state whose stack pointer admits an
/// in-bounds push, pushing a value and then popping succeeds, returns that
/// value, and restores every register — the stack pointer in particular —
/// to its pre-push value.
pub proof fn lemma_push_then_pop(s: MachineState, v: u16)
    requires
        s.regs.len() == REGISTER_COUNT,
        s.mem.len() <= 0xFFFF,
        word_addr_ok(s.mem.len() as int, s.sp()),
    ensures
        ({
            let (s1, r1) = spec_push(s, v);
            let (s2, r2) = spec_pop(s1);
            r1 == Ok::<(), VmError>(()) && r2 == Ok::<u16, VmError>(v) && s2.regs == s.regs
                && s2.halt == s.halt
        }),
{
    crate::memory::lemma_write2_read2(s.mem, s.sp(), v);
    let (s1, r1) = spec_push(s, v);
    let (s2, r2) = spec_pop(s1);
    assert(s2.regs =~= s.regs);
}

} // verus!
