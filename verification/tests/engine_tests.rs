//! Tests for the engine's guarantees: the little-endian write/read round
//! trip, stack discipline, fault behavior, signal dispatch, and wraparound
//! arithmetic.

use rustyvm::Addressable;
use rustyvm::HaltHandler;
use rustyvm::LinearMemory;
use rustyvm::Machine;
use rustyvm::Op;
use rustyvm::Register;
use rustyvm::VmError;

#[test]
fn test_write2_read2_round_trip() {
    let mut memory = LinearMemory::new(256);
    // A 16-bit write followed by a read at the same address yields the
    // value, at the start, in the middle, and at the last word-sized slot
    for addr in [0u16, 1, 100, 253, 254] {
        assert!(memory.write2(addr, 0xBEEF));
        assert_eq!(memory.read2(addr), Some(0xBEEF));
    }
}

#[test]
fn test_bounds_edges() {
    let mut memory = LinearMemory::new(256);
    // The last byte is writable; the first address past the end is not
    assert!(memory.write(255, 0x5A));
    assert!(!memory.write(256, 0x5A));
    assert_eq!(memory.read(256), None);
    // A failed write changes nothing observable
    assert_eq!(memory.read(255), Some(0x5A));
}

#[test]
fn test_push_pop_restores_sp() {
    let mut vm: Machine<HaltHandler> = Machine::new();
    let sp_before = vm.get_register(Register::SP);
    vm.push(0xCAFE).expect("push in bounds must succeed");
    let popped = vm.pop().expect("pop after push must succeed");
    assert_eq!(popped, 0xCAFE);
    assert_eq!(vm.get_register(Register::SP), sp_before);
}

#[test]
fn test_add_program_scenario() {
    // Memory size 8192, SP starting at 0x1000: Push(10), Push(8),
    // AddStack, PopRegister(A) leaves A == 18, SP == 0x1000, PC == 8
    let mut vm: Machine<HaltHandler> = Machine::new();
    let program = [
        Op::Push(10).to_u16().to_le_bytes(),
        Op::Push(8).to_u16().to_le_bytes(),
        Op::AddStack.to_u16().to_le_bytes(),
        Op::PopRegister(Register::A).to_u16().to_le_bytes(),
    ]
    .concat();
    vm.memory
        .load_from_vec(&program, 0)
        .expect("program must load at address 0");
    for _ in 0..4 {
        vm.step().expect("every step of the program must succeed");
    }
    assert_eq!(vm.get_register(Register::A), 18);
    assert_eq!(vm.get_register(Register::SP), 0x1000);
    assert_eq!(vm.get_register(Register::PC), 8);
}

#[test]
fn test_halt_signal_halts() {
    // Signal(0x09) with a halt handler leaves the machine halted and the
    // step reports success
    let mut vm: Machine<HaltHandler> = Machine::new();
    vm.define_handler(0x09, HaltHandler);
    vm.memory.write(0, Op::Signal(0).value());
    vm.memory.write(1, 0x09);
    let r = vm.step();
    assert_eq!(r, Ok(()));
    assert!(vm.halt);
    assert_eq!(vm.get_register(Register::PC), 2);
}

#[test]
fn test_unregistered_signal_faults() {
    // Signal(0x2A) with no handler for 0x2A fails with UnknownSignal, the
    // program counter already advanced past the instruction
    let mut vm: Machine<HaltHandler> = Machine::new();
    vm.define_handler(0x09, HaltHandler);
    vm.memory.write(0, Op::Signal(0).value());
    vm.memory.write(1, 0x2A);
    let r = vm.step();
    assert_eq!(r, Err(VmError::UnknownSignal(0x2A)));
    assert_eq!(vm.get_register(Register::PC), 2);
    assert!(!vm.halt);
}

#[test]
fn test_fetch_out_of_bounds_faults() {
    // A fetch at the last byte cannot read a whole word: a memory fault
    // carrying the program counter, which does not advance
    let mut vm: Machine<HaltHandler> = Machine::new();
    vm.set_register(Register::PC, 8191);
    let r = vm.step();
    assert_eq!(r, Err(VmError::MemoryFault(8191)));
    assert_eq!(vm.get_register(Register::PC), 8191);
}

#[test]
fn test_pop_underflow_is_stack_fault() {
    // A stack pointer too low to move down by two is a stack fault, and
    // the stack pointer stays put
    let mut vm: Machine<HaltHandler> = Machine::new();
    vm.set_register(Register::SP, 1);
    assert_eq!(vm.pop(), Err(VmError::StackFault));
    assert_eq!(vm.get_register(Register::SP), 1);
}

#[test]
fn test_push_at_end_is_stack_fault() {
    let mut vm: Machine<HaltHandler> = Machine::new();
    vm.set_register(Register::SP, 8191);
    assert_eq!(vm.push(0x0102), Err(VmError::StackFault));
    assert_eq!(vm.get_register(Register::SP), 8191);
}

#[test]
fn test_add_stack_wraps() {
    // 0xFFFF + 2 wraps to 1: no overflow detection in this core
    let mut vm: Machine<HaltHandler> = Machine::new();
    vm.set_register(Register::A, 0xFFFF);
    vm.set_register(Register::B, 2);
    let program = [
        Op::PushRegister(Register::A).to_u16().to_le_bytes(),
        Op::PushRegister(Register::B).to_u16().to_le_bytes(),
        Op::AddStack.to_u16().to_le_bytes(),
        Op::PopRegister(Register::C).to_u16().to_le_bytes(),
    ]
    .concat();
    vm.memory
        .load_from_vec(&program, 0)
        .expect("program must load at address 0");
    for _ in 0..4 {
        vm.step().expect("every step of the program must succeed");
    }
    assert_eq!(vm.get_register(Register::C), 1);
}

#[test]
fn test_add_register_wraps() {
    let mut vm: Machine<HaltHandler> = Machine::new();
    vm.set_register(Register::A, 0xFFFE);
    vm.set_register(Register::B, 5);
    vm.memory.write(0, Op::AddRegister(Register::A, Register::B).value());
    vm.memory.write(1, 0x01); // registers A and B, packed as nibbles
    vm.step().expect("the add must execute");
    assert_eq!(vm.get_register(Register::A), 3);
    assert_eq!(vm.get_register(Register::B), 5);
}

#[test]
fn test_decode_fault_still_advances_pc() {
    // Decode failures happen after the fixed-width advance
    let mut vm: Machine<HaltHandler> = Machine::new();
    vm.memory.write(0, 0x05); // unknown opcode
    vm.memory.write(1, 0x00);
    assert_eq!(vm.step(), Err(VmError::UnknownOpcode(0x05)));
    assert_eq!(vm.get_register(Register::PC), 2);
}

#[test]
fn test_load_failure_keeps_prefix() {
    let mut memory = LinearMemory::new(256);
    let data = vec![7u8; 200];
    // Loading 200 bytes at offset 100 runs out of bounds at address 256
    assert_eq!(memory.load_from_vec(&data, 100), None);
    // The bytes that fit were written before the fault
    assert_eq!(memory.read(100), Some(7));
    assert_eq!(memory.read(255), Some(7));
    // Bytes outside the attempted range are untouched
    assert_eq!(memory.read(99), Some(0));
}

#[test]
fn test_copy_moves_bytes() {
    let mut memory = LinearMemory::new(256);
    assert!(memory.write(10, 0xAA));
    assert!(memory.write(11, 0xBB));
    assert!(memory.write(12, 0xCC));
    assert!(memory.copy(10, 200, 3));
    assert_eq!(memory.read(200), Some(0xAA));
    assert_eq!(memory.read(201), Some(0xBB));
    assert_eq!(memory.read(202), Some(0xCC));
    // A copy that would run out of bounds fails
    assert!(!memory.copy(10, 254, 3));
}

#[test]
fn test_from_str_error_message() {
    let err = Register::from_str("X").expect_err("X names no register");
    assert_eq!(err, "Invalid register name: X");
}

#[test]
fn test_pop_into_pc_redirects_execution() {
    // PopRegister may target PC: the popped value becomes the next fetch
    // address
    let mut vm: Machine<HaltHandler> = Machine::new();
    vm.define_handler(0x09, HaltHandler);
    // At 0: PUSH 40; at 2: POP PC; at 40: SIG 9
    vm.memory.write(0, Op::Push(0).value());
    vm.memory.write(1, 40);
    vm.memory.write(2, Op::PopRegister(Register::PC).value());
    vm.memory.write(3, Register::PC as u8);
    vm.memory.write(40, Op::Signal(0).value());
    vm.memory.write(41, 0x09);
    vm.step().expect("PUSH must succeed");
    vm.step().expect("POP PC must succeed");
    assert_eq!(vm.get_register(Register::PC), 40);
    vm.step().expect("the halt signal must succeed");
    assert!(vm.halt);
}
