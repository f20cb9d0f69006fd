use rusty_sms::program::Program;
use rusty_sms::vm::callbacks::{Callback, Callbacks, Event};
use rusty_sms::vm::cpu::flags::Flag;
use rusty_sms::vm::cpu::registers::{DoubleRegisterSelector, RegisterSelector};
use rusty_sms::vm::instructions::opcodes::Opcode;
use rusty_sms::vm::machine::Machine;

struct Stop;

impl Callback for Stop {
    fn call(&mut self, machine: &mut Machine, _event: Event) {
        machine.stop();
    }
}

/// Loads the bytes at address zero and runs them until HALT has retired.
fn run_until_halt(vm: &mut Machine, bytes: &[u8]) {
    let mut program = Program::new();
    program.add_vector(bytes.to_vec());
    assert!(vm.load(&program));
    let mut callbacks = Callbacks::new();
    callbacks.on_after_instruction_exec_match(Opcode::Halt, Box::new(Stop));
    vm.start_with_options(0, &mut callbacks);
}

#[test]
fn load_pair_then_halt() {
    let mut vm = Machine::new();
    run_until_halt(&mut vm, &[0x01, 0x34, 0x12, 0x76]);
    assert_eq!((0x12, 0x34), vm.cpu.state.registers.bc);
    assert_eq!(0x1234, vm.get_register_pair(DoubleRegisterSelector::BC));
    // The HALT byte at address 3 has been fetched.
    assert_eq!(0x0004, vm.get_register_pair(DoubleRegisterSelector::PC));
    assert!(vm.cpu.is_halted());
    assert_eq!(10 + 4, vm.ticks);
}

#[test]
fn increment_wraps_the_accumulator() {
    let mut vm = Machine::new();
    run_until_halt(&mut vm, &[0x3E, 0xFF, 0x3C, 0x76]);
    assert_eq!(0x00, vm.get_register(RegisterSelector::A));
    assert!(Flag::Zero.get(&vm.cpu.state));
    assert!(!Flag::Sign.get(&vm.cpu.state));
    assert!(Flag::HalfCarry.get(&vm.cpu.state));
    assert!(!Flag::ParityOverflow.get(&vm.cpu.state));
    assert!(!Flag::Carry.get(&vm.cpu.state));
    assert!(!Flag::AddSubtract.get(&vm.cpu.state));
    assert!(vm.cpu.is_halted());
}

#[test]
fn increment_leaves_a_set_carry() {
    let mut vm = Machine::new();
    Flag::Carry.set(&mut vm.cpu.state, true);
    run_until_halt(&mut vm, &[0x3E, 0xFF, 0x3C, 0x76]);
    assert_eq!(0x00, vm.get_register(RegisterSelector::A));
    assert!(Flag::Carry.get(&vm.cpu.state));
}

#[test]
fn add_overflows_into_the_sign() {
    let mut vm = Machine::new();
    vm.set_register(RegisterSelector::B, 0x01);
    run_until_halt(&mut vm, &[0x3E, 0x7F, 0x80, 0x76]);
    assert_eq!(0x80, vm.get_register(RegisterSelector::A));
    assert!(Flag::Sign.get(&vm.cpu.state));
    assert!(!Flag::Zero.get(&vm.cpu.state));
    assert!(Flag::HalfCarry.get(&vm.cpu.state));
    assert!(Flag::ParityOverflow.get(&vm.cpu.state));
    assert!(!Flag::Carry.get(&vm.cpu.state));
    assert!(!Flag::AddSubtract.get(&vm.cpu.state));
    assert_eq!(0b1001_0100, vm.get_register(RegisterSelector::F));
}

#[test]
fn jump_over_two_bytes_to_halt() {
    let mut vm = Machine::new();
    vm.set_register(RegisterSelector::F, 0xA5);
    run_until_halt(&mut vm, &[0xC3, 0x05, 0x00, 0x00, 0x00, 0x76]);
    // The HALT byte at address 5 has been fetched.
    assert_eq!(0x0006, vm.get_register_pair(DoubleRegisterSelector::PC));
    assert!(vm.cpu.is_halted());
    assert_eq!(0xA5, vm.get_register(RegisterSelector::F));
    assert_eq!(10 + 4, vm.ticks);
}

struct CountOpcode {
    opcode: Opcode,
    seen: std::rc::Rc<std::cell::Cell<u32>>,
}

impl Callback for CountOpcode {
    fn call(&mut self, _machine: &mut Machine, event: Event) {
        assert_eq!(Event::BeforeExec(self.opcode), event);
        self.seen.set(self.seen.get() + 1);
    }
}

#[test]
fn count_down_with_a_relative_jump() {
    // LD B,3; DEC B; JR NZ,-3; HALT. The displacement counts from the
    // address behind the operand, which is 5, so -3 leads back to DEC B.
    let mut vm = Machine::new();
    let mut program = Program::new();
    program.add_vector(vec![0x06, 0x03, 0x05, 0x20, 0xFD, 0x76]);
    assert!(vm.load(&program));
    let decrements = std::rc::Rc::new(std::cell::Cell::new(0));
    let jumps = std::rc::Rc::new(std::cell::Cell::new(0));
    let mut callbacks = Callbacks::new();
    callbacks.on_before_instruction_exec_match(
        Opcode::DecB,
        Box::new(CountOpcode { opcode: Opcode::DecB, seen: decrements.clone() }),
    );
    callbacks.on_before_instruction_exec_match(
        Opcode::JrNZX,
        Box::new(CountOpcode { opcode: Opcode::JrNZX, seen: jumps.clone() }),
    );
    callbacks.on_after_instruction_exec_match(Opcode::Halt, Box::new(Stop));
    vm.start_with_options(0, &mut callbacks);
    assert_eq!(0x00, vm.get_register(RegisterSelector::B));
    assert!(vm.cpu.is_halted());
    assert_eq!(3, decrements.get());
    assert_eq!(3, jumps.get());
    assert_eq!(0x0006, vm.get_register_pair(DoubleRegisterSelector::PC));
}

#[test]
fn relative_jump_by_minus_two_leads_to_itself() {
    // LD B,3; DEC B; JR NZ,-2: the jump stands at address 3 and its operand
    // ends at 5, so that -2 leads to the jump again.
    let mut vm = Machine::new();
    let mut program = Program::new();
    program.add_vector(vec![0x06, 0x03, 0x05, 0x20, 0xFE, 0x76]);
    assert!(vm.load(&program));
    vm.execute();
    vm.execute();
    assert_eq!(0x0003, vm.get_register_pair(DoubleRegisterSelector::PC));
    vm.execute();
    assert_eq!(0x0003, vm.get_register_pair(DoubleRegisterSelector::PC));
    vm.execute();
    assert_eq!(0x0003, vm.get_register_pair(DoubleRegisterSelector::PC));
    assert_eq!(0x02, vm.get_register(RegisterSelector::B));
}

#[test]
fn push_and_pop_through_memory() {
    let mut vm = Machine::new();
    run_until_halt(&mut vm, &[0x31, 0x00, 0x80, 0x21, 0xCD, 0xAB, 0xE5, 0xE1, 0x76]);
    assert_eq!(0xABCD, vm.get_register_pair(DoubleRegisterSelector::HL));
    assert_eq!((0xAB, 0xCD), vm.cpu.state.registers.hl);
    assert_eq!(0x8000, vm.get_register_pair(DoubleRegisterSelector::SP));
    assert_eq!(0xCD, vm.ram.read_u8(0x7FFE));
    assert_eq!(0xAB, vm.ram.read_u8(0x7FFF));
    assert!(vm.cpu.is_halted());
}
