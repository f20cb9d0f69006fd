use rusty_sms::program::Program;
use rusty_sms::vm::callbacks::{Callback, Callbacks, Event};
use rusty_sms::vm::cpu::registers::{DoubleRegisterSelector, RegisterSelector};
use rusty_sms::vm::instructions::opcodes::Opcode;
use rusty_sms::vm::machine::Machine;
use std::cell::RefCell;
use std::rc::Rc;

type Log = Rc<RefCell<Vec<String>>>;

/// Writes its name, the event and the program counter into a log.
struct Recorder {
    name: &'static str,
    log: Log,
}

impl Callback for Recorder {
    fn call(&mut self, machine: &mut Machine, event: Event) {
        let pc = machine.get_register_pair(DoubleRegisterSelector::PC);
        let a = machine.get_register(RegisterSelector::A);
        self.log.borrow_mut().push(format!("{} {:?} pc={} a={}", self.name, event, pc, a));
    }
}

struct Stop;

impl Callback for Stop {
    fn call(&mut self, machine: &mut Machine, _event: Event) {
        machine.stop();
    }
}

struct SetB(u8);

impl Callback for SetB {
    fn call(&mut self, machine: &mut Machine, _event: Event) {
        machine.set_register(RegisterSelector::B, self.0);
    }
}

fn recorder(name: &'static str, log: &Log) -> Box<dyn Callback> {
    Box::new(Recorder { name, log: log.clone() })
}

fn machine(bytes: &[u8]) -> Machine {
    let mut vm = Machine::new();
    let mut program = Program::new();
    program.add_vector(bytes.to_vec());
    assert!(vm.load(&program));
    vm
}

#[test]
fn hooks_fire_in_their_slots() {
    let log: Log = Rc::new(RefCell::new(Vec::new()));
    let mut callbacks = Callbacks::new();
    callbacks.on_after_instruction_exec_match(Opcode::IncA, recorder("after-match", &log));
    callbacks.on_after_instruction_exec(recorder("after", &log));
    callbacks.on_before_instruction_exec(recorder("before", &log));
    callbacks.on_before_instruction_exec_match(Opcode::IncA, recorder("before-match", &log));
    callbacks.on_before_instruction_fetch(recorder("fetch", &log));
    let mut vm = machine(&[0x3C]);
    vm.execute_with(&mut callbacks);
    assert_eq!(
        vec![
            "fetch BeforeFetch pc=0 a=0",
            "before-match BeforeExec(IncA) pc=1 a=0",
            "before BeforeExec(IncA) pc=1 a=0",
            "after AfterExec(IncA) pc=1 a=1",
            "after-match AfterExec(IncA) pc=1 a=1",
        ],
        *log.borrow()
    );
}

#[test]
fn hooks_of_one_collection_fire_in_registration_order() {
    let log: Log = Rc::new(RefCell::new(Vec::new()));
    let mut callbacks = Callbacks::new();
    callbacks.on_before_instruction_fetch(recorder("f1", &log));
    callbacks.on_before_instruction_fetch(recorder("f2", &log));
    callbacks.on_before_instruction_fetch(recorder("f3", &log));
    callbacks.on_before_instruction_exec_match(Opcode::Nop, recorder("m1", &log));
    callbacks.on_before_instruction_exec_match(Opcode::Halt, recorder("other", &log));
    callbacks.on_before_instruction_exec_match(Opcode::Nop, recorder("m2", &log));
    callbacks.on_after_instruction_exec(recorder("a1", &log));
    callbacks.on_after_instruction_exec(recorder("a2", &log));
    let mut vm = machine(&[0x00]);
    vm.execute_with(&mut callbacks);
    let names: Vec<String> =
        log.borrow().iter().map(|line| line.split(' ').next().unwrap().to_string()).collect();
    assert_eq!(vec!["f1", "f2", "f3", "m1", "m2", "a1", "a2"], names);
}

#[test]
fn a_hook_for_one_opcode_is_silent_for_the_others() {
    let log: Log = Rc::new(RefCell::new(Vec::new()));
    let mut callbacks = Callbacks::new();
    callbacks.on_before_instruction_exec_match(Opcode::IncB, recorder("b", &log));
    callbacks.on_after_instruction_exec_match(Opcode::IncB, recorder("b", &log));
    let mut vm = machine(&[0x3C, 0x04, 0x3C]);
    vm.execute_with(&mut callbacks);
    assert!(log.borrow().is_empty());
    vm.execute_with(&mut callbacks);
    assert_eq!(2, log.borrow().len());
    vm.execute_with(&mut callbacks);
    assert_eq!(2, log.borrow().len());
    assert_eq!(2, vm.get_register(RegisterSelector::A));
}

#[test]
fn a_hook_may_change_what_the_handler_sees() {
    // LD A,B with a hook that writes B before the handler runs.
    let mut callbacks = Callbacks::new();
    callbacks.on_before_instruction_exec(Box::new(SetB(0x77)));
    let mut vm = machine(&[0x78]);
    vm.execute_with(&mut callbacks);
    assert_eq!(0x77, vm.get_register(RegisterSelector::A));
}

#[test]
fn a_hook_before_the_fetch_may_move_the_program_counter() {
    struct Goto(u16);
    impl Callback for Goto {
        fn call(&mut self, machine: &mut Machine, _event: Event) {
            machine.cpu.goto(self.0);
        }
    }
    let mut callbacks = Callbacks::new();
    callbacks.on_before_instruction_fetch(Box::new(Goto(2)));
    let mut vm = machine(&[0x3C, 0x3C, 0x04]);
    vm.execute_with(&mut callbacks);
    assert_eq!(0, vm.get_register(RegisterSelector::A));
    assert_eq!(1, vm.get_register(RegisterSelector::B));
    assert_eq!(3, vm.get_register_pair(DoubleRegisterSelector::PC));
}

#[test]
fn the_step_in_which_a_hook_stops_still_retires() {
    let log: Log = Rc::new(RefCell::new(Vec::new()));
    let mut callbacks = Callbacks::new();
    callbacks.on_before_instruction_exec_match(Opcode::IncB, Box::new(Stop));
    callbacks.on_after_instruction_exec(recorder("after", &log));
    let mut vm = machine(&[0x3C, 0x3C, 0x04, 0x3C]);
    vm.start_with_options(0, &mut callbacks);
    assert!(!vm.run);
    assert_eq!(2, vm.get_register(RegisterSelector::A));
    assert_eq!(1, vm.get_register(RegisterSelector::B));
    assert_eq!(3, vm.get_register_pair(DoubleRegisterSelector::PC));
    assert_eq!(3, log.borrow().len());
    assert_eq!("after AfterExec(IncB) pc=3 a=2", log.borrow()[2]);
}

#[test]
fn a_halted_processor_calls_no_hook() {
    // HALT; INC A. The hook after HALT stops the machine, so that the loop
    // ends with the halt; a second run releases the processor.
    let log: Log = Rc::new(RefCell::new(Vec::new()));
    let mut callbacks = Callbacks::new();
    callbacks.on_before_instruction_fetch(recorder("fetch", &log));
    callbacks.on_after_instruction_exec_match(Opcode::Halt, Box::new(Stop));
    callbacks.on_after_instruction_exec_match(Opcode::IncA, Box::new(Stop));
    let mut vm = machine(&[0x76, 0x3C]);
    vm.start_with_options(0, &mut callbacks);
    assert!(vm.cpu.is_halted());
    assert_eq!(1, log.borrow().len());
    assert_eq!(1, vm.get_register_pair(DoubleRegisterSelector::PC));
    vm.start_with_options(1, &mut callbacks);
    assert!(!vm.cpu.is_halted());
    assert_eq!(1, vm.get_register(RegisterSelector::A));
    assert_eq!(2, log.borrow().len());
}

#[test]
fn without_hooks_a_step_with_a_registry_is_a_plain_step() {
    let mut with = machine(&[0x3E, 0x12, 0x87]);
    let mut without = machine(&[0x3E, 0x12, 0x87]);
    let mut callbacks = Callbacks::new();
    for _ in 0..2 {
        with.execute_with(&mut callbacks);
        without.execute();
    }
    assert_eq!(0x24, with.get_register(RegisterSelector::A));
    assert_eq!(with.cpu.state.registers.af, without.cpu.state.registers.af);
    assert_eq!(with.cpu.state.pc, without.cpu.state.pc);
    assert_eq!(with.ticks, without.ticks);
}
