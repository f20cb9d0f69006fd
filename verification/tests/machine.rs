use rusty_sms::element::Element;
use rusty_sms::program::Program;
use rusty_sms::vm::cpu::processor::Processor;
use rusty_sms::vm::cpu::registers::{
    AddressSelector, DoubleRegisterSelector, RegisterSelector, Registers,
};
use rusty_sms::vm::cpu::state::State;
use rusty_sms::vm::instructions::bits::mnemonics::BitsMnemonic;
use rusty_sms::vm::instructions::bits::opcodes::BitsOpcode;
use rusty_sms::vm::instructions::opcodes::Opcode;
use rusty_sms::vm::machine::Machine;
use rusty_sms::vm::ram::Memory;

fn program_of(bytes: &[u8]) -> Program {
    let mut program = Program::new();
    program.add_vector(bytes.to_vec());
    program
}

#[test]
fn a_new_machine_is_all_zero() {
    let vm = Machine::new();
    assert!(!vm.run);
    assert!(!vm.cpu.is_halted());
    assert_eq!(0, vm.ticks);
    assert_eq!((0, 0), vm.cpu.state.pc);
    assert_eq!((0, 0), vm.cpu.state.sp);
    assert_eq!((0, 0), vm.cpu.state.registers.af);
    assert_eq!((0, 0), vm.cpu.state.alt_registers.hl);
    for address in [0x0000u16, 0x0001, 0x7FFF, 0xFFFE, 0xFFFF] {
        assert_eq!(0, vm.ram.read_u8(address));
    }
}

#[test]
fn memory_reads_back_what_was_written() {
    let mut ram = Memory::new();
    ram.write_u8(0x1234, 0xAB);
    assert_eq!(0xAB, ram.read_u8(0x1234));
    assert_eq!(0x00, ram.read_u8(0x1233));
    assert_eq!(0x00, ram.read_u8(0x1235));
    ram.write_u16(0x2000, 0xBEEF);
    assert_eq!(0xEF, ram.read_u8(0x2000));
    assert_eq!(0xBE, ram.read_u8(0x2001));
    assert_eq!(0xBEEF, ram.read_u16(0x2000));
    assert_eq!(0x00BE, ram.read_u16(0x2001));
}

#[test]
fn a_word_at_the_last_address_wraps_to_the_first() {
    let mut ram = Memory::new();
    ram.write_u16(0xFFFF, 0x1234);
    assert_eq!(0x34, ram.read_u8(0xFFFF));
    assert_eq!(0x12, ram.read_u8(0x0000));
    assert_eq!(0x1234, ram.read_u16(0xFFFF));
}

#[test]
fn load_copies_the_image_and_nothing_else() {
    let mut vm = Machine::new();
    vm.ram.write_u8(0x00FF, 0x11);
    vm.ram.write_u8(0x0103, 0x22);
    assert!(vm.load_at(&program_of(&[1, 2, 3]), 0x0100));
    assert_eq!(0x11, vm.ram.read_u8(0x00FF));
    assert_eq!(1, vm.ram.read_u8(0x0100));
    assert_eq!(2, vm.ram.read_u8(0x0101));
    assert_eq!(3, vm.ram.read_u8(0x0102));
    assert_eq!(0x22, vm.ram.read_u8(0x0103));
    assert!(!vm.run);
    assert_eq!((0, 0), vm.cpu.state.pc);
}

#[test]
fn load_accepts_an_image_that_ends_at_the_last_address() {
    let mut vm = Machine::new();
    assert!(vm.load_at(&program_of(&[7, 8, 9]), 0xFFFD));
    assert_eq!(7, vm.ram.read_u8(0xFFFD));
    assert_eq!(8, vm.ram.read_u8(0xFFFE));
    assert_eq!(9, vm.ram.read_u8(0xFFFF));
    assert_eq!(0, vm.ram.read_u8(0x0000));
    assert!(vm.load_at(&program_of(&[]), 0xFFFF));
    assert!(vm.load_at(&program_of(&[1]), 0xFFFF));
    assert_eq!(1, vm.ram.read_u8(0xFFFF));
    assert!(vm.load(&program_of(&vec![0x55; 65536])));
    assert_eq!(0x55, vm.ram.read_u8(0x0000));
    assert_eq!(0x55, vm.ram.read_u8(0xFFFF));
}

#[test]
fn load_rejects_an_image_that_crosses_the_last_address() {
    let mut vm = Machine::new();
    vm.ram.write_u8(0xFFFE, 0x44);
    assert!(!vm.load_at(&program_of(&[7, 8, 9]), 0xFFFE));
    assert_eq!(0x44, vm.ram.read_u8(0xFFFE));
    assert_eq!(0x00, vm.ram.read_u8(0xFFFF));
    assert_eq!(0x00, vm.ram.read_u8(0x0000));
    assert!(!vm.load(&program_of(&vec![0x55; 65537])));
    assert_eq!(0x00, vm.ram.read_u8(0x0000));
}

#[test]
fn the_program_builder_appends_bytes() {
    let mut p = Program::new();
    assert!(p.raw().is_empty());
    p.add(Element::Instruction(Opcode::Halt));
    p.add(Element::Parameter(0x99));
    p.add_param(Opcode::LdAX, 0x12);
    p.add_param_word(Opcode::JpXX, 0xABCD);
    p.add_params(Opcode::LdBCXX, 0x01, 0x02);
    p.add_vector(vec![0xDE, 0xAD]);
    assert_eq!(
        &vec![0x76, 0x99, 0x3E, 0x12, 0xC3, 0xCD, 0xAB, 0x01, 0x01, 0x02, 0xDE, 0xAD],
        p.raw()
    );
}

#[test]
fn an_element_is_its_byte() {
    assert_eq!(0x76, Element::Instruction(Opcode::Halt).get_u8());
    assert_eq!(0x41, Element::Instruction(Opcode::LdBC).get_u8());
    assert_eq!(0x27, Element::Instruction(Opcode::Unknown(0x27)).get_u8());
    assert_eq!(0x5A, Element::Parameter(0x5A).get_u8());
}

#[test]
fn every_byte_decodes_and_encodes_again() {
    for byte in 0..256u32 {
        let byte = byte as u8;
        assert_eq!(byte, Opcode::from(byte).to_u8(), "At {}.", byte);
    }
    assert_eq!(Opcode::Nop, Opcode::from(0x00));
    assert_eq!(Opcode::LdBCXX, Opcode::from(0x01));
    assert_eq!(Opcode::Halt, Opcode::from(0x76));
    assert_eq!(Opcode::LdBC, Opcode::from(0x41));
    assert_eq!(Opcode::BITS, Opcode::from(0xCB));
    assert_eq!(Opcode::IX, Opcode::from(0xDD));
    assert_eq!(Opcode::EXTD, Opcode::from(0xED));
    assert_eq!(Opcode::IY, Opcode::from(0xFD));
    assert_eq!(Opcode::Rst38h, Opcode::from(0xFF));
    assert_eq!(Opcode::Unknown(0x27), Opcode::from(0x27));
    assert_eq!(Opcode::Unknown(0xA6), Opcode::from(0xA6));
    assert_eq!(Opcode::Unknown(0xAE), Opcode::from(0xAE));
}

#[test]
fn only_three_bytes_are_unknown() {
    let mut unknown = Vec::new();
    for byte in 0..256u32 {
        if let Opcode::Unknown(b) = Opcode::from(byte as u8) {
            assert_eq!(byte as u8, b);
            unknown.push(b);
        }
    }
    assert_eq!(vec![0x27, 0xA6, 0xAE], unknown);
}

#[test]
fn the_table_behind_the_prefix_names_its_first_entry() {
    assert_eq!(BitsOpcode::RlcB, BitsOpcode::from(0x00));
    assert_eq!(BitsOpcode::Unknown(0x01), BitsOpcode::from(0x01));
    assert_eq!(BitsOpcode::Unknown(0xFF), BitsOpcode::from(0xFF));
    assert_eq!(BitsMnemonic::RlcB, BitsMnemonic::from(0x00));
    assert_eq!(BitsMnemonic::Unknown(0x80), BitsMnemonic::from(0x80));
}

#[test]
fn selectors_name_their_registers() {
    assert_eq!(RegisterSelector::A, Registers::a());
    assert_eq!(RegisterSelector::F, Registers::f());
    assert_eq!(RegisterSelector::B, Registers::b());
    assert_eq!(RegisterSelector::C, Registers::c());
    assert_eq!(RegisterSelector::D, Registers::d());
    assert_eq!(RegisterSelector::E, Registers::e());
    assert_eq!(RegisterSelector::H, Registers::h());
    assert_eq!(RegisterSelector::L, Registers::l());
    assert_eq!(RegisterSelector::A, Registers::into_a());
    assert_eq!(RegisterSelector::F, Registers::into_f());
    assert_eq!(RegisterSelector::B, Registers::into_b());
    assert_eq!(RegisterSelector::C, Registers::into_c());
    assert_eq!(RegisterSelector::D, Registers::into_d());
    assert_eq!(RegisterSelector::E, Registers::into_e());
    assert_eq!(RegisterSelector::H, Registers::into_h());
    assert_eq!(RegisterSelector::L, Registers::into_l());
    assert_eq!(DoubleRegisterSelector::AF, Registers::af());
    assert_eq!(DoubleRegisterSelector::BC, Registers::bc());
    assert_eq!(DoubleRegisterSelector::DE, Registers::de());
    assert_eq!(DoubleRegisterSelector::HL, Registers::hl());
    assert_eq!(DoubleRegisterSelector::SP, Registers::sp());
    assert_eq!(DoubleRegisterSelector::AF, Registers::into_af());
    assert_eq!(DoubleRegisterSelector::BC, Registers::into_bc());
    assert_eq!(DoubleRegisterSelector::DE, Registers::into_de());
    assert_eq!(DoubleRegisterSelector::HL, Registers::into_hl());
    assert_eq!(DoubleRegisterSelector::SP, Registers::into_sp());
    assert_eq!(AddressSelector::BC, Registers::address_in_bc());
    assert_eq!(AddressSelector::DE, Registers::address_in_de());
    assert_eq!(AddressSelector::HL, Registers::address_in_hl());
}

#[test]
fn registers_are_the_halves_of_their_pairs() {
    let mut vm = Machine::new();
    vm.set_register_pair(Registers::into_af(), 0x0102);
    vm.set_register_pair(Registers::into_bc(), 0x0304);
    vm.set_register_pair(Registers::into_de(), 0x0506);
    vm.set_register_pair(Registers::into_hl(), 0x0708);
    vm.set_register_pair(Registers::into_sp(), 0x090A);
    vm.set_register_pair(DoubleRegisterSelector::PC, 0x0B0C);
    let halves: Vec<u8> = [
        Registers::a(),
        Registers::f(),
        Registers::b(),
        Registers::c(),
        Registers::d(),
        Registers::e(),
        Registers::h(),
        Registers::l(),
    ]
    .iter()
    .map(|r| vm.get_register(*r))
    .collect();
    assert_eq!(vec![1, 2, 3, 4, 5, 6, 7, 8], halves);
    assert_eq!((0x09, 0x0A), vm.cpu.state.sp);
    assert_eq!((0x0B, 0x0C), vm.cpu.state.pc);
    assert_eq!(0x0304, vm.get_register_pair(Registers::bc()));
    assert_eq!(0x0304, vm.get_register_pair_mut(Registers::into_bc()));
    assert_eq!(0x090A, vm.get_register_pair(Registers::sp()));
    vm.set_register(Registers::into_c(), 0xEE);
    assert_eq!(0x03EE, vm.get_register_pair(Registers::bc()));
    assert_eq!(0xEE, vm.get_register_mut(Registers::into_c()));
    vm.set_register(Registers::into_h(), 0x77);
    assert_eq!((0x77, 0x08), vm.cpu.state.registers.hl);
    assert_eq!((0, 0), vm.cpu.state.alt_registers.hl);
}

#[test]
fn the_state_reads_and_writes_through_selectors() {
    let mut state = State::new();
    state.assign(RegisterSelector::E, 0x42);
    assert_eq!((0x00, 0x42), state.registers.de);
    assert_eq!(0x42, state.get(RegisterSelector::E));
    state.assign_bytes(DoubleRegisterSelector::HL, (0x12, 0x34));
    assert_eq!((0x12, 0x34), state.get_bytes(DoubleRegisterSelector::HL));
    assert_eq!(0x1234, state.get_word(DoubleRegisterSelector::HL));
    assert_eq!(0x1234, state.address(AddressSelector::HL));
    state.assign_word(DoubleRegisterSelector::SP, 0xFEDC);
    assert_eq!((0xFE, 0xDC), state.sp);
    state.assign_word(DoubleRegisterSelector::BC, 0x0A0B);
    assert_eq!(0x0A0B, state.address(AddressSelector::BC));
    state.assign_word(DoubleRegisterSelector::DE, 0x0C0D);
    assert_eq!(0x0C0D, state.address(AddressSelector::DE));
}

#[test]
fn the_processor_halts_and_goes() {
    let mut cpu = Processor::new();
    assert!(!cpu.is_halted());
    cpu.halt();
    assert!(cpu.is_halted());
    cpu.unhalt();
    assert!(!cpu.is_halted());
    cpu.goto(0xC0DE);
    assert_eq!((0xC0, 0xDE), cpu.state.pc);
}

#[test]
fn the_clock_counts_and_saturates() {
    let mut vm = Machine::new();
    vm.clock(4);
    vm.clock(13);
    assert_eq!(17, vm.ticks);
    vm.ticks = u64::MAX - 3;
    vm.clock(2);
    assert_eq!(u64::MAX - 1, vm.ticks);
    vm.clock(4);
    assert_eq!(u64::MAX, vm.ticks);
    vm.clock(255);
    assert_eq!(u64::MAX, vm.ticks);
}

#[test]
fn stop_clears_only_the_run_signal() {
    let mut vm = Machine::new();
    vm.run = true;
    vm.set_register(RegisterSelector::A, 9);
    vm.stop();
    assert!(!vm.run);
    assert_eq!(9, vm.get_register(RegisterSelector::A));
}

#[test]
fn a_fetch_at_the_last_address_wraps_and_stops() {
    let mut vm = Machine::new();
    vm.run = true;
    vm.cpu.goto(0xFFFE);
    vm.ram.write_u8(0xFFFE, 0x11);
    vm.ram.write_u8(0xFFFF, 0x22);
    assert_eq!(0x11, vm.next_byte());
    assert_eq!(0xFFFF, vm.get_register_pair(DoubleRegisterSelector::PC));
    assert!(vm.run);
    assert_eq!(0x22, vm.next_byte());
    assert_eq!(0x0000, vm.get_register_pair(DoubleRegisterSelector::PC));
    assert!(!vm.run);
}

#[test]
fn operands_are_fetched_low_octet_first() {
    let mut vm = Machine::new();
    vm.load_at(&program_of(&[0x34, 0x12, 0xCD, 0xAB]), 0x0200);
    vm.cpu.goto(0x0200);
    assert_eq!(0x1234, vm.next_word());
    assert_eq!((0xAB, 0xCD), vm.next_byte_pair());
    assert_eq!(0x0204, vm.get_register_pair(DoubleRegisterSelector::PC));
}

#[test]
fn an_operand_across_the_last_address_comes_from_the_first() {
    // LD A,n with the opcode at the last address.
    let mut vm = Machine::new();
    vm.ram.write_u8(0xFFFF, 0x3E);
    vm.ram.write_u8(0x0000, 0x5A);
    vm.run = true;
    vm.cpu.goto(0xFFFF);
    vm.execute();
    assert_eq!(0x5A, vm.get_register(RegisterSelector::A));
    assert_eq!(0x0001, vm.get_register_pair(DoubleRegisterSelector::PC));
    assert!(!vm.run);
}

#[test]
fn start_runs_through_empty_memory_once() {
    let mut vm = Machine::new();
    vm.cpu.halt();
    vm.start();
    assert!(!vm.run);
    assert!(!vm.cpu.is_halted());
    assert_eq!(0x0000, vm.get_register_pair(DoubleRegisterSelector::PC));
    assert_eq!(65536 * 4, vm.ticks);
}

#[test]
fn start_at_begins_at_the_address() {
    let mut vm = Machine::new();
    // INC A at 0xFFF0 and nowhere else.
    vm.ram.write_u8(0xFFF0, 0x3C);
    vm.ram.write_u8(0x0010, 0x3C);
    vm.start_at(0xFFF0);
    assert_eq!(1, vm.get_register(RegisterSelector::A));
    assert_eq!(16 * 4, vm.ticks);
    assert_eq!(0x0000, vm.get_register_pair(DoubleRegisterSelector::PC));
}
