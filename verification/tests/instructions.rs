use rusty_sms::program::Program;
use rusty_sms::vm::cpu::flags::Flag;
use rusty_sms::vm::cpu::registers::{DoubleRegisterSelector, RegisterSelector};
use rusty_sms::vm::instructions::opcodes::Opcode;
use rusty_sms::vm::machine::Machine;

const A: RegisterSelector = RegisterSelector::A;
const B: RegisterSelector = RegisterSelector::B;
const C: RegisterSelector = RegisterSelector::C;
const F: RegisterSelector = RegisterSelector::F;
const BC: DoubleRegisterSelector = DoubleRegisterSelector::BC;
const DE: DoubleRegisterSelector = DoubleRegisterSelector::DE;
const HL: DoubleRegisterSelector = DoubleRegisterSelector::HL;
const SP: DoubleRegisterSelector = DoubleRegisterSelector::SP;
const PC: DoubleRegisterSelector = DoubleRegisterSelector::PC;
const AF: DoubleRegisterSelector = DoubleRegisterSelector::AF;

const CARRY: u8 = 0x01;
const SUBTRACT: u8 = 0x02;
const OVERFLOW: u8 = 0x04;
const UNUSED_1: u8 = 0x08;
const HALF: u8 = 0x10;
const UNUSED_2: u8 = 0x20;
const ZERO: u8 = 0x40;
const SIGN: u8 = 0x80;

/// A machine with the bytes at address zero.
fn machine(bytes: &[u8]) -> Machine {
    let mut vm = Machine::new();
    let mut program = Program::new();
    program.add_vector(bytes.to_vec());
    assert!(vm.load(&program));
    vm
}

fn pc(vm: &Machine) -> u16 {
    vm.get_register_pair(PC)
}

#[test]
fn increment_cycles_through_every_octet() {
    let mut vm = machine(&[0x3C; 256]);
    vm.set_register(F, CARRY | UNUSED_1);
    for step in 1..=256u32 {
        vm.execute();
        let a = vm.get_register(A);
        assert_eq!((step % 256) as u8, a);
        assert_eq!(a == 0, Flag::Zero.get(&vm.cpu.state));
        assert_eq!(a >= 0x80, Flag::Sign.get(&vm.cpu.state));
        assert_eq!(a & 0x0F == 0, Flag::HalfCarry.get(&vm.cpu.state));
        assert_eq!(a == 0x80, Flag::ParityOverflow.get(&vm.cpu.state));
        assert!(!Flag::AddSubtract.get(&vm.cpu.state));
        assert!(Flag::Carry.get(&vm.cpu.state));
        assert!(Flag::Unused1.get(&vm.cpu.state));
        assert!(!Flag::Unused2.get(&vm.cpu.state));
        assert_eq!(4 * step as u64, vm.ticks);
    }
    assert_eq!(0, vm.get_register(A));
}

#[test]
fn increment_of_a_pair_touches_no_flag() {
    for flags in [0x00u8, 0xFF, 0x5A] {
        let mut vm = machine(&[0x03, 0x03, 0x13, 0x23, 0x33]);
        vm.set_register(F, flags);
        vm.set_register_pair(BC, 0xFFFE);
        vm.set_register_pair(DE, 0x00FF);
        vm.set_register_pair(HL, 0x7FFF);
        vm.set_register_pair(SP, 0xFFFF);
        vm.execute();
        assert_eq!(0xFFFF, vm.get_register_pair(BC));
        vm.execute();
        assert_eq!(0x0000, vm.get_register_pair(BC));
        vm.execute();
        assert_eq!(0x0100, vm.get_register_pair(DE));
        vm.execute();
        assert_eq!(0x8000, vm.get_register_pair(HL));
        vm.execute();
        assert_eq!(0x0000, vm.get_register_pair(SP));
        assert_eq!(flags, vm.get_register(F));
        assert_eq!(5 * 6, vm.ticks);
    }
}

#[test]
fn decrement_of_a_pair_touches_no_flag() {
    let mut vm = machine(&[0x0B, 0x1B, 0x2B, 0x3B]);
    vm.set_register(F, 0xC3);
    vm.set_register_pair(DE, 0x0100);
    vm.set_register_pair(HL, 0x8000);
    vm.set_register_pair(SP, 0x0001);
    vm.execute();
    vm.execute();
    vm.execute();
    vm.execute();
    assert_eq!(0xFFFF, vm.get_register_pair(BC));
    assert_eq!(0x00FF, vm.get_register_pair(DE));
    assert_eq!(0x7FFF, vm.get_register_pair(HL));
    assert_eq!(0x0000, vm.get_register_pair(SP));
    assert_eq!(0xC3, vm.get_register(F));
}

#[test]
fn add_with_one_counts_like_increment_and_carries_at_the_wrap() {
    let mut vm = machine(&[0x80; 256]);
    vm.set_register(B, 1);
    for step in 1..=256u32 {
        vm.execute();
        let a = vm.get_register(A);
        assert_eq!((step % 256) as u8, a);
        assert_eq!(a == 0, Flag::Carry.get(&vm.cpu.state));
        assert_eq!(a == 0, Flag::Zero.get(&vm.cpu.state));
        assert_eq!(a >= 0x80, Flag::Sign.get(&vm.cpu.state));
        assert_eq!(a & 0x0F == 0, Flag::HalfCarry.get(&vm.cpu.state));
        assert_eq!(a == 0x80, Flag::ParityOverflow.get(&vm.cpu.state));
        assert!(!Flag::AddSubtract.get(&vm.cpu.state));
    }
}

#[test]
fn decrement_sets_the_subtract_flag_and_keeps_carry() {
    // DEC B from 0x80, then DEC C from 0x01.
    let mut vm = machine(&[0x05, 0x0D]);
    vm.set_register(B, 0x80);
    vm.set_register(C, 0x01);
    vm.set_register(F, CARRY);
    vm.execute();
    assert_eq!(0x7F, vm.get_register(B));
    assert_eq!(CARRY | SUBTRACT | OVERFLOW, vm.get_register(F));
    vm.execute();
    assert_eq!(0x00, vm.get_register(C));
    assert_eq!(CARRY | SUBTRACT | ZERO | HALF, vm.get_register(F));
    assert_eq!(8, vm.ticks);
}

#[test]
fn decrement_wraps_below_zero() {
    let mut vm = machine(&[0x3D]);
    vm.execute();
    assert_eq!(0xFF, vm.get_register(A));
    assert_eq!(SUBTRACT | SIGN, vm.get_register(F));
}

#[test]
fn increment_and_decrement_in_memory() {
    // INC (HL); INC (HL); DEC (HL)
    let mut vm = machine(&[0x34, 0x34, 0x35]);
    vm.set_register_pair(HL, 0x4000);
    vm.ram.write_u8(0x4000, 0x7F);
    vm.set_register(F, CARRY);
    vm.execute();
    assert_eq!(0x80, vm.ram.read_u8(0x4000));
    assert_eq!(CARRY | SIGN | HALF | OVERFLOW, vm.get_register(F));
    assert_eq!(11, vm.ticks);
    vm.execute();
    assert_eq!(0x81, vm.ram.read_u8(0x4000));
    assert_eq!(CARRY | SIGN, vm.get_register(F));
    vm.execute();
    assert_eq!(0x80, vm.ram.read_u8(0x4000));
    assert_eq!(CARRY | SIGN | SUBTRACT | HALF, vm.get_register(F));
    assert_eq!(0x4000, vm.get_register_pair(HL));
    assert_eq!(33, vm.ticks);
}

#[test]
fn add_from_every_source() {
    // ADD A,C; ADD A,(HL); ADD A,n; ADD A,A
    let mut vm = machine(&[0x81, 0x86, 0xC6, 0x05, 0x87]);
    vm.set_register(A, 0x10);
    vm.set_register(C, 0x22);
    vm.set_register_pair(HL, 0x3000);
    vm.ram.write_u8(0x3000, 0x0E);
    vm.execute();
    assert_eq!(0x32, vm.get_register(A));
    assert_eq!(0, vm.get_register(F));
    vm.execute();
    assert_eq!(0x40, vm.get_register(A));
    assert_eq!(HALF, vm.get_register(F));
    vm.execute();
    assert_eq!(0x45, vm.get_register(A));
    assert_eq!(4, pc(&vm));
    vm.execute();
    assert_eq!(0x8A, vm.get_register(A));
    assert_eq!(SIGN | OVERFLOW, vm.get_register(F));
    assert_eq!(4 + 7 + 7 + 4, vm.ticks);
}

#[test]
fn add_carries_out_of_the_octet() {
    let mut vm = machine(&[0x80]);
    vm.set_register(A, 0xF0);
    vm.set_register(B, 0x20);
    vm.set_register(F, SUBTRACT | UNUSED_2);
    vm.execute();
    assert_eq!(0x10, vm.get_register(A));
    assert_eq!(CARRY | UNUSED_2, vm.get_register(F));
}

#[test]
fn add_with_carry_adds_the_flag_to_the_operand() {
    // ADC A,B; ADC A,(HL); ADC A,n
    let mut vm = machine(&[0x88, 0x8E, 0xCE, 0x01]);
    vm.set_register(A, 0x10);
    vm.set_register(B, 0x20);
    vm.set_register(F, CARRY);
    vm.set_register_pair(HL, 0x3000);
    vm.ram.write_u8(0x3000, 0xCF);
    vm.execute();
    assert_eq!(0x31, vm.get_register(A));
    assert_eq!(0, vm.get_register(F));
    vm.execute();
    assert_eq!(0x00, vm.get_register(A));
    assert_eq!(ZERO | CARRY | HALF, vm.get_register(F));
    vm.execute();
    assert_eq!(0x02, vm.get_register(A));
    assert_eq!(0, vm.get_register(F));
    assert_eq!(4 + 7 + 7, vm.ticks);
}

#[test]
fn add_with_carry_wraps_the_operand() {
    // The operand 0xFF and a set carry make the operand zero.
    let mut vm = machine(&[0x88]);
    vm.set_register(A, 0x33);
    vm.set_register(B, 0xFF);
    vm.set_register(F, CARRY);
    vm.execute();
    assert_eq!(0x33, vm.get_register(A));
    assert_eq!(0, vm.get_register(F));
}

#[test]
fn subtract_adds_the_twos_complement() {
    // SUB B; SUB (HL); SUB n; SUB A
    let mut vm = machine(&[0x90, 0x96, 0xD6, 0x10, 0x97]);
    vm.set_register(A, 0x10);
    vm.set_register(B, 0x01);
    vm.set_register_pair(HL, 0x3000);
    vm.ram.write_u8(0x3000, 0x0F);
    vm.execute();
    // 0x10 + 0xFF = 0x10F
    assert_eq!(0x0F, vm.get_register(A));
    assert_eq!(SUBTRACT | CARRY, vm.get_register(F));
    vm.execute();
    // 0x0F + 0xF1 = 0x100
    assert_eq!(0x00, vm.get_register(A));
    assert_eq!(SUBTRACT | CARRY | ZERO | HALF, vm.get_register(F));
    vm.execute();
    // 0x00 + 0xF0 = 0xF0
    assert_eq!(0xF0, vm.get_register(A));
    assert_eq!(SUBTRACT | SIGN, vm.get_register(F));
    vm.execute();
    // 0xF0 + 0x10 = 0x100
    assert_eq!(0x00, vm.get_register(A));
    assert_eq!(SUBTRACT | CARRY | ZERO, vm.get_register(F));
}

#[test]
fn subtract_overflows_at_the_sign() {
    // 0x80 - 1: 0x80 + 0xFF = 0x17F
    let mut vm = machine(&[0x90]);
    vm.set_register(A, 0x80);
    vm.set_register(B, 0x01);
    vm.execute();
    assert_eq!(0x7F, vm.get_register(A));
    assert_eq!(SUBTRACT | CARRY | OVERFLOW, vm.get_register(F));
}

#[test]
fn subtract_with_carry_subtracts_the_flag_too() {
    // SBC A,B; SBC A,(HL); SBC A,n
    let mut vm = machine(&[0x98, 0x9E, 0xDE, 0x00]);
    vm.set_register(A, 0x10);
    vm.set_register(B, 0x01);
    vm.set_register(F, CARRY);
    vm.set_register_pair(HL, 0x3000);
    vm.ram.write_u8(0x3000, 0x02);
    vm.execute();
    // 0x10 + negate(2) = 0x10 + 0xFE = 0x10E
    assert_eq!(0x0E, vm.get_register(A));
    assert_eq!(SUBTRACT | CARRY, vm.get_register(F));
    vm.execute();
    // 0x0E + negate(3) = 0x0E + 0xFD = 0x10B
    assert_eq!(0x0B, vm.get_register(A));
    assert_eq!(SUBTRACT | CARRY | HALF, vm.get_register(F));
    vm.execute();
    // 0x0B + negate(1) = 0x0B + 0xFF = 0x10A
    assert_eq!(0x0A, vm.get_register(A));
    assert_eq!(SUBTRACT | CARRY | HALF, vm.get_register(F));
}

#[test]
fn add_to_hl_writes_carry_and_half_carry_only() {
    // ADD HL,BC; ADD HL,DE; ADD HL,HL; ADD HL,SP
    let mut vm = machine(&[0x09, 0x19, 0x29, 0x39]);
    vm.set_register(F, SIGN | ZERO | OVERFLOW | SUBTRACT | UNUSED_1);
    vm.set_register_pair(HL, 0x0FFF);
    vm.set_register_pair(BC, 0x0001);
    vm.set_register_pair(DE, 0xF000);
    vm.set_register_pair(SP, 0x0001);
    vm.execute();
    assert_eq!(0x1000, vm.get_register_pair(HL));
    assert_eq!(SIGN | ZERO | OVERFLOW | UNUSED_1 | HALF, vm.get_register(F));
    vm.execute();
    assert_eq!(0x0000, vm.get_register_pair(HL));
    assert_eq!(SIGN | ZERO | OVERFLOW | UNUSED_1 | CARRY, vm.get_register(F));
    vm.set_register_pair(HL, 0x8800);
    vm.execute();
    assert_eq!(0x1000, vm.get_register_pair(HL));
    assert_eq!(SIGN | ZERO | OVERFLOW | UNUSED_1 | CARRY | HALF, vm.get_register(F));
    vm.execute();
    assert_eq!(0x1001, vm.get_register_pair(HL));
    assert_eq!(SIGN | ZERO | OVERFLOW | UNUSED_1, vm.get_register(F));
    assert_eq!(0x0001, vm.get_register_pair(BC));
    assert_eq!(44, vm.ticks);
}

#[test]
fn and_or_xor_write_the_accumulator_and_all_six_flags() {
    // AND B; OR C; XOR A; AND n; OR n; XOR n
    let mut vm = machine(&[0xA0, 0xB1, 0xAF, 0xE6, 0x0F, 0xF6, 0x81, 0xEE, 0xFF]);
    vm.set_register(A, 0xF0);
    vm.set_register(B, 0x3C);
    vm.set_register(C, 0xCC);
    vm.set_register(F, CARRY | SUBTRACT | UNUSED_1);
    vm.execute();
    assert_eq!(0x30, vm.get_register(A));
    assert_eq!(HALF | OVERFLOW | UNUSED_1, vm.get_register(F));
    vm.execute();
    assert_eq!(0xFC, vm.get_register(A));
    assert_eq!(SIGN | OVERFLOW | UNUSED_1, vm.get_register(F));
    vm.execute();
    assert_eq!(0x00, vm.get_register(A));
    assert_eq!(ZERO | OVERFLOW | UNUSED_1, vm.get_register(F));
    assert_eq!(12, vm.ticks);
    vm.set_register(A, 0x37);
    vm.execute();
    assert_eq!(0x07, vm.get_register(A));
    assert_eq!(HALF | UNUSED_1, vm.get_register(F));
    vm.execute();
    assert_eq!(0x87, vm.get_register(A));
    assert_eq!(SIGN | OVERFLOW | UNUSED_1, vm.get_register(F));
    vm.execute();
    assert_eq!(0x78, vm.get_register(A));
    assert_eq!(OVERFLOW | UNUSED_1, vm.get_register(F));
    assert_eq!(9, pc(&vm));
    assert_eq!(12 + 21, vm.ticks);
}

#[test]
fn rotations_move_one_bit_through_or_around_carry() {
    // RLCA
    let mut vm = machine(&[0x07]);
    vm.set_register(A, 0x81);
    vm.set_register(F, SIGN | ZERO | OVERFLOW | HALF | SUBTRACT);
    vm.execute();
    assert_eq!(0x03, vm.get_register(A));
    assert_eq!(SIGN | ZERO | OVERFLOW | CARRY, vm.get_register(F));
    assert_eq!(4, vm.ticks);
    // RRCA
    let mut vm = machine(&[0x0F]);
    vm.set_register(A, 0x81);
    vm.execute();
    assert_eq!(0xC0, vm.get_register(A));
    assert_eq!(CARRY, vm.get_register(F));
    // RLA with carry clear and set
    let mut vm = machine(&[0x17, 0x17]);
    vm.set_register(A, 0x80);
    vm.execute();
    assert_eq!(0x00, vm.get_register(A));
    assert_eq!(CARRY, vm.get_register(F));
    vm.execute();
    assert_eq!(0x01, vm.get_register(A));
    assert_eq!(0, vm.get_register(F));
    // RRA with carry clear and set
    let mut vm = machine(&[0x1F, 0x1F]);
    vm.set_register(A, 0x01);
    vm.execute();
    assert_eq!(0x00, vm.get_register(A));
    assert_eq!(CARRY, vm.get_register(F));
    vm.execute();
    assert_eq!(0x80, vm.get_register(A));
    assert_eq!(0, vm.get_register(F));
}

#[test]
fn rotations_without_a_carry_out() {
    let mut vm = machine(&[0x07, 0x0F]);
    vm.set_register(A, 0x42);
    vm.set_register(F, CARRY);
    vm.execute();
    assert_eq!(0x84, vm.get_register(A));
    assert_eq!(0, vm.get_register(F));
    vm.execute();
    assert_eq!(0x42, vm.get_register(A));
    assert_eq!(0, vm.get_register(F));
}

#[test]
fn carry_flag_instructions() {
    // SCF; CCF; CCF; CPL
    let mut vm = machine(&[0x37, 0x3F, 0x3F, 0x2F]);
    vm.set_register(A, 0x5A);
    vm.set_register(F, SIGN | HALF | SUBTRACT);
    vm.execute();
    assert_eq!(SIGN | CARRY, vm.get_register(F));
    vm.execute();
    assert_eq!(SIGN | HALF, vm.get_register(F));
    vm.execute();
    assert_eq!(SIGN | CARRY, vm.get_register(F));
    vm.execute();
    assert_eq!(0xA5, vm.get_register(A));
    assert_eq!(SIGN | CARRY | HALF | SUBTRACT, vm.get_register(F));
    assert_eq!(16, vm.ticks);
}

#[test]
fn loads_between_registers() {
    // LD B,A; LD C,B; LD D,C; LD E,D; LD H,E; LD L,H; LD A,L
    let mut vm = machine(&[0x47, 0x48, 0x51, 0x5A, 0x63, 0x6C, 0x7D]);
    vm.set_register(A, 0x99);
    vm.set_register(F, 0xA5);
    for _ in 0..7 {
        vm.execute();
    }
    assert_eq!((0x99, 0xA5), vm.cpu.state.registers.af);
    assert_eq!((0x99, 0x99), vm.cpu.state.registers.bc);
    assert_eq!((0x99, 0x99), vm.cpu.state.registers.de);
    assert_eq!((0x99, 0x99), vm.cpu.state.registers.hl);
    assert_eq!(28, vm.ticks);
}

#[test]
fn loads_of_immediates() {
    // LD B,n; LD C,n; LD D,n; LD E,n; LD H,n; LD L,n; LD A,n
    let mut vm = machine(&[0x06, 1, 0x0E, 2, 0x16, 3, 0x1E, 4, 0x26, 5, 0x2E, 6, 0x3E, 7]);
    for _ in 0..7 {
        vm.execute();
    }
    assert_eq!((1, 2), vm.cpu.state.registers.bc);
    assert_eq!((3, 4), vm.cpu.state.registers.de);
    assert_eq!((5, 6), vm.cpu.state.registers.hl);
    assert_eq!((7, 0), vm.cpu.state.registers.af);
    assert_eq!(14, pc(&vm));
    assert_eq!(49, vm.ticks);
    // LD DE,nn; LD SP,nn
    let mut vm = machine(&[0x11, 0x34, 0x12, 0x31, 0xFE, 0xFF]);
    vm.execute();
    vm.execute();
    assert_eq!((0x12, 0x34), vm.cpu.state.registers.de);
    assert_eq!(0xFFFE, vm.get_register_pair(SP));
    assert_eq!(20, vm.ticks);
}

#[test]
fn loads_through_pairs() {
    // LD (BC),A; LD (DE),A; LD A,(BC); LD A,(DE); LD (HL),B; LD C,(HL); LD (HL),n
    let mut vm = machine(&[0x02, 0x12, 0x0A, 0x1A, 0x70, 0x4E, 0x36, 0x77]);
    vm.set_register(A, 0x11);
    vm.set_register_pair(BC, 0x4000);
    vm.set_register_pair(DE, 0x4001);
    vm.set_register_pair(HL, 0x4002);
    vm.set_register(F, 0xFF);
    vm.execute();
    vm.execute();
    assert_eq!(0x11, vm.ram.read_u8(0x4000));
    assert_eq!(0x11, vm.ram.read_u8(0x4001));
    vm.ram.write_u8(0x4000, 0x21);
    vm.ram.write_u8(0x4001, 0x22);
    vm.execute();
    assert_eq!(0x21, vm.get_register(A));
    vm.execute();
    assert_eq!(0x22, vm.get_register(A));
    vm.execute();
    assert_eq!(0x40, vm.ram.read_u8(0x4002));
    vm.ram.write_u8(0x4002, 0x33);
    vm.execute();
    assert_eq!(0x33, vm.get_register(C));
    vm.set_register_pair(HL, 0x4003);
    vm.execute();
    assert_eq!(0x77, vm.ram.read_u8(0x4003));
    assert_eq!(0xFF, vm.get_register(F));
    assert_eq!(7 * 6 + 10, vm.ticks);
    assert_eq!(8, pc(&vm));
}

#[test]
fn loads_through_immediate_addresses() {
    // LD (nn),A; LD A,(nn); LD (nn),HL; LD HL,(nn)
    let mut vm =
        machine(&[0x32, 0x00, 0x50, 0x3A, 0x01, 0x50, 0x22, 0x10, 0x50, 0x2A, 0x20, 0x50]);
    vm.set_register(A, 0xAA);
    vm.ram.write_u8(0x5001, 0xBB);
    vm.set_register_pair(HL, 0x1234);
    vm.ram.write_u16(0x5020, 0xCAFE);
    vm.execute();
    assert_eq!(0xAA, vm.ram.read_u8(0x5000));
    vm.execute();
    assert_eq!(0xBB, vm.get_register(A));
    vm.execute();
    assert_eq!(0x34, vm.ram.read_u8(0x5010));
    assert_eq!(0x12, vm.ram.read_u8(0x5011));
    vm.execute();
    assert_eq!(0xCAFE, vm.get_register_pair(HL));
    assert_eq!(12, pc(&vm));
    assert_eq!(13 + 13 + 16 + 16, vm.ticks);
}

#[test]
fn exchanges() {
    // EX AF,AF'; EXX; EX DE,HL; EX (SP),HL
    let mut vm = machine(&[0x08, 0xD9, 0xEB, 0xE3]);
    vm.set_register_pair(AF, 0x0102);
    vm.set_register_pair(BC, 0x0304);
    vm.set_register_pair(DE, 0x0506);
    vm.set_register_pair(HL, 0x0708);
    vm.cpu.state.alt_registers.af = (0x11, 0x12);
    vm.cpu.state.alt_registers.bc = (0x13, 0x14);
    vm.cpu.state.alt_registers.de = (0x15, 0x16);
    vm.cpu.state.alt_registers.hl = (0x17, 0x18);
    vm.execute();
    assert_eq!((0x11, 0x12), vm.cpu.state.registers.af);
    assert_eq!((0x01, 0x02), vm.cpu.state.alt_registers.af);
    assert_eq!((0x03, 0x04), vm.cpu.state.registers.bc);
    vm.execute();
    assert_eq!((0x13, 0x14), vm.cpu.state.registers.bc);
    assert_eq!((0x15, 0x16), vm.cpu.state.registers.de);
    assert_eq!((0x17, 0x18), vm.cpu.state.registers.hl);
    assert_eq!((0x03, 0x04), vm.cpu.state.alt_registers.bc);
    assert_eq!((0x05, 0x06), vm.cpu.state.alt_registers.de);
    assert_eq!((0x07, 0x08), vm.cpu.state.alt_registers.hl);
    assert_eq!((0x11, 0x12), vm.cpu.state.registers.af);
    vm.execute();
    assert_eq!((0x17, 0x18), vm.cpu.state.registers.de);
    assert_eq!((0x15, 0x16), vm.cpu.state.registers.hl);
    vm.set_register_pair(SP, 0x6000);
    vm.ram.write_u16(0x6000, 0xBEEF);
    vm.execute();
    assert_eq!(0xBEEF, vm.get_register_pair(HL));
    assert_eq!(0x1516, vm.ram.read_u16(0x6000));
    assert_eq!(0x6000, vm.get_register_pair(SP));
    assert_eq!(4 + 4 + 4 + 19, vm.ticks);
}

#[test]
fn push_then_pop_moves_the_bit_pattern() {
    let pushes = [(0xF5u8, AF), (0xC5, BC), (0xD5, DE), (0xE5, HL)];
    let pops = [(0xF1u8, AF), (0xC1, BC), (0xD1, DE), (0xE1, HL)];
    for (push, source) in pushes {
        for (pop, target) in pops {
            for sp in [0x8000u16, 0x0001, 0x0000, 0xFFFF] {
                let mut vm = machine(&[push, pop]);
                vm.set_register_pair(AF, 0xA1F2);
                vm.set_register_pair(BC, 0xB3C4);
                vm.set_register_pair(DE, 0xD5E6);
                vm.set_register_pair(HL, 0x0718);
                vm.set_register_pair(SP, sp);
                let value = vm.get_register_pair(source);
                vm.execute();
                assert_eq!(sp.wrapping_sub(2), vm.get_register_pair(SP));
                assert_eq!(value, vm.ram.read_u16(sp.wrapping_sub(2)));
                vm.cpu.goto(1);
                vm.ram.write_u8(1, pop);
                vm.execute();
                assert_eq!(value, vm.get_register_pair(target));
                assert_eq!(sp, vm.get_register_pair(SP));
                assert_eq!(21, vm.ticks);
            }
        }
    }
}

#[test]
fn push_stores_the_high_octet_above_the_low_one() {
    let mut vm = machine(&[0xC5]);
    vm.set_register_pair(BC, 0x1234);
    vm.set_register_pair(SP, 0x9000);
    vm.execute();
    assert_eq!(0x8FFE, vm.get_register_pair(SP));
    assert_eq!(0x34, vm.ram.read_u8(0x8FFE));
    assert_eq!(0x12, vm.ram.read_u8(0x8FFF));
    assert_eq!(0x00, vm.ram.read_u8(0x9000));
}

#[test]
fn jump_variants_from_address_zero() {
    let cases = [
        (Opcode::JpNZXX, ZERO, false),
        (Opcode::JpZXX, ZERO, true),
        (Opcode::JpNCXX, CARRY, false),
        (Opcode::JpCXX, CARRY, true),
        (Opcode::JpPOXX, OVERFLOW, true),
        (Opcode::JpPEXX, OVERFLOW, false),
        (Opcode::JpPXX, SIGN, false),
        (Opcode::JpMXX, SIGN, true),
    ];
    for (opcode, mask, taken_when_set) in cases {
        for flags in [0x00u8, 0xFF, mask, !mask] {
            let mut vm = machine(&[opcode.to_u8(), 0xCD, 0xAB]);
            vm.set_register(F, flags);
            vm.execute();
            let set = flags & mask != 0;
            let expected = if set == taken_when_set { 0xABCD } else { 0x0003 };
            assert_eq!(expected, pc(&vm), "{:?} with flags {:02X}", opcode, flags);
            assert_eq!(flags, vm.get_register(F));
            assert_eq!(10, vm.ticks);
        }
    }
    let mut vm = machine(&[0xC3, 0xCD, 0xAB]);
    vm.execute();
    assert_eq!(0xABCD, pc(&vm));
}

#[test]
fn relative_jumps_count_from_behind_the_operand() {
    // JR +5 at address 0x0100
    let mut vm = Machine::new();
    vm.ram.write_u8(0x0100, 0x18);
    vm.ram.write_u8(0x0101, 0x05);
    vm.cpu.goto(0x0100);
    vm.execute();
    assert_eq!(0x0107, pc(&vm));
    assert_eq!(12, vm.ticks);
    // JR -128
    vm.ram.write_u8(0x0107, 0x18);
    vm.ram.write_u8(0x0108, 0x80);
    vm.execute();
    assert_eq!(0x0089, pc(&vm));
    // JR +127
    vm.ram.write_u8(0x0089, 0x18);
    vm.ram.write_u8(0x008A, 0x7F);
    vm.execute();
    assert_eq!(0x010A, pc(&vm));
    // JR -4 from address zero goes around
    let mut vm = machine(&[0x18, 0xFC]);
    vm.execute();
    assert_eq!(0xFFFE, pc(&vm));
}

#[test]
fn conditional_relative_jumps_consume_their_operand() {
    let cases = [
        (0x20u8, ZERO, false),
        (0x28, ZERO, true),
        (0x30, CARRY, false),
        (0x38, CARRY, true),
    ];
    for (opcode, mask, taken_when_set) in cases {
        for flags in [0x00u8, 0xFF] {
            let mut vm = machine(&[opcode, 0x10]);
            vm.set_register(F, flags);
            vm.execute();
            let set = flags & mask != 0;
            if set == taken_when_set {
                assert_eq!(0x0012, pc(&vm));
                assert_eq!(12, vm.ticks);
            } else {
                assert_eq!(0x0002, pc(&vm));
                assert_eq!(7, vm.ticks);
            }
            assert_eq!(flags, vm.get_register(F));
        }
    }
}

#[test]
fn djnz_counts_b_down() {
    let mut vm = machine(&[0x10, 0x02]);
    vm.set_register(B, 2);
    vm.set_register(F, 0xFF);
    vm.execute();
    assert_eq!(1, vm.get_register(B));
    assert_eq!(0x0004, pc(&vm));
    assert_eq!(13, vm.ticks);
    let mut vm = machine(&[0x10, 0x02]);
    vm.set_register(B, 1);
    vm.execute();
    assert_eq!(0, vm.get_register(B));
    assert_eq!(0x0002, pc(&vm));
    assert_eq!(8, vm.ticks);
    assert_eq!(0, vm.get_register(F));
    let mut vm = machine(&[0x10, 0xFE]);
    vm.execute();
    assert_eq!(0xFF, vm.get_register(B));
    assert_eq!(0x0000, pc(&vm));
}

#[test]
fn call_then_return_restores_counter_and_stack() {
    // CALL 0x0010 at address zero, RET at 0x0010.
    let mut vm = machine(&[0xCD, 0x10, 0x00]);
    vm.ram.write_u8(0x0010, 0xC9);
    vm.set_register_pair(SP, 0x8000);
    vm.execute();
    assert_eq!(0x0010, pc(&vm));
    assert_eq!(0x7FFE, vm.get_register_pair(SP));
    assert_eq!(0x03, vm.ram.read_u8(0x7FFE));
    assert_eq!(0x00, vm.ram.read_u8(0x7FFF));
    assert_eq!(17, vm.ticks);
    vm.execute();
    assert_eq!(0x0003, pc(&vm));
    assert_eq!(0x8000, vm.get_register_pair(SP));
    assert_eq!(27, vm.ticks);
}

#[test]
fn conditional_calls_and_returns() {
    let calls = [
        (0xC4u8, ZERO, false),
        (0xCC, ZERO, true),
        (0xD4, CARRY, false),
        (0xDC, CARRY, true),
        (0xE4, OVERFLOW, true),
        (0xEC, OVERFLOW, false),
        (0xF4, SIGN, false),
        (0xFC, SIGN, true),
    ];
    for (opcode, mask, taken_when_set) in calls {
        for flags in [0x00u8, 0xFF] {
            let mut vm = machine(&[opcode, 0x00, 0x20]);
            vm.set_register(F, flags);
            vm.set_register_pair(SP, 0x4000);
            vm.execute();
            if (flags & mask != 0) == taken_when_set {
                assert_eq!(0x2000, pc(&vm));
                assert_eq!(0x3FFE, vm.get_register_pair(SP));
                assert_eq!(0x0003, vm.ram.read_u16(0x3FFE));
                assert_eq!(17, vm.ticks);
            } else {
                assert_eq!(0x0003, pc(&vm));
                assert_eq!(0x4000, vm.get_register_pair(SP));
                assert_eq!(0x0000, vm.ram.read_u16(0x3FFE));
                assert_eq!(10, vm.ticks);
            }
        }
    }
    let returns = [
        (0xC0u8, ZERO, false),
        (0xC8, ZERO, true),
        (0xD0, CARRY, false),
        (0xD8, CARRY, true),
        (0xE0, OVERFLOW, true),
        (0xE8, OVERFLOW, false),
        (0xF0, SIGN, false),
        (0xF8, SIGN, true),
    ];
    for (opcode, mask, taken_when_set) in returns {
        for flags in [0x00u8, 0xFF] {
            let mut vm = machine(&[opcode]);
            vm.set_register(F, flags);
            vm.set_register_pair(SP, 0x4000);
            vm.ram.write_u16(0x4000, 0x1234);
            vm.execute();
            if (flags & mask != 0) == taken_when_set {
                assert_eq!(0x1234, pc(&vm));
                assert_eq!(0x4002, vm.get_register_pair(SP));
                assert_eq!(11, vm.ticks);
            } else {
                assert_eq!(0x0001, pc(&vm));
                assert_eq!(0x4000, vm.get_register_pair(SP));
                assert_eq!(5, vm.ticks);
            }
        }
    }
}

#[test]
fn halt_sets_the_halt_signal() {
    let mut vm = machine(&[0x76]);
    vm.execute();
    assert!(vm.cpu.is_halted());
    assert_eq!(1, pc(&vm));
    assert_eq!(4, vm.ticks);
}

#[test]
fn the_bits_prefix_consumes_one_more_byte() {
    let mut vm = machine(&[0xCB, 0x3C, 0x3C]);
    vm.set_register(F, 0x5A);
    vm.execute();
    assert_eq!(2, pc(&vm));
    assert_eq!(0, vm.get_register(A));
    assert_eq!(0x5A, vm.get_register(F));
    assert_eq!(0, vm.ticks);
    vm.execute();
    assert_eq!(1, vm.get_register(A));
}

#[test]
fn opcodes_without_a_handler_pass_as_nop() {
    // DAA, AND (HL), XOR (HL), OR (HL), CP B, CP n, RST 00h, OUT (n),A,
    // IN A,(n), the IX, EXTD and IY prefixes, JP (HL), DI, EI, LD SP,HL.
    let bytes = [
        0x27, 0xA6, 0xAE, 0xB6, 0xB8, 0xBE, 0xBF, 0xFE, 0xC7, 0xFF, 0xD3, 0xDB, 0xDD, 0xED, 0xFD,
        0xE9, 0xF3, 0xFB, 0xF9,
    ];
    for byte in bytes {
        let mut vm = machine(&[byte, 0x44]);
        vm.set_register_pair(AF, 0x1234);
        vm.set_register_pair(BC, 0x5678);
        vm.set_register_pair(HL, 0x0001);
        vm.set_register_pair(SP, 0x9000);
        vm.run = true;
        vm.execute();
        assert_eq!(1, pc(&vm), "At {:02X}.", byte);
        assert_eq!(4, vm.ticks);
        assert_eq!(0x1234, vm.get_register_pair(AF));
        assert_eq!(0x5678, vm.get_register_pair(BC));
        assert_eq!(0x0001, vm.get_register_pair(HL));
        assert_eq!(0x9000, vm.get_register_pair(SP));
        assert_eq!(0x44, vm.ram.read_u8(1));
        assert_eq!(0x00, vm.ram.read_u8(0x8FFE));
        assert!(vm.run);
        assert!(!vm.cpu.is_halted());
    }
}

#[test]
fn dispatch_runs_a_handler_without_a_fetch() {
    let mut vm = machine(&[0x07]);
    vm.dispatch(Opcode::LdBX);
    assert_eq!(0x07, vm.get_register(B));
    assert_eq!(1, pc(&vm));
    vm.dispatch(Opcode::Unknown(0x00));
    assert_eq!(1, pc(&vm));
    assert_eq!(11, vm.ticks);
}
