//! The dispatcher: fetch, decode, execute.
//!
//! The model of every handler is opaque, so that a proof about a step sees
//! only the handlers it asks for: it reveals the model of the handler it
//! reasons about.

pub mod arithmetic_16bit;
pub mod arithmetic_8bit;
pub mod bits;
pub mod bitwise;
pub mod call_return;
pub mod conditions;
pub mod control;
pub mod exchange;
pub mod jump;
pub mod load_16bit;
pub mod load_8bit;
pub mod opcodes;
pub mod rotate_shift;
pub mod stack;

use crate::vm::callbacks::Callbacks;
use crate::vm::cpu::alu;
use crate::vm::cpu::alu::word_of;
use crate::vm::cpu::registers::{
    AddressSelector, DoubleRegisterSelector, RegisterSelector, Registers,
};
use crate::vm::instructions::conditions::Condition;
use crate::vm::instructions::opcodes::Opcode;
use crate::vm::machine::{Machine, MachineView};
use vstd::prelude::*;

verus! {

impl MachineView {
    /// The octet at the program counter.
    pub open spec fn fetched(self) -> u8 {
        self.read_u8(self.pc())
    }

    /// The machine after it has consumed the octet at the program counter:
    /// the counter has advanced by one. Past the last address it is back at
    /// zero and the machine is told to stop.
    pub open spec fn after_fetch(self) -> MachineView {
        if self.pc() == 0xFFFF {
            self.goto(0).stop()
        } else {
            self.goto((self.pc() + 1) as u16)
        }
    }

    /// The word at the program counter, low octet first.
    pub open spec fn fetched_word(self) -> u16 {
        word_of((self.after_fetch().fetched(), self.fetched()))
    }

    /// The machine after it has consumed the two octets at the program
    /// counter.
    pub open spec fn after_fetch_word(self) -> MachineView {
        self.after_fetch().after_fetch()
    }

    /// The opcode at the program counter.
    pub open spec fn next_opcode(self) -> Opcode {
        Opcode::decoded(self.fetched())
    }

    /// The machine after the handler of an opcode has run. The opcode itself
    /// has been consumed before; the handler consumes the operands. An
    /// opcode without a handler, a prefix but BITS among them, passes as a
    /// NOP. The table is split into its four quarters.
    pub open spec fn dispatch(self, instruction: Opcode) -> MachineView {
        let code = instruction.code_of();
        if code < 0x40 {
            self.dispatch_first_quarter(instruction)
        } else if code < 0x80 {
            self.dispatch_second_quarter(instruction)
        } else if code < 0xC0 {
            self.dispatch_third_quarter(instruction)
        } else {
            self.dispatch_last_quarter(instruction)
        }
    }

    /// The opcodes below 0x40: loads of immediates, increments, rotations,
    /// relative jumps.
    #[verifier::opaque]
    pub open spec fn dispatch_first_quarter(self, instruction: Opcode) -> MachineView {
        match instruction {
            Opcode::Nop => self.nop(),
            Opcode::LdBCXX => self.load_into_register_pair(DoubleRegisterSelector::BC),
            Opcode::LdVBCA => self.load_into_memory(RegisterSelector::A, AddressSelector::BC),
            Opcode::IncBC => self.increment_register_pair(DoubleRegisterSelector::BC),
            Opcode::IncB => self.increment_register(RegisterSelector::B),
            Opcode::DecB => self.decrement_register(RegisterSelector::B),
            Opcode::LdBX => self.load_into_register(RegisterSelector::B),
            Opcode::RLCA => self.rotate_accumulator_copy_left(),
            Opcode::ExAFAF => self.shadow_exchange_af(),
            Opcode::AddHLBC => self.add_register_pair_to_hl(DoubleRegisterSelector::BC),
            Opcode::LdAVBC => self.load_memory_into_register(
                AddressSelector::BC,
                RegisterSelector::A,
            ),
            Opcode::DecBC => self.decrement_register_pair(DoubleRegisterSelector::BC),
            Opcode::IncC => self.increment_register(RegisterSelector::C),
            Opcode::DecC => self.decrement_register(RegisterSelector::C),
            Opcode::LdCX => self.load_into_register(RegisterSelector::C),
            Opcode::RRCA => self.rotate_accumulator_copy_right(),
            Opcode::DjNZX => self.decrement_and_jump_on_non_zero(),
            Opcode::LdDEXX => self.load_into_register_pair(DoubleRegisterSelector::DE),
            Opcode::LdVDEA => self.load_into_memory(RegisterSelector::A, AddressSelector::DE),
            Opcode::IncDE => self.increment_register_pair(DoubleRegisterSelector::DE),
            Opcode::IncD => self.increment_register(RegisterSelector::D),
            Opcode::DecD => self.decrement_register(RegisterSelector::D),
            Opcode::LdDX => self.load_into_register(RegisterSelector::D),
            Opcode::RLA => self.rotate_accumulator_left(),
            Opcode::JrX => self.jump_relative(Condition::Always),
            Opcode::AddHLDE => self.add_register_pair_to_hl(DoubleRegisterSelector::DE),
            Opcode::LdAVDE => self.load_memory_into_register(
                AddressSelector::DE,
                RegisterSelector::A,
            ),
            Opcode::DecDE => self.decrement_register_pair(DoubleRegisterSelector::DE),
            Opcode::IncE => self.increment_register(RegisterSelector::E),
            Opcode::DecE => self.decrement_register(RegisterSelector::E),
            Opcode::LdEX => self.load_into_register(RegisterSelector::E),
            Opcode::RRA => self.rotate_accumulator_right(),
            Opcode::JrNZX => self.jump_relative(Condition::NonZero),
            Opcode::LdHLXX => self.load_into_register_pair(DoubleRegisterSelector::HL),
            Opcode::LdVXXHL => self.load_wide_register_into_param_memory(
                DoubleRegisterSelector::HL,
            ),
            Opcode::IncHL => self.increment_register_pair(DoubleRegisterSelector::HL),
            Opcode::IncH => self.increment_register(RegisterSelector::H),
            Opcode::DecH => self.decrement_register(RegisterSelector::H),
            Opcode::LdHX => self.load_into_register(RegisterSelector::H),
            Opcode::JrZX => self.jump_relative(Condition::Zero),
            Opcode::AddHLHL => self.add_register_pair_to_hl(DoubleRegisterSelector::HL),
            Opcode::LdHLVXX => self.load_param_memory_into_wide_register(
                DoubleRegisterSelector::HL,
            ),
            Opcode::DecHL => self.decrement_register_pair(DoubleRegisterSelector::HL),
            Opcode::IncL => self.increment_register(RegisterSelector::L),
            Opcode::DecL => self.decrement_register(RegisterSelector::L),
            Opcode::LdLX => self.load_into_register(RegisterSelector::L),
            Opcode::CPL => self.complement_registers(RegisterSelector::A),
            Opcode::JrNCX => self.jump_relative(Condition::NoCarry),
            Opcode::LdSPXX => self.load_into_register_pair(DoubleRegisterSelector::SP),
            Opcode::LdVXXA => self.load_register_into_param_memory(RegisterSelector::A),
            Opcode::IncSP => self.increment_register_pair(DoubleRegisterSelector::SP),
            Opcode::IncVHL => self.increment_memory(),
            Opcode::DecVHL => self.decrement_memory(),
            Opcode::LdVHLX => self.load_param_into_memory(DoubleRegisterSelector::HL),
            Opcode::SCF => self.set_carry_flag(),
            Opcode::JrCX => self.jump_relative(Condition::Carry),
            Opcode::AddHLSP => self.add_register_pair_to_hl(DoubleRegisterSelector::SP),
            Opcode::LdAVXX => self.load_param_memory_into_register(RegisterSelector::A),
            Opcode::DecSP => self.decrement_register_pair(DoubleRegisterSelector::SP),
            Opcode::IncA => self.increment_register(RegisterSelector::A),
            Opcode::DecA => self.decrement_register(RegisterSelector::A),
            Opcode::LdAX => self.load_into_register(RegisterSelector::A),
            Opcode::CCF => self.complement_carry_flag(),
            _ => self.nop(),
        }
    }

    /// The opcodes from 0x40 to 0x7F: the loads between registers, and HALT.
    #[verifier::opaque]
    pub open spec fn dispatch_second_quarter(self, instruction: Opcode) -> MachineView {
        match instruction {
            Opcode::LdBB => self.load_register_into_register(
                RegisterSelector::B,
                RegisterSelector::B,
            ),
            Opcode::LdBC => self.load_register_into_register(
                RegisterSelector::C,
                RegisterSelector::B,
            ),
            Opcode::LdBD => self.load_register_into_register(
                RegisterSelector::D,
                RegisterSelector::B,
            ),
            Opcode::LdBE => self.load_register_into_register(
                RegisterSelector::E,
                RegisterSelector::B,
            ),
            Opcode::LdBH => self.load_register_into_register(
                RegisterSelector::H,
                RegisterSelector::B,
            ),
            Opcode::LdBL => self.load_register_into_register(
                RegisterSelector::L,
                RegisterSelector::B,
            ),
            Opcode::LdBHL => self.load_memory_into_register(
                AddressSelector::HL,
                RegisterSelector::B,
            ),
            Opcode::LdBA => self.load_register_into_register(
                RegisterSelector::A,
                RegisterSelector::B,
            ),
            Opcode::LdCB => self.load_register_into_register(
                RegisterSelector::B,
                RegisterSelector::C,
            ),
            Opcode::LdCC => self.load_register_into_register(
                RegisterSelector::C,
                RegisterSelector::C,
            ),
            Opcode::LdCD => self.load_register_into_register(
                RegisterSelector::D,
                RegisterSelector::C,
            ),
            Opcode::LdCE => self.load_register_into_register(
                RegisterSelector::E,
                RegisterSelector::C,
            ),
            Opcode::LdCH => self.load_register_into_register(
                RegisterSelector::H,
                RegisterSelector::C,
            ),
            Opcode::LdCL => self.load_register_into_register(
                RegisterSelector::L,
                RegisterSelector::C,
            ),
            Opcode::LdCHL => self.load_memory_into_register(
                AddressSelector::HL,
                RegisterSelector::C,
            ),
            Opcode::LdCA => self.load_register_into_register(
                RegisterSelector::A,
                RegisterSelector::C,
            ),
            Opcode::LdDB => self.load_register_into_register(
                RegisterSelector::B,
                RegisterSelector::D,
            ),
            Opcode::LdDC => self.load_register_into_register(
                RegisterSelector::C,
                RegisterSelector::D,
            ),
            Opcode::LdDD => self.load_register_into_register(
                RegisterSelector::D,
                RegisterSelector::D,
            ),
            Opcode::LdDE => self.load_register_into_register(
                RegisterSelector::E,
                RegisterSelector::D,
            ),
            Opcode::LdDH => self.load_register_into_register(
                RegisterSelector::H,
                RegisterSelector::D,
            ),
            Opcode::LdDL => self.load_register_into_register(
                RegisterSelector::L,
                RegisterSelector::D,
            ),
            Opcode::LdDHL => self.load_memory_into_register(
                AddressSelector::HL,
                RegisterSelector::D,
            ),
            Opcode::LdDA => self.load_register_into_register(
                RegisterSelector::A,
                RegisterSelector::D,
            ),
            Opcode::LdEB => self.load_register_into_register(
                RegisterSelector::B,
                RegisterSelector::E,
            ),
            Opcode::LdEC => self.load_register_into_register(
                RegisterSelector::C,
                RegisterSelector::E,
            ),
            Opcode::LdED => self.load_register_into_register(
                RegisterSelector::D,
                RegisterSelector::E,
            ),
            Opcode::LdEE => self.load_register_into_register(
                RegisterSelector::E,
                RegisterSelector::E,
            ),
            Opcode::LdEH => self.load_register_into_register(
                RegisterSelector::H,
                RegisterSelector::E,
            ),
            Opcode::LdEL => self.load_register_into_register(
                RegisterSelector::L,
                RegisterSelector::E,
            ),
            Opcode::LdEHL => self.load_memory_into_register(
                AddressSelector::HL,
                RegisterSelector::E,
            ),
            Opcode::LdEA => self.load_register_into_register(
                RegisterSelector::A,
                RegisterSelector::E,
            ),
            Opcode::LdHB => self.load_register_into_register(
                RegisterSelector::B,
                RegisterSelector::H,
            ),
            Opcode::LdHC => self.load_register_into_register(
                RegisterSelector::C,
                RegisterSelector::H,
            ),
            Opcode::LdHD => self.load_register_into_register(
                RegisterSelector::D,
                RegisterSelector::H,
            ),
            Opcode::LdHE => self.load_register_into_register(
                RegisterSelector::E,
                RegisterSelector::H,
            ),
            Opcode::LdHH => self.load_register_into_register(
                RegisterSelector::H,
                RegisterSelector::H,
            ),
            Opcode::LdHL => self.load_register_into_register(
                RegisterSelector::L,
                RegisterSelector::H,
            ),
            Opcode::LdHHL => self.load_memory_into_register(
                AddressSelector::HL,
                RegisterSelector::H,
            ),
            Opcode::LdHA => self.load_register_into_register(
                RegisterSelector::A,
                RegisterSelector::H,
            ),
            Opcode::LdLB => self.load_register_into_register(
                RegisterSelector::B,
                RegisterSelector::L,
            ),
            Opcode::LdLC => self.load_register_into_register(
                RegisterSelector::C,
                RegisterSelector::L,
            ),
            Opcode::LdLD => self.load_register_into_register(
                RegisterSelector::D,
                RegisterSelector::L,
            ),
            Opcode::LdLE => self.load_register_into_register(
                RegisterSelector::E,
                RegisterSelector::L,
            ),
            Opcode::LdLH => self.load_register_into_register(
                RegisterSelector::H,
                RegisterSelector::L,
            ),
            Opcode::LdLL => self.load_register_into_register(
                RegisterSelector::L,
                RegisterSelector::L,
            ),
            Opcode::LdLHL => self.load_memory_into_register(
                AddressSelector::HL,
                RegisterSelector::L,
            ),
            Opcode::LdLA => self.load_register_into_register(
                RegisterSelector::A,
                RegisterSelector::L,
            ),
            Opcode::LdHLB => self.load_register_into_memory(
                RegisterSelector::B,
                DoubleRegisterSelector::HL,
            ),
            Opcode::LdHLC => self.load_register_into_memory(
                RegisterSelector::C,
                DoubleRegisterSelector::HL,
            ),
            Opcode::LdHLD => self.load_register_into_memory(
                RegisterSelector::D,
                DoubleRegisterSelector::HL,
            ),
            Opcode::LdHLE => self.load_register_into_memory(
                RegisterSelector::E,
                DoubleRegisterSelector::HL,
            ),
            Opcode::LdHLH => self.load_register_into_memory(
                RegisterSelector::H,
                DoubleRegisterSelector::HL,
            ),
            Opcode::LdHLL => self.load_register_into_memory(
                RegisterSelector::L,
                DoubleRegisterSelector::HL,
            ),
            Opcode::Halt => self.halt(),
            Opcode::LdHLA => self.load_register_into_memory(
                RegisterSelector::A,
                DoubleRegisterSelector::HL,
            ),
            Opcode::LdAB => self.load_register_into_register(
                RegisterSelector::B,
                RegisterSelector::A,
            ),
            Opcode::LdAC => self.load_register_into_register(
                RegisterSelector::C,
                RegisterSelector::A,
            ),
            Opcode::LdAD => self.load_register_into_register(
                RegisterSelector::D,
                RegisterSelector::A,
            ),
            Opcode::LdAE => self.load_register_into_register(
                RegisterSelector::E,
                RegisterSelector::A,
            ),
            Opcode::LdAH => self.load_register_into_register(
                RegisterSelector::H,
                RegisterSelector::A,
            ),
            Opcode::LdAL => self.load_register_into_register(
                RegisterSelector::L,
                RegisterSelector::A,
            ),
            Opcode::LdAHL => self.load_memory_into_register(
                AddressSelector::HL,
                RegisterSelector::A,
            ),
            Opcode::LdAA => self.load_register_into_register(
                RegisterSelector::A,
                RegisterSelector::A,
            ),
            _ => self.nop(),
        }
    }

    /// The opcodes from 0x80 to 0xBF: arithmetic and logic on the
    /// accumulator.
    #[verifier::opaque]
    pub open spec fn dispatch_third_quarter(self, instruction: Opcode) -> MachineView {
        match instruction {
            Opcode::AddB => self.add_register(RegisterSelector::B),
            Opcode::AddC => self.add_register(RegisterSelector::C),
            Opcode::AddD => self.add_register(RegisterSelector::D),
            Opcode::AddE => self.add_register(RegisterSelector::E),
            Opcode::AddH => self.add_register(RegisterSelector::H),
            Opcode::AddL => self.add_register(RegisterSelector::L),
            Opcode::AddVHL => self.add_memory(),
            Opcode::AddA => self.add_register(RegisterSelector::A),
            Opcode::AdcB => self.add_carry_register(RegisterSelector::B),
            Opcode::AdcC => self.add_carry_register(RegisterSelector::C),
            Opcode::AdcD => self.add_carry_register(RegisterSelector::D),
            Opcode::AdcE => self.add_carry_register(RegisterSelector::E),
            Opcode::AdcH => self.add_carry_register(RegisterSelector::H),
            Opcode::AdcL => self.add_carry_register(RegisterSelector::L),
            Opcode::AdcAVHL => self.add_carry_memory(),
            Opcode::AdcA => self.add_carry_register(RegisterSelector::A),
            Opcode::SubB => self.subtract_register(RegisterSelector::B),
            Opcode::SubC => self.subtract_register(RegisterSelector::C),
            Opcode::SubD => self.subtract_register(RegisterSelector::D),
            Opcode::SubE => self.subtract_register(RegisterSelector::E),
            Opcode::SubH => self.subtract_register(RegisterSelector::H),
            Opcode::SubL => self.subtract_register(RegisterSelector::L),
            Opcode::SubVHL => self.sub_memory(),
            Opcode::SubA => self.subtract_register(RegisterSelector::A),
            Opcode::SbcB => self.subtract_carry_register(RegisterSelector::B),
            Opcode::SbcC => self.subtract_carry_register(RegisterSelector::C),
            Opcode::SbcD => self.subtract_carry_register(RegisterSelector::D),
            Opcode::SbcE => self.subtract_carry_register(RegisterSelector::E),
            Opcode::SbcH => self.subtract_carry_register(RegisterSelector::H),
            Opcode::SbcL => self.subtract_carry_register(RegisterSelector::L),
            Opcode::SbcAVHL => self.subtract_carry_memory(),
            Opcode::SbcA => self.subtract_carry_register(RegisterSelector::A),
            Opcode::AndB => self.and_register(RegisterSelector::B),
            Opcode::AndC => self.and_register(RegisterSelector::C),
            Opcode::AndD => self.and_register(RegisterSelector::D),
            Opcode::AndE => self.and_register(RegisterSelector::E),
            Opcode::AndH => self.and_register(RegisterSelector::H),
            Opcode::AndL => self.and_register(RegisterSelector::L),
            Opcode::AndA => self.and_register(RegisterSelector::A),
            Opcode::XorB => self.xor_register(RegisterSelector::B),
            Opcode::XorC => self.xor_register(RegisterSelector::C),
            Opcode::XorD => self.xor_register(RegisterSelector::D),
            Opcode::XorE => self.xor_register(RegisterSelector::E),
            Opcode::XorH => self.xor_register(RegisterSelector::H),
            Opcode::XorL => self.xor_register(RegisterSelector::L),
            Opcode::XorA => self.xor_register(RegisterSelector::A),
            Opcode::OrB => self.or_register(RegisterSelector::B),
            Opcode::OrC => self.or_register(RegisterSelector::C),
            Opcode::OrD => self.or_register(RegisterSelector::D),
            Opcode::OrE => self.or_register(RegisterSelector::E),
            Opcode::OrH => self.or_register(RegisterSelector::H),
            Opcode::OrL => self.or_register(RegisterSelector::L),
            Opcode::OrHL => self.nop(),
            Opcode::OrA => self.or_register(RegisterSelector::A),
            Opcode::CpB => self.nop(),
            Opcode::CpC => self.nop(),
            Opcode::CpD => self.nop(),
            Opcode::CpE => self.nop(),
            Opcode::CpH => self.nop(),
            Opcode::CpL => self.nop(),
            Opcode::CpHL => self.nop(),
            Opcode::CpA => self.nop(),
            _ => self.nop(),
        }
    }

    /// The opcodes from 0xC0: jumps, calls, returns, the stack, immediates.
    #[verifier::opaque]
    pub open spec fn dispatch_last_quarter(self, instruction: Opcode) -> MachineView {
        match instruction {
            Opcode::RetNZ => self.ret_conditional(Condition::NonZero),
            Opcode::PopBC => self.pop_from_stack(DoubleRegisterSelector::BC),
            Opcode::JpNZXX => self.jump(Condition::NonZero),
            Opcode::JpXX => self.jump(Condition::Always),
            Opcode::CallNZXX => self.call(Condition::NonZero),
            Opcode::PushBC => self.push_to_stack(DoubleRegisterSelector::BC),
            Opcode::AddAX => self.add_value(),
            Opcode::Rst00h => self.nop(),
            Opcode::RetZ => self.ret_conditional(Condition::Zero),
            Opcode::Ret => self.ret(),
            Opcode::JpZXX => self.jump(Condition::Zero),
            Opcode::BITS => self.execute_bits(),
            Opcode::CallZXX => self.call(Condition::Zero),
            Opcode::CallXX => self.call(Condition::Always),
            Opcode::AdcAX => self.add_carry_value(),
            Opcode::Rst08h => self.nop(),
            Opcode::RetNC => self.ret_conditional(Condition::NoCarry),
            Opcode::PopDE => self.pop_from_stack(DoubleRegisterSelector::DE),
            Opcode::JpNCXX => self.jump(Condition::NoCarry),
            Opcode::OutXA => self.nop(),
            Opcode::CallNCXX => self.call(Condition::NoCarry),
            Opcode::PushDE => self.push_to_stack(DoubleRegisterSelector::DE),
            Opcode::SubX => self.subtract_value(),
            Opcode::Rst10h => self.nop(),
            Opcode::RetC => self.ret_conditional(Condition::Carry),
            Opcode::Exx => self.shadow_exchange_bc_de_hl(),
            Opcode::JpCXX => self.jump(Condition::Carry),
            Opcode::InAX => self.nop(),
            Opcode::CallCXX => self.call(Condition::Carry),
            Opcode::IX => self.nop(),
            Opcode::SbcAX => self.subtract_carry_value(),
            Opcode::Rst18h => self.nop(),
            Opcode::RetPO => self.ret_conditional(Condition::ParityOdd),
            Opcode::PopHL => self.pop_from_stack(DoubleRegisterSelector::HL),
            Opcode::JpPOXX => self.jump(Condition::ParityOdd),
            Opcode::ExVSPHL => self.exchange_memory_from_sp_with_hl(),
            Opcode::CallPOXX => self.call(Condition::ParityOdd),
            Opcode::PushHL => self.push_to_stack(DoubleRegisterSelector::HL),
            Opcode::AndX => self.and_value(),
            Opcode::Rst20h => self.nop(),
            Opcode::RetPE => self.ret_conditional(Condition::ParityEven),
            Opcode::JpHL => self.nop(),
            Opcode::JpPEXX => self.jump(Condition::ParityEven),
            Opcode::ExDEHL => self.exchange_de_with_hl(),
            Opcode::CallPEXX => self.call(Condition::ParityEven),
            Opcode::EXTD => self.nop(),
            Opcode::XorX => self.xor_value(),
            Opcode::Rst28h => self.nop(),
            Opcode::RetP => self.ret_conditional(Condition::Positive),
            Opcode::PopAF => self.pop_from_stack(DoubleRegisterSelector::AF),
            Opcode::JpPXX => self.jump(Condition::Positive),
            Opcode::Di => self.nop(),
            Opcode::CallPXX => self.call(Condition::Positive),
            Opcode::PushAF => self.push_to_stack(DoubleRegisterSelector::AF),
            Opcode::OrX => self.or_value(),
            Opcode::Rst30h => self.nop(),
            Opcode::RetM => self.ret_conditional(Condition::Negative),
            Opcode::LdSpHl => self.nop(),
            Opcode::JpMXX => self.jump(Condition::Negative),
            Opcode::Ei => self.nop(),
            Opcode::CallMXX => self.call(Condition::Negative),
            Opcode::IY => self.nop(),
            Opcode::CpX => self.nop(),
            Opcode::Rst38h => self.nop(),
            _ => self.nop(),
        }
    }

    /// One step without hooks: the opcode at the program counter is
    /// consumed, decoded and executed.
    pub open spec fn execute(self) -> MachineView {
        self.after_fetch().dispatch(self.next_opcode())
    }
}

impl Machine {
    /// Executes one step without hooks.
    pub fn execute(&mut self)
        ensures
            final(self)@ == old(self)@.execute(),
    {
        let mut callbacks = Callbacks::new();
        self.execute_with(&mut callbacks);
    }

    /// Executes one step. The hooks are called in this order: those before
    /// the fetch; then, with the decoded opcode, those registered for it and
    /// those registered for every opcode; then the handler runs; then the
    /// hooks for every opcode and those for this one are called. The hooks
    /// stay registered. Where no hook is called, the step is that of
    /// `execute`.
    pub fn execute_with(&mut self, callbacks: &mut Callbacks)
        ensures
            old(callbacks)@.may_step(old(self)@, final(self)@),
            final(callbacks)@.same_shape(old(callbacks)@),
            old(callbacks)@.is_silent_for(old(self)@.next_opcode()) ==> final(self)@ == old(
                self,
            )@.execute(),
    {
        let ghost registered = callbacks@;
        callbacks.do_before_instruction_fetch(self);
        let ghost fetching = self@;

        let instruction: Opcode = Opcode::from(self.next_byte());
        callbacks.do_before_instruction_exec_match(self, instruction);
        let ghost matched = self@;
        callbacks.do_before_instruction_exec(self, instruction);
        let ghost ready = self@;

        self.dispatch(instruction);

        callbacks.do_after_instruction_exec(self, instruction);
        let ghost noticed = self@;
        callbacks.do_after_instruction_exec_match(self, instruction);
        assert(registered.steps_through(old(self)@, fetching, matched, ready, noticed, self@));
    }

    /// Runs the handler of an opcode that has been fetched and decoded.
    pub fn dispatch(&mut self, instruction: Opcode)
        ensures
            final(self)@ == old(self)@.dispatch(instruction),
    {
        let code: u8 = instruction.to_u8();
        if code < 0x40 {
            self.dispatch_first_quarter(instruction);
        } else if code < 0x80 {
            self.dispatch_second_quarter(instruction);
        } else if code < 0xC0 {
            self.dispatch_third_quarter(instruction);
        } else {
            self.dispatch_last_quarter(instruction);
        }
    }

    /// The opcodes below 0x40: loads of immediates, increments, rotations,
    /// relative jumps.
    fn dispatch_first_quarter(&mut self, instruction: Opcode)
        ensures
            final(self)@ == old(self)@.dispatch_first_quarter(instruction),
    {
        reveal(MachineView::dispatch_first_quarter);
        match instruction {
            Opcode::Nop => self.nop(),
            Opcode::LdBCXX => self.load_into_register_pair(Registers::into_bc()),
            Opcode::LdVBCA => self.load_into_memory(Registers::a(), Registers::address_in_bc()),
            Opcode::IncBC => self.increment_register_pair(Registers::into_bc()),
            Opcode::IncB => self.increment_register(Registers::into_b()),
            Opcode::DecB => self.decrement_register(Registers::into_b()),
            Opcode::LdBX => self.load_into_register(Registers::into_b()),
            Opcode::RLCA => self.rotate_accumulator_copy_left(),
            Opcode::ExAFAF => self.shadow_exchange_af(),
            Opcode::AddHLBC => self.add_register_pair_to_hl(Registers::bc()),
            Opcode::LdAVBC => self.load_memory_into_register(
                Registers::address_in_bc(),
                Registers::into_a(),
            ),
            Opcode::DecBC => self.decrement_register_pair(Registers::into_bc()),
            Opcode::IncC => self.increment_register(Registers::into_c()),
            Opcode::DecC => self.decrement_register(Registers::into_c()),
            Opcode::LdCX => self.load_into_register(Registers::into_c()),
            Opcode::RRCA => self.rotate_accumulator_copy_right(),
            Opcode::DjNZX => self.decrement_and_jump_on_non_zero(),
            Opcode::LdDEXX => self.load_into_register_pair(Registers::into_de()),
            Opcode::LdVDEA => self.load_into_memory(Registers::a(), Registers::address_in_de()),
            Opcode::IncDE => self.increment_register_pair(Registers::into_de()),
            Opcode::IncD => self.increment_register(Registers::into_d()),
            Opcode::DecD => self.decrement_register(Registers::into_d()),
            Opcode::LdDX => self.load_into_register(Registers::into_d()),
            Opcode::RLA => self.rotate_accumulator_left(),
            Opcode::JrX => self.jump_relative(Condition::Always),
            Opcode::AddHLDE => self.add_register_pair_to_hl(Registers::de()),
            Opcode::LdAVDE => self.load_memory_into_register(
                Registers::address_in_de(),
                Registers::into_a(),
            ),
            Opcode::DecDE => self.decrement_register_pair(Registers::into_de()),
            Opcode::IncE => self.increment_register(Registers::into_e()),
            Opcode::DecE => self.decrement_register(Registers::into_e()),
            Opcode::LdEX => self.load_into_register(Registers::into_e()),
            Opcode::RRA => self.rotate_accumulator_right(),
            Opcode::JrNZX => self.jump_relative(Condition::NonZero),
            Opcode::LdHLXX => self.load_into_register_pair(Registers::into_hl()),
            Opcode::LdVXXHL => self.load_wide_register_into_param_memory(Registers::hl()),
            Opcode::IncHL => self.increment_register_pair(Registers::into_hl()),
            Opcode::IncH => self.increment_register(Registers::into_h()),
            Opcode::DecH => self.decrement_register(Registers::into_h()),
            Opcode::LdHX => self.load_into_register(Registers::into_h()),
            Opcode::JrZX => self.jump_relative(Condition::Zero),
            Opcode::AddHLHL => self.add_register_pair_to_hl(Registers::hl()),
            Opcode::LdHLVXX => self.load_param_memory_into_wide_register(Registers::into_hl()),
            Opcode::DecHL => self.decrement_register_pair(Registers::into_hl()),
            Opcode::IncL => self.increment_register(Registers::into_l()),
            Opcode::DecL => self.decrement_register(Registers::into_l()),
            Opcode::LdLX => self.load_into_register(Registers::into_l()),
            Opcode::CPL => self.complement_registers(Registers::into_a()),
            Opcode::JrNCX => self.jump_relative(Condition::NoCarry),
            Opcode::LdSPXX => self.load_into_register_pair(Registers::into_sp()),
            Opcode::LdVXXA => self.load_register_into_param_memory(Registers::a()),
            Opcode::IncSP => self.increment_register_pair(Registers::into_sp()),
            Opcode::IncVHL => self.increment_memory(),
            Opcode::DecVHL => self.decrement_memory(),
            Opcode::LdVHLX => self.load_param_into_memory(Registers::hl()),
            Opcode::SCF => self.set_carry_flag(),
            Opcode::JrCX => self.jump_relative(Condition::Carry),
            Opcode::AddHLSP => self.add_register_pair_to_hl(Registers::sp()),
            Opcode::LdAVXX => self.load_param_memory_into_register(Registers::into_a()),
            Opcode::DecSP => self.decrement_register_pair(Registers::into_sp()),
            Opcode::IncA => self.increment_register(Registers::into_a()),
            Opcode::DecA => self.decrement_register(Registers::into_a()),
            Opcode::LdAX => self.load_into_register(Registers::into_a()),
            Opcode::CCF => self.complement_carry_flag(),
            _ => self.nop(),
        }
    }

    /// The opcodes from 0x40 to 0x7F: the loads between registers, and HALT.
    fn dispatch_second_quarter(&mut self, instruction: Opcode)
        ensures
            final(self)@ == old(self)@.dispatch_second_quarter(instruction),
    {
        reveal(MachineView::dispatch_second_quarter);
        match instruction {
            Opcode::LdBB => self.load_register_into_register(Registers::b(), Registers::into_b()),
            Opcode::LdBC => self.load_register_into_register(Registers::c(), Registers::into_b()),
            Opcode::LdBD => self.load_register_into_register(Registers::d(), Registers::into_b()),
            Opcode::LdBE => self.load_register_into_register(Registers::e(), Registers::into_b()),
            Opcode::LdBH => self.load_register_into_register(Registers::h(), Registers::into_b()),
            Opcode::LdBL => self.load_register_into_register(Registers::l(), Registers::into_b()),
            Opcode::LdBHL => self.load_memory_into_register(
                Registers::address_in_hl(),
                Registers::into_b(),
            ),
            Opcode::LdBA => self.load_register_into_register(Registers::a(), Registers::into_b()),
            Opcode::LdCB => self.load_register_into_register(Registers::b(), Registers::into_c()),
            Opcode::LdCC => self.load_register_into_register(Registers::c(), Registers::into_c()),
            Opcode::LdCD => self.load_register_into_register(Registers::d(), Registers::into_c()),
            Opcode::LdCE => self.load_register_into_register(Registers::e(), Registers::into_c()),
            Opcode::LdCH => self.load_register_into_register(Registers::h(), Registers::into_c()),
            Opcode::LdCL => self.load_register_into_register(Registers::l(), Registers::into_c()),
            Opcode::LdCHL => self.load_memory_into_register(
                Registers::address_in_hl(),
                Registers::into_c(),
            ),
            Opcode::LdCA => self.load_register_into_register(Registers::a(), Registers::into_c()),
            Opcode::LdDB => self.load_register_into_register(Registers::b(), Registers::into_d()),
            Opcode::LdDC => self.load_register_into_register(Registers::c(), Registers::into_d()),
            Opcode::LdDD => self.load_register_into_register(Registers::d(), Registers::into_d()),
            Opcode::LdDE => self.load_register_into_register(Registers::e(), Registers::into_d()),
            Opcode::LdDH => self.load_register_into_register(Registers::h(), Registers::into_d()),
            Opcode::LdDL => self.load_register_into_register(Registers::l(), Registers::into_d()),
            Opcode::LdDHL => self.load_memory_into_register(
                Registers::address_in_hl(),
                Registers::into_d(),
            ),
            Opcode::LdDA => self.load_register_into_register(Registers::a(), Registers::into_d()),
            Opcode::LdEB => self.load_register_into_register(Registers::b(), Registers::into_e()),
            Opcode::LdEC => self.load_register_into_register(Registers::c(), Registers::into_e()),
            Opcode::LdED => self.load_register_into_register(Registers::d(), Registers::into_e()),
            Opcode::LdEE => self.load_register_into_register(Registers::e(), Registers::into_e()),
            Opcode::LdEH => self.load_register_into_register(Registers::h(), Registers::into_e()),
            Opcode::LdEL => self.load_register_into_register(Registers::l(), Registers::into_e()),
            Opcode::LdEHL => self.load_memory_into_register(
                Registers::address_in_hl(),
                Registers::into_e(),
            ),
            Opcode::LdEA => self.load_register_into_register(Registers::a(), Registers::into_e()),
            Opcode::LdHB => self.load_register_into_register(Registers::b(), Registers::into_h()),
            Opcode::LdHC => self.load_register_into_register(Registers::c(), Registers::into_h()),
            Opcode::LdHD => self.load_register_into_register(Registers::d(), Registers::into_h()),
            Opcode::LdHE => self.load_register_into_register(Registers::e(), Registers::into_h()),
            Opcode::LdHH => self.load_register_into_register(Registers::h(), Registers::into_h()),
            Opcode::LdHL => self.load_register_into_register(Registers::l(), Registers::into_h()),
            Opcode::LdHHL => self.load_memory_into_register(
                Registers::address_in_hl(),
                Registers::into_h(),
            ),
            Opcode::LdHA => self.load_register_into_register(Registers::a(), Registers::into_h()),
            Opcode::LdLB => self.load_register_into_register(Registers::b(), Registers::into_l()),
            Opcode::LdLC => self.load_register_into_register(Registers::c(), Registers::into_l()),
            Opcode::LdLD => self.load_register_into_register(Registers::d(), Registers::into_l()),
            Opcode::LdLE => self.load_register_into_register(Registers::e(), Registers::into_l()),
            Opcode::LdLH => self.load_register_into_register(Registers::h(), Registers::into_l()),
            Opcode::LdLL => self.load_register_into_register(Registers::l(), Registers::into_l()),
            Opcode::LdLHL => self.load_memory_into_register(
                Registers::address_in_hl(),
                Registers::into_l(),
            ),
            Opcode::LdLA => self.load_register_into_register(Registers::a(), Registers::into_l()),
            Opcode::LdHLB => self.load_register_into_memory(Registers::b(), Registers::hl()),
            Opcode::LdHLC => self.load_register_into_memory(Registers::c(), Registers::hl()),
            Opcode::LdHLD => self.load_register_into_memory(Registers::d(), Registers::hl()),
            Opcode::LdHLE => self.load_register_into_memory(Registers::e(), Registers::hl()),
            Opcode::LdHLH => self.load_register_into_memory(Registers::h(), Registers::hl()),
            Opcode::LdHLL => self.load_register_into_memory(Registers::l(), Registers::hl()),
            Opcode::Halt => self.halt(),
            Opcode::LdHLA => self.load_register_into_memory(Registers::a(), Registers::hl()),
            Opcode::LdAB => self.load_register_into_register(Registers::b(), Registers::into_a()),
            Opcode::LdAC => self.load_register_into_register(Registers::c(), Registers::into_a()),
            Opcode::LdAD => self.load_register_into_register(Registers::d(), Registers::into_a()),
            Opcode::LdAE => self.load_register_into_register(Registers::e(), Registers::into_a()),
            Opcode::LdAH => self.load_register_into_register(Registers::h(), Registers::into_a()),
            Opcode::LdAL => self.load_register_into_register(Registers::l(), Registers::into_a()),
            Opcode::LdAHL => self.load_memory_into_register(
                Registers::address_in_hl(),
                Registers::into_a(),
            ),
            Opcode::LdAA => self.load_register_into_register(Registers::a(), Registers::into_a()),
            _ => self.nop(),
        }
    }

    /// The opcodes from 0x80 to 0xBF: arithmetic and logic on the
    /// accumulator.
    fn dispatch_third_quarter(&mut self, instruction: Opcode)
        ensures
            final(self)@ == old(self)@.dispatch_third_quarter(instruction),
    {
        reveal(MachineView::dispatch_third_quarter);
        match instruction {
            Opcode::AddB => self.add_register(Registers::b()),
            Opcode::AddC => self.add_register(Registers::c()),
            Opcode::AddD => self.add_register(Registers::d()),
            Opcode::AddE => self.add_register(Registers::e()),
            Opcode::AddH => self.add_register(Registers::h()),
            Opcode::AddL => self.add_register(Registers::l()),
            Opcode::AddVHL => self.add_memory(),
            Opcode::AddA => self.add_register(Registers::a()),
            Opcode::AdcB => self.add_carry_register(Registers::b()),
            Opcode::AdcC => self.add_carry_register(Registers::c()),
            Opcode::AdcD => self.add_carry_register(Registers::d()),
            Opcode::AdcE => self.add_carry_register(Registers::e()),
            Opcode::AdcH => self.add_carry_register(Registers::h()),
            Opcode::AdcL => self.add_carry_register(Registers::l()),
            Opcode::AdcAVHL => self.add_carry_memory(),
            Opcode::AdcA => self.add_carry_register(Registers::a()),
            Opcode::SubB => self.subtract_register(Registers::b()),
            Opcode::SubC => self.subtract_register(Registers::c()),
            Opcode::SubD => self.subtract_register(Registers::d()),
            Opcode::SubE => self.subtract_register(Registers::e()),
            Opcode::SubH => self.subtract_register(Registers::h()),
            Opcode::SubL => self.subtract_register(Registers::l()),
            Opcode::SubVHL => self.sub_memory(),
            Opcode::SubA => self.subtract_register(Registers::a()),
            Opcode::SbcB => self.subtract_carry_register(Registers::b()),
            Opcode::SbcC => self.subtract_carry_register(Registers::c()),
            Opcode::SbcD => self.subtract_carry_register(Registers::d()),
            Opcode::SbcE => self.subtract_carry_register(Registers::e()),
            Opcode::SbcH => self.subtract_carry_register(Registers::h()),
            Opcode::SbcL => self.subtract_carry_register(Registers::l()),
            Opcode::SbcAVHL => self.subtract_carry_memory(),
            Opcode::SbcA => self.subtract_carry_register(Registers::a()),
            Opcode::AndB => self.and_register(Registers::b()),
            Opcode::AndC => self.and_register(Registers::c()),
            Opcode::AndD => self.and_register(Registers::d()),
            Opcode::AndE => self.and_register(Registers::e()),
            Opcode::AndH => self.and_register(Registers::h()),
            Opcode::AndL => self.and_register(Registers::l()),
            Opcode::AndA => self.and_register(Registers::a()),
            Opcode::XorB => self.xor_register(Registers::b()),
            Opcode::XorC => self.xor_register(Registers::c()),
            Opcode::XorD => self.xor_register(Registers::d()),
            Opcode::XorE => self.xor_register(Registers::e()),
            Opcode::XorH => self.xor_register(Registers::h()),
            Opcode::XorL => self.xor_register(Registers::l()),
            Opcode::XorA => self.xor_register(Registers::a()),
            Opcode::OrB => self.or_register(Registers::b()),
            Opcode::OrC => self.or_register(Registers::c()),
            Opcode::OrD => self.or_register(Registers::d()),
            Opcode::OrE => self.or_register(Registers::e()),
            Opcode::OrH => self.or_register(Registers::h()),
            Opcode::OrL => self.or_register(Registers::l()),
            Opcode::OrHL => self.nop(),
            Opcode::OrA => self.or_register(Registers::a()),
            Opcode::CpB => self.nop(),
            Opcode::CpC => self.nop(),
            Opcode::CpD => self.nop(),
            Opcode::CpE => self.nop(),
            Opcode::CpH => self.nop(),
            Opcode::CpL => self.nop(),
            Opcode::CpHL => self.nop(),
            Opcode::CpA => self.nop(),
            _ => self.nop(),
        }
    }

    /// The opcodes from 0xC0: jumps, calls, returns, the stack, immediates.
    fn dispatch_last_quarter(&mut self, instruction: Opcode)
        ensures
            final(self)@ == old(self)@.dispatch_last_quarter(instruction),
    {
        reveal(MachineView::dispatch_last_quarter);
        match instruction {
            Opcode::RetNZ => self.ret_conditional(Condition::NonZero),
            Opcode::PopBC => self.pop_from_stack(Registers::into_bc()),
            Opcode::JpNZXX => self.jump(Condition::NonZero),
            Opcode::JpXX => self.jump(Condition::Always),
            Opcode::CallNZXX => self.call(Condition::NonZero),
            Opcode::PushBC => self.push_to_stack(Registers::bc()),
            Opcode::AddAX => self.add_value(),
            Opcode::Rst00h => self.nop(),
            Opcode::RetZ => self.ret_conditional(Condition::Zero),
            Opcode::Ret => self.ret(),
            Opcode::JpZXX => self.jump(Condition::Zero),
            Opcode::BITS => {
                self.execute_bits();
            },
            Opcode::CallZXX => self.call(Condition::Zero),
            Opcode::CallXX => self.call(Condition::Always),
            Opcode::AdcAX => self.add_carry_value(),
            Opcode::Rst08h => self.nop(),
            Opcode::RetNC => self.ret_conditional(Condition::NoCarry),
            Opcode::PopDE => self.pop_from_stack(Registers::into_de()),
            Opcode::JpNCXX => self.jump(Condition::NoCarry),
            Opcode::OutXA => self.nop(),
            Opcode::CallNCXX => self.call(Condition::NoCarry),
            Opcode::PushDE => self.push_to_stack(Registers::de()),
            Opcode::SubX => self.subtract_value(),
            Opcode::Rst10h => self.nop(),
            Opcode::RetC => self.ret_conditional(Condition::Carry),
            Opcode::Exx => self.shadow_exchange_bc_de_hl(),
            Opcode::JpCXX => self.jump(Condition::Carry),
            Opcode::InAX => self.nop(),
            Opcode::CallCXX => self.call(Condition::Carry),
            Opcode::IX => self.nop(),
            Opcode::SbcAX => self.subtract_carry_value(),
            Opcode::Rst18h => self.nop(),
            Opcode::RetPO => self.ret_conditional(Condition::ParityOdd),
            Opcode::PopHL => self.pop_from_stack(Registers::into_hl()),
            Opcode::JpPOXX => self.jump(Condition::ParityOdd),
            Opcode::ExVSPHL => self.exchange_memory_from_sp_with_hl(),
            Opcode::CallPOXX => self.call(Condition::ParityOdd),
            Opcode::PushHL => self.push_to_stack(Registers::hl()),
            Opcode::AndX => self.and_value(),
            Opcode::Rst20h => self.nop(),
            Opcode::RetPE => self.ret_conditional(Condition::ParityEven),
            Opcode::JpHL => self.nop(),
            Opcode::JpPEXX => self.jump(Condition::ParityEven),
            Opcode::ExDEHL => self.exchange_de_with_hl(),
            Opcode::CallPEXX => self.call(Condition::ParityEven),
            Opcode::EXTD => self.nop(),
            Opcode::XorX => self.xor_value(),
            Opcode::Rst28h => self.nop(),
            Opcode::RetP => self.ret_conditional(Condition::Positive),
            Opcode::PopAF => self.pop_from_stack(Registers::into_af()),
            Opcode::JpPXX => self.jump(Condition::Positive),
            Opcode::Di => self.nop(),
            Opcode::CallPXX => self.call(Condition::Positive),
            Opcode::PushAF => self.push_to_stack(Registers::af()),
            Opcode::OrX => self.or_value(),
            Opcode::Rst30h => self.nop(),
            Opcode::RetM => self.ret_conditional(Condition::Negative),
            Opcode::LdSpHl => self.nop(),
            Opcode::JpMXX => self.jump(Condition::Negative),
            Opcode::Ei => self.nop(),
            Opcode::CallMXX => self.call(Condition::Negative),
            Opcode::IY => self.nop(),
            Opcode::CpX => self.nop(),
            Opcode::Rst38h => self.nop(),
            _ => self.nop(),
        }
    }

    /// Consumes the octet at the program counter.
    pub fn next_byte(&mut self) -> (value: u8)
        ensures
            value == old(self)@.fetched(),
            final(self)@ == old(self)@.after_fetch(),
    {
        let pc: u16 = alu::get_word(self.cpu.state.pc);
        let value: u8 = self.ram.read_u8(pc);
        match pc.checked_add(1) {
            Some(next) => {
                self.cpu.state.pc = alu::get_octets(next);
            },
            None => {
                self.cpu.state.pc = alu::get_octets(0);
                self.stop();
            },
        }
        value
    }

    /// Consumes two octets at the program counter and gives them as (high,
    /// low): the low octet comes first in memory.
    pub fn next_byte_pair(&mut self) -> (value: (u8, u8))
        ensures
            value == (old(self)@.after_fetch().fetched(), old(self)@.fetched()),
            word_of(value) == old(self)@.fetched_word(),
            final(self)@ == old(self)@.after_fetch_word(),
    {
        let low: u8 = self.next_byte();
        let high: u8 = self.next_byte();
        (high, low)
    }

    /// Consumes the little-endian word at the program counter.
    pub fn next_word(&mut self) -> (value: u16)
        ensures
            value == old(self)@.fetched_word(),
            final(self)@ == old(self)@.after_fetch_word(),
    {
        let low: u8 = self.next_byte();
        let high: u8 = self.next_byte();
        alu::get_word((high, low))
    }
}

} // verus!
