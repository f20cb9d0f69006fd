//! The architectural state of the processor: two register banks, the program
//! counter and the stack pointer.

use crate::vm::cpu::alu;
use crate::vm::cpu::alu::{octets_of, word_of};
use crate::vm::cpu::registers::{
    AddressSelector, DoubleRegisterSelector, RegisterSelector, Registers,
};
use vstd::prelude::*;

verus! {

/// Main bank, shadow bank, program counter and stack pointer. The two
/// counters are stored as (high, low) like the pairs.
#[derive(Clone, Copy, Debug)]
pub struct State {
    pub registers: Registers,
    pub alt_registers: Registers,
    pub pc: (u8, u8),
    pub sp: (u8, u8),
    pub status: u8,
}

impl State {
    /// The octet in a register of the main bank.
    pub open spec fn read8(self, selector: RegisterSelector) -> u8 {
        match selector {
            RegisterSelector::A => self.registers.af.0,
            RegisterSelector::F => self.registers.af.1,
            RegisterSelector::B => self.registers.bc.0,
            RegisterSelector::C => self.registers.bc.1,
            RegisterSelector::D => self.registers.de.0,
            RegisterSelector::E => self.registers.de.1,
            RegisterSelector::H => self.registers.hl.0,
            RegisterSelector::L => self.registers.hl.1,
        }
    }

    /// The (high, low) octets of a pair of the main bank or of a counter.
    pub open spec fn read16(self, selector: DoubleRegisterSelector) -> (u8, u8) {
        match selector {
            DoubleRegisterSelector::AF => self.registers.af,
            DoubleRegisterSelector::BC => self.registers.bc,
            DoubleRegisterSelector::DE => self.registers.de,
            DoubleRegisterSelector::HL => self.registers.hl,
            DoubleRegisterSelector::SP => self.sp,
            DoubleRegisterSelector::PC => self.pc,
        }
    }

    /// The state with one pair or counter replaced.
    pub open spec fn write16(self, target: DoubleRegisterSelector, value: (u8, u8)) -> State {
        match target {
            DoubleRegisterSelector::AF => State {
                registers: Registers { af: value, ..self.registers },
                ..self
            },
            DoubleRegisterSelector::BC => State {
                registers: Registers { bc: value, ..self.registers },
                ..self
            },
            DoubleRegisterSelector::DE => State {
                registers: Registers { de: value, ..self.registers },
                ..self
            },
            DoubleRegisterSelector::HL => State {
                registers: Registers { hl: value, ..self.registers },
                ..self
            },
            DoubleRegisterSelector::SP => State { sp: value, ..self },
            DoubleRegisterSelector::PC => State { pc: value, ..self },
        }
    }

    /// The state with one 8-bit register replaced: the other half of its
    /// pair stays.
    pub open spec fn write8(self, target: RegisterSelector, value: u8) -> State {
        match target {
            RegisterSelector::A => self.write16(
                DoubleRegisterSelector::AF,
                (value, self.registers.af.1),
            ),
            RegisterSelector::F => self.write16(
                DoubleRegisterSelector::AF,
                (self.registers.af.0, value),
            ),
            RegisterSelector::B => self.write16(
                DoubleRegisterSelector::BC,
                (value, self.registers.bc.1),
            ),
            RegisterSelector::C => self.write16(
                DoubleRegisterSelector::BC,
                (self.registers.bc.0, value),
            ),
            RegisterSelector::D => self.write16(
                DoubleRegisterSelector::DE,
                (value, self.registers.de.1),
            ),
            RegisterSelector::E => self.write16(
                DoubleRegisterSelector::DE,
                (self.registers.de.0, value),
            ),
            RegisterSelector::H => self.write16(
                DoubleRegisterSelector::HL,
                (value, self.registers.hl.1),
            ),
            RegisterSelector::L => self.write16(
                DoubleRegisterSelector::HL,
                (self.registers.hl.0, value),
            ),
        }
    }

    /// The value of a pair or counter as a word.
    pub open spec fn word(self, selector: DoubleRegisterSelector) -> u16 {
        word_of(self.read16(selector))
    }

    /// The flag octet.
    pub open spec fn flags(self) -> u8 {
        self.registers.af.1
    }

    /// The state with the flag octet replaced.
    pub open spec fn with_flags(self, flags: u8) -> State {
        self.write8(RegisterSelector::F, flags)
    }

    /// The state after a reset: every register and counter zero.
    pub open spec fn new_spec() -> State {
        State {
            registers: Registers { af: (0, 0), bc: (0, 0), de: (0, 0), hl: (0, 0) },
            alt_registers: Registers { af: (0, 0), bc: (0, 0), de: (0, 0), hl: (0, 0) },
            pc: (0, 0),
            sp: (0, 0),
            status: 0,
        }
    }

    /// The state after a reset.
    pub fn new() -> (state: State)
        ensures
            state == State::new_spec(),
    {
        State {
            registers: Registers::new(),
            alt_registers: Registers::new(),
            pc: (0x00, 0x00),
            sp: (0x00, 0x00),
            status: 0,
        }
    }

    /// Reads an 8-bit register.
    pub fn get(&self, selector: RegisterSelector) -> (value: u8)
        ensures
            value == self.read8(selector),
    {
        match selector {
            RegisterSelector::A => self.registers.af.0,
            RegisterSelector::F => self.registers.af.1,
            RegisterSelector::B => self.registers.bc.0,
            RegisterSelector::C => self.registers.bc.1,
            RegisterSelector::D => self.registers.de.0,
            RegisterSelector::E => self.registers.de.1,
            RegisterSelector::H => self.registers.hl.0,
            RegisterSelector::L => self.registers.hl.1,
        }
    }

    /// Writes an 8-bit register.
    pub fn assign(&mut self, target: RegisterSelector, value: u8)
        ensures
            *final(self) == old(self).write8(target, value),
    {
        match target {
            RegisterSelector::A => self.registers.af.0 = value,
            RegisterSelector::F => self.registers.af.1 = value,
            RegisterSelector::B => self.registers.bc.0 = value,
            RegisterSelector::C => self.registers.bc.1 = value,
            RegisterSelector::D => self.registers.de.0 = value,
            RegisterSelector::E => self.registers.de.1 = value,
            RegisterSelector::H => self.registers.hl.0 = value,
            RegisterSelector::L => self.registers.hl.1 = value,
        }
    }

    /// Reads the (high, low) octets of a pair or counter.
    pub fn get_bytes(&self, selector: DoubleRegisterSelector) -> (value: (u8, u8))
        ensures
            value == self.read16(selector),
    {
        match selector {
            DoubleRegisterSelector::AF => self.registers.af,
            DoubleRegisterSelector::BC => self.registers.bc,
            DoubleRegisterSelector::DE => self.registers.de,
            DoubleRegisterSelector::HL => self.registers.hl,
            DoubleRegisterSelector::SP => self.sp,
            DoubleRegisterSelector::PC => self.pc,
        }
    }

    /// Writes the (high, low) octets of a pair or counter.
    pub fn assign_bytes(&mut self, target: DoubleRegisterSelector, value: (u8, u8))
        ensures
            *final(self) == old(self).write16(target, value),
    {
        match target {
            DoubleRegisterSelector::AF => self.registers.af = value,
            DoubleRegisterSelector::BC => self.registers.bc = value,
            DoubleRegisterSelector::DE => self.registers.de = value,
            DoubleRegisterSelector::HL => self.registers.hl = value,
            DoubleRegisterSelector::SP => self.sp = value,
            DoubleRegisterSelector::PC => self.pc = value,
        }
    }

    /// Writes a word into a pair or counter, high octet first.
    pub fn assign_word(&mut self, target: DoubleRegisterSelector, value: u16)
        ensures
            *final(self) == old(self).write16(target, octets_of(value)),
            final(self).word(target) == value,
    {
        self.assign_bytes(target, alu::get_octets(value));
    }

    /// Reads a pair or counter as a word.
    pub fn get_word(&self, selector: DoubleRegisterSelector) -> (value: u16)
        ensures
            value == self.word(selector),
    {
        alu::get_word(self.get_bytes(selector))
    }

    /// The address that a pair holds.
    pub fn address(&self, pointer: AddressSelector) -> (address: u16)
        ensures
            address == self.word(pointer.pair()),
    {
        match pointer {
            AddressSelector::BC => alu::get_word(self.registers.bc),
            AddressSelector::DE => alu::get_word(self.registers.de),
            AddressSelector::HL => alu::get_word(self.registers.hl),
        }
    }
}

impl State {
    /// A pair is its two halves: its word is 256 times the high register
    /// plus the low one.
    pub proof fn lemma_pair_of_halves(self)
        ensures
            self.word(DoubleRegisterSelector::AF) == self.read8(RegisterSelector::A) * 256
                + self.read8(RegisterSelector::F),
            self.word(DoubleRegisterSelector::BC) == self.read8(RegisterSelector::B) * 256
                + self.read8(RegisterSelector::C),
            self.word(DoubleRegisterSelector::DE) == self.read8(RegisterSelector::D) * 256
                + self.read8(RegisterSelector::E),
            self.word(DoubleRegisterSelector::HL) == self.read8(RegisterSelector::H) * 256
                + self.read8(RegisterSelector::L),
    {
    }

    /// What was written into a register or a pair is read back from it, and
    /// a word written into a pair is read back as the same word.
    pub proof fn lemma_write_then_read(
        self,
        register: RegisterSelector,
        pair: DoubleRegisterSelector,
        octet: u8,
        octets: (u8, u8),
        word: u16,
    )
        ensures
            self.write8(register, octet).read8(register) == octet,
            self.write16(pair, octets).read16(pair) == octets,
            self.write16(pair, octets_of(word)).word(pair) == word,
    {
    }
}

} // verus!
