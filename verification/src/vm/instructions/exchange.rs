//! The exchanges: with the shadow bank, between pairs, with the stack.

use crate::vm::cpu::alu;
use crate::vm::cpu::registers::{DoubleRegisterSelector, Registers};
use crate::vm::cpu::state::State;
use crate::vm::machine::{Machine, MachineView};
use vstd::prelude::*;

verus! {

/// Names a pair of a bank.
#[derive(Clone, Copy, Debug, PartialEq, Eq, Structural)]
pub enum BankPair {
    AF,
    BC,
    DE,
    HL,
}

impl Registers {
    /// A pair of the bank.
    pub open spec fn pair(self, pair: BankPair) -> (u8, u8) {
        match pair {
            BankPair::AF => self.af,
            BankPair::BC => self.bc,
            BankPair::DE => self.de,
            BankPair::HL => self.hl,
        }
    }

    /// The bank with a pair replaced.
    pub open spec fn with_pair(self, pair: BankPair, value: (u8, u8)) -> Registers {
        match pair {
            BankPair::AF => Registers { af: value, ..self },
            BankPair::BC => Registers { bc: value, ..self },
            BankPair::DE => Registers { de: value, ..self },
            BankPair::HL => Registers { hl: value, ..self },
        }
    }
}

impl MachineView {
    /// One pair of the main bank swapped with the same pair of the shadow
    /// bank.
    #[verifier::opaque]
    pub open spec fn exchange_with_shadow(self, pair: BankPair) -> MachineView {
        self.with_state(
            State {
                registers: self.cpu.state.registers.with_pair(
                    pair,
                    self.cpu.state.alt_registers.pair(pair),
                ),
                alt_registers: self.cpu.state.alt_registers.with_pair(
                    pair,
                    self.cpu.state.registers.pair(pair),
                ),
                ..self.cpu.state
            },
        )
    }

    /// Two pairs of the main bank swapped.
    #[verifier::opaque]
    pub open spec fn exchange(self, first: BankPair, second: BankPair) -> MachineView {
        self.with_state(
            State {
                registers: self.cpu.state.registers.with_pair(
                    first,
                    self.cpu.state.registers.pair(second),
                ).with_pair(second, self.cpu.state.registers.pair(first)),
                ..self.cpu.state
            },
        )
    }

    /// EX AF,AF'.
    #[verifier::opaque]
    pub open spec fn shadow_exchange_af(self) -> MachineView {
        self.exchange_with_shadow(BankPair::AF).clock(4)
    }

    /// EXX: BC, DE and HL are swapped with their shadows.
    #[verifier::opaque]
    pub open spec fn shadow_exchange_bc_de_hl(self) -> MachineView {
        self.exchange_with_shadow(BankPair::BC).exchange_with_shadow(
            BankPair::DE,
        ).exchange_with_shadow(BankPair::HL).clock(4)
    }

    /// EX DE,HL.
    #[verifier::opaque]
    pub open spec fn exchange_de_with_hl(self) -> MachineView {
        self.exchange(BankPair::DE, BankPair::HL).clock(4)
    }

    /// EX (SP),HL: HL is swapped with the word in memory at the stack
    /// pointer.
    #[verifier::opaque]
    pub open spec fn exchange_memory_from_sp_with_hl(self) -> MachineView {
        self.set_register_pair(DoubleRegisterSelector::HL, self.read_u16(self.sp())).write_u16(
            self.sp(),
            self.get_register_pair(DoubleRegisterSelector::HL),
        ).clock(19)
    }
}

impl Registers {
    /// Reads a pair of the bank.
    pub fn get_pair(&self, pair: BankPair) -> (value: (u8, u8))
        ensures
            value == self.pair(pair),
    {
        match pair {
            BankPair::AF => self.af,
            BankPair::BC => self.bc,
            BankPair::DE => self.de,
            BankPair::HL => self.hl,
        }
    }

    /// Writes a pair of the bank.
    pub fn set_pair(&mut self, pair: BankPair, value: (u8, u8))
        ensures
            *final(self) == old(self).with_pair(pair, value),
    {
        match pair {
            BankPair::AF => self.af = value,
            BankPair::BC => self.bc = value,
            BankPair::DE => self.de = value,
            BankPair::HL => self.hl = value,
        }
    }
}

impl Machine {
    /// EX AF,AF'.
    pub fn shadow_exchange_af(&mut self)
        ensures
            final(self)@ == old(self)@.shadow_exchange_af(),
    {
        reveal(MachineView::shadow_exchange_af);
        self.exchange_with_shadow(BankPair::AF);
        self.clock(4);
    }

    /// EXX.
    pub fn shadow_exchange_bc_de_hl(&mut self)
        ensures
            final(self)@ == old(self)@.shadow_exchange_bc_de_hl(),
    {
        reveal(MachineView::shadow_exchange_bc_de_hl);
        self.exchange_with_shadow(BankPair::BC);
        self.exchange_with_shadow(BankPair::DE);
        self.exchange_with_shadow(BankPair::HL);
        self.clock(4);
    }

    /// EX DE,HL.
    pub fn exchange_de_with_hl(&mut self)
        ensures
            final(self)@ == old(self)@.exchange_de_with_hl(),
    {
        reveal(MachineView::exchange_de_with_hl);
        self.exchange(BankPair::DE, BankPair::HL);
        self.clock(4);
    }

    /// EX (SP),HL.
    pub fn exchange_memory_from_sp_with_hl(&mut self)
        ensures
            final(self)@ == old(self)@.exchange_memory_from_sp_with_hl(),
    {
        reveal(MachineView::exchange_memory_from_sp_with_hl);
        let sp: u16 = alu::get_word(self.cpu.state.sp);
        let reg_value: u16 = alu::get_word(self.cpu.state.registers.hl);
        let mem_value: u16 = self.ram.read_u16(sp);
        self.cpu.state.registers.hl = alu::get_octets(mem_value);
        self.ram.write_u16(sp, reg_value);
        self.clock(19);
    }

    /// Swaps two pairs of the main bank.
    pub fn exchange(&mut self, first: BankPair, second: BankPair)
        ensures
            final(self)@ == old(self)@.exchange(first, second),
    {
        reveal(MachineView::exchange);
        let first_value: (u8, u8) = self.cpu.state.registers.get_pair(first);
        let second_value: (u8, u8) = self.cpu.state.registers.get_pair(second);
        self.cpu.state.registers.set_pair(first, second_value);
        self.cpu.state.registers.set_pair(second, first_value);
    }

    /// Swaps a pair of the main bank with its shadow.
    pub fn exchange_with_shadow(&mut self, pair: BankPair)
        ensures
            final(self)@ == old(self)@.exchange_with_shadow(pair),
    {
        reveal(MachineView::exchange_with_shadow);
        let main_value: (u8, u8) = self.cpu.state.registers.get_pair(pair);
        let shadow_value: (u8, u8) = self.cpu.state.alt_registers.get_pair(pair);
        self.cpu.state.registers.set_pair(pair, shadow_value);
        self.cpu.state.alt_registers.set_pair(pair, main_value);
    }
}

impl MachineView {
    /// Exchanging twice puts every pair back where it was: nothing but the
    /// clock has changed.
    pub proof fn lemma_exchange_twice(self)
        ensures
            self.shadow_exchange_af().shadow_exchange_af() == self.clock(4).clock(4),
            self.shadow_exchange_bc_de_hl().shadow_exchange_bc_de_hl() == self.clock(4).clock(4),
            self.exchange_de_with_hl().exchange_de_with_hl() == self.clock(4).clock(4),
    {
        reveal(MachineView::shadow_exchange_af);
        reveal(MachineView::shadow_exchange_bc_de_hl);
        reveal(MachineView::exchange_de_with_hl);
        reveal(MachineView::exchange_with_shadow);
        reveal(MachineView::exchange);
    }

    /// EX AF,AF' and EXX swap whole pairs with the shadow bank, EX DE,HL
    /// swaps DE and HL; memory and the counters stay.
    pub proof fn lemma_exchanges(self)
        ensures
            self.shadow_exchange_af().cpu.state == (State {
                registers: Registers {
                    af: self.cpu.state.alt_registers.af,
                    ..self.cpu.state.registers
                },
                alt_registers: Registers {
                    af: self.cpu.state.registers.af,
                    ..self.cpu.state.alt_registers
                },
                ..self.cpu.state
            }),
            self.shadow_exchange_bc_de_hl().cpu.state == (State {
                registers: Registers {
                    af: self.cpu.state.registers.af,
                    ..self.cpu.state.alt_registers
                },
                alt_registers: Registers {
                    af: self.cpu.state.alt_registers.af,
                    ..self.cpu.state.registers
                },
                ..self.cpu.state
            }),
            self.exchange_de_with_hl().cpu.state == (State {
                registers: Registers {
                    de: self.cpu.state.registers.hl,
                    hl: self.cpu.state.registers.de,
                    ..self.cpu.state.registers
                },
                ..self.cpu.state
            }),
            self.shadow_exchange_af().ram == self.ram,
            self.shadow_exchange_bc_de_hl().ram == self.ram,
            self.exchange_de_with_hl().ram == self.ram,
    {
        reveal(MachineView::shadow_exchange_af);
        reveal(MachineView::shadow_exchange_bc_de_hl);
        reveal(MachineView::exchange_de_with_hl);
        reveal(MachineView::exchange_with_shadow);
        reveal(MachineView::exchange);
    }
}

} // verus!
