//! The processor: its state and whether it is halted.

use crate::vm::cpu::alu;
use crate::vm::cpu::alu::octets_of;
use crate::vm::cpu::registers::DoubleRegisterSelector;
use crate::vm::cpu::state::State;
use vstd::prelude::*;

verus! {

/// The architectural state and the halt signal. A halted processor retires
/// no further opcode.
#[derive(Clone, Copy, Debug)]
pub struct Processor {
    pub state: State,
    pub halted: bool,
}

impl Processor {
    /// A processor after a reset, not halted.
    pub fn new() -> (cpu: Processor)
        ensures
            !cpu.halted,
            cpu.state == State::new_spec(),
    {
        Processor { state: State::new(), halted: false }
    }

    /// Whether the processor is halted.
    pub fn is_halted(&self) -> (halted: bool)
        ensures
            halted == self.halted,
    {
        self.halted
    }

    /// Halts the processor; the state stays.
    pub fn halt(&mut self)
        ensures
            *final(self) == (Processor { halted: true, ..*old(self) }),
    {
        self.halted = true;
    }

    /// Lets the processor run again; the state stays.
    pub fn unhalt(&mut self)
        ensures
            *final(self) == (Processor { halted: false, ..*old(self) }),
    {
        self.halted = false;
    }

    /// Sets the program counter.
    pub fn goto(&mut self, address: u16)
        ensures
            *final(self) == (Processor {
                state: old(self).state.write16(DoubleRegisterSelector::PC, octets_of(address)),
                ..*old(self)
            }),
            final(self).state.word(DoubleRegisterSelector::PC) == address,
    {
        self.state.pc = alu::get_octets(address);
    }
}

} // verus!
