//! The 16-bit loads. None of them touches a flag.

use crate::vm::cpu::alu;
use crate::vm::cpu::registers::{DoubleRegisterSelector, TargetDoubleRegisterSelector};
use crate::vm::machine::{Machine, MachineView};
use vstd::prelude::*;

verus! {

impl MachineView {
    /// LD (nn),rr: the pair goes, low octet first, to the address that
    /// follows the opcode.
    #[verifier::opaque]
    pub open spec fn load_wide_register_into_param_memory(
        self,
        source: DoubleRegisterSelector,
    ) -> MachineView {
        let next = self.after_fetch_word();
        next.write_u16(self.fetched_word(), next.get_register_pair(source)).clock(16)
    }

    /// LD rr,(nn): the pair takes the word at the address that follows the
    /// opcode.
    #[verifier::opaque]
    pub open spec fn load_param_memory_into_wide_register(
        self,
        target: TargetDoubleRegisterSelector,
    ) -> MachineView {
        let next = self.after_fetch_word();
        next.set_register_pair(target, next.read_u16(self.fetched_word())).clock(16)
    }

    /// LD (rr),n: the octet that follows the opcode goes to the address in
    /// the pair, as it was before the octet was consumed.
    #[verifier::opaque]
    pub open spec fn load_param_into_memory(self, pointer: DoubleRegisterSelector) -> MachineView {
        self.after_fetch().write_u8(self.get_register_pair(pointer), self.fetched()).clock(10)
    }

    /// LD rr,nn: the pair takes the word that follows the opcode.
    #[verifier::opaque]
    pub open spec fn load_into_register_pair(
        self,
        target: TargetDoubleRegisterSelector,
    ) -> MachineView {
        self.after_fetch_word().set_register_pair(target, self.fetched_word()).clock(10)
    }
}

impl Machine {
    /// LD (nn),rr.
    pub fn load_wide_register_into_param_memory(&mut self, selector: DoubleRegisterSelector)
        ensures
            final(self)@ == old(self)@.load_wide_register_into_param_memory(selector),
    {
        reveal(MachineView::load_wide_register_into_param_memory);
        let address: u16 = self.next_word();
        let value: u16 = alu::get_word(self.cpu.state.get_bytes(selector));
        self.ram.write_u16(address, value);
        self.clock(16);
    }

    /// LD rr,(nn).
    pub fn load_param_memory_into_wide_register(&mut self, selector: TargetDoubleRegisterSelector)
        ensures
            final(self)@ == old(self)@.load_param_memory_into_wide_register(selector),
    {
        reveal(MachineView::load_param_memory_into_wide_register);
        let address: u16 = self.next_word();
        let value: u16 = self.ram.read_u16(address);
        self.cpu.state.assign_bytes(selector, alu::get_octets(value));
        self.clock(16);
    }

    /// LD (rr),n.
    pub fn load_param_into_memory(&mut self, selector: DoubleRegisterSelector)
        ensures
            final(self)@ == old(self)@.load_param_into_memory(selector),
    {
        reveal(MachineView::load_param_into_memory);
        let address: u16 = alu::get_word(self.cpu.state.get_bytes(selector));
        let value: u8 = self.next_byte();
        self.ram.write_u8(address, value);
        self.clock(10);
    }

    /// LD rr,nn.
    pub fn load_into_register_pair(&mut self, selector: TargetDoubleRegisterSelector)
        ensures
            final(self)@ == old(self)@.load_into_register_pair(selector),
    {
        reveal(MachineView::load_into_register_pair);
        let value: (u8, u8) = self.next_byte_pair();
        self.cpu.state.assign_bytes(selector, value);
        self.clock(10);
    }
}

impl MachineView {
    /// No 16-bit load touches a flag, as long as it does not load AF
    /// itself.
    pub proof fn lemma_wide_loads_keep_flags(
        self,
        source: DoubleRegisterSelector,
        target: TargetDoubleRegisterSelector,
    )
        requires
            target != DoubleRegisterSelector::AF,
        ensures
            self.load_wide_register_into_param_memory(source).flags() == self.flags(),
            self.load_param_memory_into_wide_register(target).flags() == self.flags(),
            self.load_param_into_memory(source).flags() == self.flags(),
            self.load_into_register_pair(target).flags() == self.flags(),
    {
        reveal(MachineView::load_wide_register_into_param_memory);
        reveal(MachineView::load_param_memory_into_wide_register);
        reveal(MachineView::load_param_into_memory);
        reveal(MachineView::load_into_register_pair);
    }
}

} // verus!
