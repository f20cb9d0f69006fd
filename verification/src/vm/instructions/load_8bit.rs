//! The 8-bit loads. None of them touches a flag.

use crate::vm::cpu::alu;
use crate::vm::cpu::registers::{
    AddressSelector, DoubleRegisterSelector, RegisterSelector, TargetRegisterSelector,
};
use crate::vm::machine::{Machine, MachineView};
use vstd::prelude::*;

verus! {

impl MachineView {
    /// LD r,r': a copy from register to register.
    #[verifier::opaque]
    pub open spec fn load_register_into_register(
        self,
        source: RegisterSelector,
        destination: TargetRegisterSelector,
    ) -> MachineView {
        self.set_register(destination, self.get_register(source)).clock(4)
    }

    /// LD r,(rr): the register takes the octet at the address in a pair.
    #[verifier::opaque]
    pub open spec fn load_memory_into_register(
        self,
        pointer: AddressSelector,
        target: TargetRegisterSelector,
    ) -> MachineView {
        self.set_register(target, self.read_u8(self.get_register_pair(pointer.pair()))).clock(7)
    }

    /// LD (rr),r: the octet of a register goes to the address in a pair.
    #[verifier::opaque]
    pub open spec fn load_register_into_memory(
        self,
        source: RegisterSelector,
        pointer: DoubleRegisterSelector,
    ) -> MachineView {
        self.write_u8(self.get_register_pair(pointer), self.get_register(source)).clock(7)
    }

    /// LD (nn),r: the octet of a register goes to the address that follows
    /// the opcode.
    #[verifier::opaque]
    pub open spec fn load_register_into_param_memory(
        self,
        source: RegisterSelector,
    ) -> MachineView {
        let next = self.after_fetch_word();
        next.write_u8(self.fetched_word(), next.get_register(source)).clock(13)
    }

    /// LD r,(nn): the register takes the octet at the address that follows
    /// the opcode.
    #[verifier::opaque]
    pub open spec fn load_param_memory_into_register(
        self,
        target: TargetRegisterSelector,
    ) -> MachineView {
        let next = self.after_fetch_word();
        next.set_register(target, next.read_u8(self.fetched_word())).clock(13)
    }

    /// LD r,n: the register takes the octet that follows the opcode.
    #[verifier::opaque]
    pub open spec fn load_into_register(self, target: TargetRegisterSelector) -> MachineView {
        self.after_fetch().set_register(target, self.fetched()).clock(7)
    }

    /// LD (rr),r with the address in BC, DE or HL.
    #[verifier::opaque]
    pub open spec fn load_into_memory(
        self,
        source: RegisterSelector,
        pointer: AddressSelector,
    ) -> MachineView {
        self.write_u8(self.get_register_pair(pointer.pair()), self.get_register(source)).clock(7)
    }
}

impl Machine {
    /// LD r,r'.
    pub fn load_register_into_register(
        &mut self,
        source_selector: RegisterSelector,
        dest_selector: TargetRegisterSelector,
    )
        ensures
            final(self)@ == old(self)@.load_register_into_register(source_selector, dest_selector),
    {
        reveal(MachineView::load_register_into_register);
        let source: u8 = self.cpu.state.get(source_selector);
        self.cpu.state.assign(dest_selector, source);
        self.clock(4);
    }

    /// LD r,(rr).
    pub fn load_memory_into_register(
        &mut self,
        pointer: AddressSelector,
        selector: TargetRegisterSelector,
    )
        ensures
            final(self)@ == old(self)@.load_memory_into_register(pointer, selector),
    {
        reveal(MachineView::load_memory_into_register);
        let address: u16 = self.cpu.state.address(pointer);
        let value: u8 = self.ram.read_u8(address);
        self.cpu.state.assign(selector, value);
        self.clock(7);
    }

    /// LD (rr),r.
    pub fn load_register_into_memory(
        &mut self,
        selector: RegisterSelector,
        pointer: DoubleRegisterSelector,
    )
        ensures
            final(self)@ == old(self)@.load_register_into_memory(selector, pointer),
    {
        reveal(MachineView::load_register_into_memory);
        let address: u16 = alu::get_word(self.cpu.state.get_bytes(pointer));
        let value: u8 = self.cpu.state.get(selector);
        self.ram.write_u8(address, value);
        self.clock(7);
    }

    /// LD (nn),r.
    pub fn load_register_into_param_memory(&mut self, selector: RegisterSelector)
        ensures
            final(self)@ == old(self)@.load_register_into_param_memory(selector),
    {
        reveal(MachineView::load_register_into_param_memory);
        let address: u16 = self.next_word();
        let value: u8 = self.cpu.state.get(selector);
        self.ram.write_u8(address, value);
        self.clock(13);
    }

    /// LD r,(nn).
    pub fn load_param_memory_into_register(&mut self, selector: TargetRegisterSelector)
        ensures
            final(self)@ == old(self)@.load_param_memory_into_register(selector),
    {
        reveal(MachineView::load_param_memory_into_register);
        let address: u16 = self.next_word();
        let value: u8 = self.ram.read_u8(address);
        self.cpu.state.assign(selector, value);
        self.clock(13);
    }

    /// LD r,n.
    pub fn load_into_register(&mut self, selector: TargetRegisterSelector)
        ensures
            final(self)@ == old(self)@.load_into_register(selector),
    {
        reveal(MachineView::load_into_register);
        let value: u8 = self.next_byte();
        self.cpu.state.assign(selector, value);
        self.clock(7);
    }

    /// LD (rr),r with the address in BC, DE or HL.
    pub fn load_into_memory(&mut self, source: RegisterSelector, pointer: AddressSelector)
        ensures
            final(self)@ == old(self)@.load_into_memory(source, pointer),
    {
        reveal(MachineView::load_into_memory);
        let value: u8 = self.cpu.state.get(source);
        let address: u16 = self.cpu.state.address(pointer);
        self.ram.write_u8(address, value);
        self.clock(7);
    }
}

impl MachineView {
    /// No 8-bit load touches a flag, as long as it does not load F itself.
    pub proof fn lemma_loads_keep_flags(
        self,
        source: RegisterSelector,
        target: TargetRegisterSelector,
        pointer: AddressSelector,
        pair: DoubleRegisterSelector,
    )
        requires
            target != RegisterSelector::F,
        ensures
            self.load_register_into_register(source, target).flags() == self.flags(),
            self.load_memory_into_register(pointer, target).flags() == self.flags(),
            self.load_register_into_memory(source, pair).flags() == self.flags(),
            self.load_register_into_param_memory(source).flags() == self.flags(),
            self.load_param_memory_into_register(target).flags() == self.flags(),
            self.load_into_register(target).flags() == self.flags(),
            self.load_into_memory(source, pointer).flags() == self.flags(),
    {
        reveal(MachineView::load_register_into_register);
        reveal(MachineView::load_memory_into_register);
        reveal(MachineView::load_register_into_memory);
        reveal(MachineView::load_register_into_param_memory);
        reveal(MachineView::load_param_memory_into_register);
        reveal(MachineView::load_into_register);
        reveal(MachineView::load_into_memory);
    }
}

} // verus!
