//! PUSH and POP, and the stack moves of CALL and RET.

use crate::vm::cpu::alu;
use crate::vm::cpu::registers::{DoubleRegisterSelector, TargetDoubleRegisterSelector};
use crate::vm::machine::{Machine, MachineView};
use crate::vm::ram::lemma_write_then_read_word;
use vstd::prelude::*;

verus! {

impl MachineView {
    /// The machine with a word pushed: the stack pointer goes down by two,
    /// around zero, and the word is stored where it then points.
    pub open spec fn push_word(self, value: u16) -> MachineView {
        let top = self.sp().wrapping_sub(2);
        self.set_register_pair(DoubleRegisterSelector::SP, top).write_u16(top, value)
    }

    /// The word on top of the stack.
    pub open spec fn stack_top(self) -> u16 {
        self.read_u16(self.sp())
    }

    /// The machine with the stack pointer moved up by two, around the last
    /// address.
    pub open spec fn drop_word(self) -> MachineView {
        self.set_register_pair(DoubleRegisterSelector::SP, self.sp().wrapping_add(2))
    }

    /// PUSH rr.
    #[verifier::opaque]
    pub open spec fn push_to_stack(self, selector: DoubleRegisterSelector) -> MachineView {
        self.push_word(self.get_register_pair(selector)).clock(11)
    }

    /// The program counter pushed.
    #[verifier::opaque]
    pub open spec fn push_program_counter_to_stack(self) -> MachineView {
        self.push_word(self.pc())
    }

    /// POP rr: the pair takes the word on top of the stack, then the stack
    /// pointer goes up by two.
    #[verifier::opaque]
    pub open spec fn pop_from_stack(self, target: TargetDoubleRegisterSelector) -> MachineView {
        let top = self.sp();
        self.set_register_pair(target, self.stack_top()).set_register_pair(
            DoubleRegisterSelector::SP,
            top.wrapping_add(2),
        ).clock(10)
    }

    /// The program counter popped.
    #[verifier::opaque]
    pub open spec fn pop_stack_to_program_counter(self) -> MachineView {
        self.goto(self.stack_top()).drop_word()
    }
}

impl Machine {
    /// PUSH rr.
    pub fn push_to_stack(&mut self, selector: DoubleRegisterSelector)
        ensures
            final(self)@ == old(self)@.push_to_stack(selector),
    {
        reveal(MachineView::push_to_stack);
        let value: u16 = alu::get_word(self.cpu.state.get_bytes(selector));
        let sp: u16 = alu::get_word(self.cpu.state.sp).wrapping_sub(2);
        self.cpu.state.sp = alu::get_octets(sp);
        self.ram.write_u16(sp, value);
        self.clock(11);
    }

    /// Pushes the program counter.
    pub fn push_program_counter_to_stack(&mut self)
        ensures
            final(self)@ == old(self)@.push_program_counter_to_stack(),
    {
        reveal(MachineView::push_program_counter_to_stack);
        let pc: u16 = alu::get_word(self.cpu.state.pc);
        let sp: u16 = alu::get_word(self.cpu.state.sp).wrapping_sub(2);
        self.cpu.state.sp = alu::get_octets(sp);
        self.ram.write_u16(sp, pc);
    }

    /// POP rr.
    pub fn pop_from_stack(&mut self, selector: TargetDoubleRegisterSelector)
        ensures
            final(self)@ == old(self)@.pop_from_stack(selector),
    {
        reveal(MachineView::pop_from_stack);
        let sp: u16 = alu::get_word(self.cpu.state.sp);
        let value: (u8, u8) = alu::get_octets(self.ram.read_u16(sp));
        self.cpu.state.assign_bytes(selector, value);
        self.cpu.state.sp = alu::get_octets(sp.wrapping_add(2));
        self.clock(10);
    }

    /// Pops the program counter.
    pub fn pop_stack_to_program_counter(&mut self)
        ensures
            final(self)@ == old(self)@.pop_stack_to_program_counter(),
    {
        reveal(MachineView::pop_stack_to_program_counter);
        let sp: u16 = alu::get_word(self.cpu.state.sp);
        let value: u16 = self.ram.read_u16(sp);
        self.cpu.state.pc = alu::get_octets(value);
        self.cpu.state.sp = alu::get_octets(sp.wrapping_add(2));
    }
}

impl MachineView {
    /// PUSH rr, then POP rr': the second pair holds what the first held,
    /// and the stack pointer is where it was.
    pub proof fn lemma_push_then_pop(
        self,
        source: DoubleRegisterSelector,
        target: TargetDoubleRegisterSelector,
    )
        requires
            self.wf(),
            target != DoubleRegisterSelector::SP,
        ensures
            ({
                let after = self.push_to_stack(source).pop_from_stack(target);
                &&& after.get_register_pair(target) == self.get_register_pair(source)
                &&& after.cpu.state.read16(target) == self.cpu.state.read16(source)
                &&& after.sp() == self.sp()
            }),
    {
        reveal(MachineView::push_to_stack);
        reveal(MachineView::pop_from_stack);
        let value = self.get_register_pair(source);
        let top = self.sp().wrapping_sub(2);
        lemma_write_then_read_word(self.ram, top, value, 0);
        alu::lemma_octets_round_trip(
            self.cpu.state.read16(source).0,
            self.cpu.state.read16(source).1,
            top,
        );
        alu::lemma_octets_round_trip(0, 0, self.sp());
        alu::lemma_octets_round_trip(self.cpu.state.sp.0, self.cpu.state.sp.1, 0);
    }
}

impl MachineView {
    /// PUSH rr: the stack pointer goes down by two, around zero; the low
    /// octet of the pair lies where it then points, the high octet above;
    /// every other octet of memory stays, and so do the pairs.
    pub proof fn lemma_push_to_stack(self, source: DoubleRegisterSelector, other: u16)
        requires
            self.wf(),
        ensures
            ({
                let after = self.push_to_stack(source);
                let top = self.sp().wrapping_sub(2);
                &&& after.sp() == top
                &&& after.read_u8(top) == self.cpu.state.read16(source).1
                &&& after.read_u8(self.sp().wrapping_sub(1)) == self.cpu.state.read16(source).0
                &&& after.read_u16(top) == self.get_register_pair(source)
                &&& other != top && other != self.sp().wrapping_sub(1) ==> after.read_u8(other)
                    == self.read_u8(other)
                &&& self.same_but_pair(after.with_ram(self.ram), DoubleRegisterSelector::SP)
                &&& after.ticks == self.clock(11).ticks
            }),
    {
        reveal(MachineView::push_to_stack);
        let value = self.get_register_pair(source);
        let top = self.sp().wrapping_sub(2);
        lemma_write_then_read_word(self.ram, top, value, other);
        alu::lemma_octets_round_trip(
            self.cpu.state.read16(source).0,
            self.cpu.state.read16(source).1,
            top,
        );
    }

    /// POP rr: the pair takes the word at the stack pointer, low octet
    /// first, and the stack pointer goes up by two, around the last
    /// address. Memory stays, and so does every other pair.
    pub proof fn lemma_pop_from_stack(self, target: TargetDoubleRegisterSelector)
        requires
            self.wf(),
            target != DoubleRegisterSelector::SP,
        ensures
            ({
                let after = self.pop_from_stack(target);
                &&& after.sp() == self.sp().wrapping_add(2)
                &&& after.cpu.state.read16(target) == (
                    self.read_u8(self.sp().wrapping_add(1)),
                    self.read_u8(self.sp()),
                )
                &&& after.get_register_pair(target) == self.read_u16(self.sp())
                &&& after.ram == self.ram
                &&& forall|other: DoubleRegisterSelector|
                    other != target && other != DoubleRegisterSelector::SP
                        ==> #[trigger] after.cpu.state.read16(other) == self.cpu.state.read16(other)
                &&& after.ticks == self.clock(10).ticks
            }),
    {
        reveal(MachineView::pop_from_stack);
        let top = self.sp();
        alu::lemma_octets_round_trip(0, 0, self.read_u16(top));
        alu::lemma_octets_round_trip(0, 0, top.wrapping_add(2));
        alu::lemma_octets_round_trip(self.read_u8(top.wrapping_add(1)), self.read_u8(top), 0);
    }
}

} // verus!
