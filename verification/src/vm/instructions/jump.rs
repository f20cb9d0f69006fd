//! JP, JR and DJNZ.

use crate::vm::cpu::alu;
use crate::vm::cpu::alu::{sign_extended, signed_octet, sum_words};
use crate::vm::cpu::registers::{DoubleRegisterSelector, RegisterSelector};
use crate::vm::instructions::opcodes::Opcode;
use crate::vm::instructions::conditions::Condition;
use crate::vm::machine::{Machine, MachineView};
use vstd::prelude::*;

verus! {

impl MachineView {
    /// Where a relative jump leads: the program counter plus the
    /// displacement, read as a two's-complement number, modulo 2^16.
    pub open spec fn relative_target(self, displacement: u8) -> u16 {
        sum_words(self.pc(), sign_extended(displacement)).value
    }

    /// JP cc,nn: both operand octets are consumed, then the program counter
    /// becomes nn if the condition holds.
    #[verifier::opaque]
    pub open spec fn jump(self, condition: Condition) -> MachineView {
        let destination = self.fetched_word();
        let next = self.after_fetch_word();
        if condition.holds_for(next.flags()) {
            next.goto(destination).clock(10)
        } else {
            next.clock(10)
        }
    }

    /// JR cc,e: the displacement is consumed, then added to the program
    /// counter if the condition holds.
    #[verifier::opaque]
    pub open spec fn jump_relative(self, condition: Condition) -> MachineView {
        let displacement = self.fetched();
        let next = self.after_fetch();
        if condition.holds_for(next.flags()) {
            next.goto(next.relative_target(displacement)).clock(12)
        } else {
            next.clock(7)
        }
    }

    /// DJNZ e: the displacement is consumed, B goes down by one, around
    /// zero, and the jump is taken unless B has reached zero.
    #[verifier::opaque]
    pub open spec fn decrement_and_jump_on_non_zero(self) -> MachineView {
        let displacement = self.fetched();
        let next = self.after_fetch();
        let count = next.get_register(RegisterSelector::B).wrapping_sub(1);
        let counted = next.set_register(RegisterSelector::B, count);
        if count != 0 {
            counted.goto(counted.relative_target(displacement)).clock(13)
        } else {
            counted.clock(8)
        }
    }
}

impl Machine {
    /// JP cc,nn.
    pub fn jump(&mut self, condition: Condition)
        ensures
            final(self)@ == old(self)@.jump(condition),
    {
        reveal(MachineView::jump);
        let destination: u16 = self.next_word();
        if condition.holds(&self.cpu.state) {
            self.cpu.goto(destination);
        }
        self.clock(10);
    }

    /// JR cc,e.
    pub fn jump_relative(&mut self, condition: Condition)
        ensures
            final(self)@ == old(self)@.jump_relative(condition),
    {
        reveal(MachineView::jump_relative);
        let offset: u8 = self.next_byte();
        if condition.holds(&self.cpu.state) {
            let pc: u16 = alu::get_word(self.cpu.state.pc);
            let destination: u16 = alu::add_words(pc, alu::sign_extend(offset)).value;
            self.cpu.goto(destination);
            self.clock(12);
        } else {
            self.clock(7);
        }
    }

    /// DJNZ e.
    pub fn decrement_and_jump_on_non_zero(&mut self)
        ensures
            final(self)@ == old(self)@.decrement_and_jump_on_non_zero(),
    {
        reveal(MachineView::decrement_and_jump_on_non_zero);
        let e: u16 = alu::sign_extend(self.next_byte());
        let b: u8 = self.get_register(RegisterSelector::B);
        let r: u8 = b.wrapping_sub(1);
        self.set_register(RegisterSelector::B, r);
        if r != 0 {
            let pc: u16 = alu::get_word(self.cpu.state.pc);
            let target: u16 = alu::add_words(pc, e).value;
            self.cpu.goto(target);
            self.clock(13);
        } else {
            self.clock(8);
        }
    }
}

/// The opcode of JP cc,nn for a condition.
pub open spec fn jump_opcode(condition: Condition) -> Opcode {
    match condition {
        Condition::Always => Opcode::JpXX,
        Condition::NonZero => Opcode::JpNZXX,
        Condition::Zero => Opcode::JpZXX,
        Condition::NoCarry => Opcode::JpNCXX,
        Condition::Carry => Opcode::JpCXX,
        Condition::ParityOdd => Opcode::JpPOXX,
        Condition::ParityEven => Opcode::JpPEXX,
        Condition::Positive => Opcode::JpPXX,
        Condition::Negative => Opcode::JpMXX,
    }
}

impl MachineView {
    /// The dispatcher sends the opcode of JP cc,nn to the handler of jumps.
    pub proof fn lemma_dispatch_jump(self, condition: Condition)
        ensures
            self.dispatch(jump_opcode(condition)) == self.jump(condition),
    {
        reveal(MachineView::dispatch_last_quarter);
    }

    /// A step on JP cc,nn: the program counter becomes nn if the condition
    /// holds, and is behind the three bytes of the instruction if not.
    /// Nothing else changes but the clock, which advances by 10.
    pub proof fn lemma_jump(self, condition: Condition)
        requires
            self.wf(),
            self.pc() <= 0xFFFC,
            self.next_opcode() == jump_opcode(condition),
        ensures
            ({
                let after = self.execute();
                let destination = self.read_u16((self.pc() + 1) as u16);
                &&& after.pc() == if condition.holds_for(self.flags()) {
                    destination as int
                } else {
                    self.pc() + 3
                }
                &&& after.flags() == self.flags()
                &&& self.same_but_pair(after, DoubleRegisterSelector::PC)
                &&& after.ticks == self.clock(10).ticks
            }),
    {
        let pc = self.pc();
        let fetched = self.after_fetch();
        fetched.lemma_dispatch_jump(condition);
        assert(self.execute() == fetched.jump(condition));
        reveal(MachineView::jump);
        alu::lemma_octets_round_trip(0, 0, (pc + 1) as u16);
        alu::lemma_octets_round_trip(0, 0, (pc + 2) as u16);
        alu::lemma_octets_round_trip(0, 0, (pc + 3) as u16);
        alu::lemma_octets_round_trip(0, 0, self.read_u16((pc + 1) as u16));
        assert(fetched.pc() == pc + 1);
        assert(fetched.after_fetch().pc() == pc + 2);
        assert(fetched.after_fetch_word().pc() == pc + 3);
        assert(fetched.fetched_word() == self.read_u16((pc + 1) as u16));
    }
}

impl MachineView {
    /// A relative jump leads to the program counter plus the displacement,
    /// which counts from -128 to 127, modulo 65 536.
    pub proof fn lemma_relative_target(self, displacement: u8)
        ensures
            self.relative_target(displacement) == (self.pc() + signed_octet(displacement)) % 65536,
            displacement < 0x80 && self.pc() + displacement <= 0xFFFF ==> self.relative_target(
                displacement,
            ) == self.pc() + displacement,
            displacement >= 0x80 && self.pc() + displacement >= 0x100 ==> self.relative_target(
                displacement,
            ) == self.pc() + displacement - 0x100,
    {
    }

    /// A step on JR e: the program counter is behind the two bytes of the
    /// instruction, moved by the displacement. Nothing else changes but the
    /// clock, which advances by 12.
    pub proof fn lemma_jump_relative(self)
        requires
            self.wf(),
            self.pc() <= 0xFFFD,
            self.next_opcode() == Opcode::JrX,
        ensures
            ({
                let after = self.execute();
                let displacement = self.read_u8((self.pc() + 1) as u16);
                &&& after.pc() == (self.pc() + 2 + signed_octet(displacement)) % 65536
                &&& after.flags() == self.flags()
                &&& self.same_but_pair(after, DoubleRegisterSelector::PC)
                &&& after.ticks == self.clock(12).ticks
            }),
    {
        let pc = self.pc();
        let fetched = self.after_fetch();
        assert(self.execute() == fetched.jump_relative(Condition::Always)) by {
            reveal(MachineView::dispatch_first_quarter);
        }
        reveal(MachineView::jump_relative);
        alu::lemma_octets_round_trip(0, 0, (pc + 1) as u16);
        alu::lemma_octets_round_trip(0, 0, (pc + 2) as u16);
        assert(fetched.pc() == pc + 1);
        let next = fetched.after_fetch();
        assert(next.pc() == pc + 2);
        let displacement = self.read_u8((pc + 1) as u16);
        next.lemma_relative_target(displacement);
        alu::lemma_octets_round_trip(0, 0, next.relative_target(displacement));
    }
}

} // verus!
