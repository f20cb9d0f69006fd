//! CALL and RET.

use crate::vm::cpu::alu;
use crate::vm::instructions::conditions::Condition;
use crate::vm::instructions::opcodes::Opcode;
use crate::vm::machine::{Machine, MachineView};
use crate::vm::ram::{lemma_write_then_read_word, next_address, with_word_at};
use vstd::prelude::*;

verus! {

impl MachineView {
    /// CALL cc,nn: the operand is consumed; if the condition holds, the
    /// address of the next instruction is pushed and execution goes on at nn.
    #[verifier::opaque]
    pub open spec fn call(self, condition: Condition) -> MachineView {
        let destination = self.fetched_word();
        let next = self.after_fetch_word();
        if condition.holds_for(next.flags()) {
            next.push_program_counter_to_stack().goto(destination).clock(17)
        } else {
            next.clock(10)
        }
    }

    /// RET: the program counter is popped.
    #[verifier::opaque]
    pub open spec fn ret(self) -> MachineView {
        self.pop_stack_to_program_counter().clock(10)
    }

    /// RET cc: the program counter is popped if the condition holds. A
    /// return taken costs 11 ticks, one not taken 5.
    #[verifier::opaque]
    pub open spec fn ret_conditional(self, condition: Condition) -> MachineView {
        if condition.holds_for(self.flags()) {
            self.pop_stack_to_program_counter().clock(11)
        } else {
            self.clock(5)
        }
    }
}

impl Machine {
    /// CALL cc,nn.
    pub fn call(&mut self, condition: Condition)
        ensures
            final(self)@ == old(self)@.call(condition),
    {
        reveal(MachineView::call);
        let dest: u16 = self.next_word();
        if condition.holds(&self.cpu.state) {
            self.push_program_counter_to_stack();
            self.cpu.state.pc = alu::get_octets(dest);
            self.clock(17);
        } else {
            self.clock(10);
        }
    }

    /// RET.
    pub fn ret(&mut self)
        ensures
            final(self)@ == old(self)@.ret(),
    {
        reveal(MachineView::ret);
        self.pop_stack_to_program_counter();
        self.clock(10);
    }

    /// RET cc.
    pub fn ret_conditional(&mut self, condition: Condition)
        ensures
            final(self)@ == old(self)@.ret_conditional(condition),
    {
        reveal(MachineView::ret_conditional);
        if condition.holds(&self.cpu.state) {
            self.pop_stack_to_program_counter();
            self.clock(11);
        } else {
            self.clock(5);
        }
    }
}

impl MachineView {
    /// A step on CALL nn, then a step on the RET that stands at nn: the
    /// program counter is behind the three bytes of the CALL, and the stack
    /// pointer is where it was. The two stack cells below the stack pointer
    /// must not be the one that holds the RET.
    pub proof fn lemma_call_then_return(self)
        requires
            self.wf(),
            self.pc() <= 0xFFFC,
            self.next_opcode() == Opcode::CallXX,
            self.read_u8(self.read_u16((self.pc() + 1) as u16)) == Opcode::Ret.code_of(),
            self.read_u16((self.pc() + 1) as u16) != self.sp().wrapping_sub(1),
            self.read_u16((self.pc() + 1) as u16) != self.sp().wrapping_sub(2),
        ensures
            ({
                let called = self.execute();
                let returned = called.execute();
                &&& called.pc() == self.read_u16((self.pc() + 1) as u16)
                &&& called.sp() == self.sp().wrapping_sub(2)
                &&& called.read_u16(called.sp()) == self.pc() + 3
                &&& returned.pc() == self.pc() + 3
                &&& returned.sp() == self.sp()
                &&& returned.cpu.state.registers == self.cpu.state.registers
                &&& returned.cpu.state.alt_registers == self.cpu.state.alt_registers
                &&& called.pc() != 0xFFFF ==> returned.run == self.run
            }),
    {
        reveal(MachineView::call);
        reveal(MachineView::ret);
        reveal(MachineView::push_program_counter_to_stack);
        reveal(MachineView::pop_stack_to_program_counter);
        let pc = self.pc();
        let sp = self.sp();
        let destination = self.read_u16((pc + 1) as u16);
        let top = sp.wrapping_sub(2);
        alu::lemma_octets_round_trip(0, 0, (pc + 1) as u16);
        alu::lemma_octets_round_trip(0, 0, (pc + 2) as u16);
        alu::lemma_octets_round_trip(0, 0, (pc + 3) as u16);
        alu::lemma_octets_round_trip(0, 0, destination);
        alu::lemma_octets_round_trip(0, 0, top);
        alu::lemma_octets_round_trip(0, 0, sp);
        alu::lemma_octets_round_trip(self.cpu.state.sp.0, self.cpu.state.sp.1, 0);
        let fetched = self.after_fetch();
        assert(fetched.pc() == pc + 1);
        assert(fetched.after_fetch().pc() == pc + 2);
        let next = fetched.after_fetch_word();
        assert(next.pc() == pc + 3);
        assert(next.sp() == sp);
        assert(next.ram == self.ram);
        assert(fetched.fetched_word() == destination);
        let called = self.execute();
        assert(called == fetched.call(Condition::Always)) by {
            reveal(MachineView::dispatch_last_quarter);
        }
        let pushed = next.push_program_counter_to_stack();
        assert(pushed.sp() == top);
        assert(pushed.ram == with_word_at(self.ram, top, (pc + 3) as u16));
        lemma_write_then_read_word(self.ram, top, (pc + 3) as u16, destination);
        assert(called == pushed.goto(destination).clock(17));
        assert(called.pc() == destination);
        assert(called.sp() == top);
        assert(next_address(top) == sp.wrapping_sub(1));
        assert(called.fetched() == Opcode::Ret.code_of());
        if destination == 0xFFFF {
            alu::lemma_octets_round_trip(0, 0, 0);
        } else {
            alu::lemma_octets_round_trip(0, 0, (destination + 1) as u16);
        }
        let entered = called.after_fetch();
        assert(called.next_opcode() == Opcode::Ret);
        assert(called.execute() == entered.ret()) by {
            reveal(MachineView::dispatch_last_quarter);
        }
        assert(entered.sp() == top);
        assert(entered.ram == called.ram);
        assert(entered.stack_top() == pc + 3);
        let returned = called.execute();
        assert(returned == entered.pop_stack_to_program_counter().clock(10));
        assert(returned.pc() == pc + 3);
        assert(top.wrapping_add(2) == sp);
        assert(returned.sp() == sp);
    }
}

} // verus!
