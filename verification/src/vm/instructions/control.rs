//! NOP, HALT and the instructions on single flags.

use crate::vm::cpu::alu;
use crate::vm::cpu::alu::complemented;
use crate::vm::cpu::flags::Flag;
use crate::vm::cpu::processor::Processor;
use crate::vm::cpu::registers::{RegisterSelector, TargetRegisterSelector};
use crate::vm::machine::{Machine, MachineView};
use vstd::prelude::*;

verus! {

impl MachineView {
    /// NOP: four clock ticks pass.
    #[verifier::opaque]
    pub open spec fn nop(self) -> MachineView {
        self.clock(4)
    }

    /// HALT: the processor is halted.
    #[verifier::opaque]
    pub open spec fn halt(self) -> MachineView {
        MachineView { cpu: Processor { halted: true, ..self.cpu }, ..self }.clock(4)
    }

    /// SCF: C is set, H and N are cleared.
    #[verifier::opaque]
    pub open spec fn set_carry_flag(self) -> MachineView {
        self.with_flag(Flag::Carry, true).with_flag(Flag::HalfCarry, false).with_flag(
            Flag::AddSubtract,
            false,
        ).clock(4)
    }

    /// CCF: C is inverted, H takes the old C, N is cleared.
    #[verifier::opaque]
    pub open spec fn complement_carry_flag(self) -> MachineView {
        let previous = self.flag(Flag::Carry);
        self.with_flag(Flag::Carry, !previous).with_flag(Flag::HalfCarry, previous).with_flag(
            Flag::AddSubtract,
            false,
        ).clock(4)
    }

    /// CPL: every bit of the register is inverted, H and N are set.
    #[verifier::opaque]
    pub open spec fn complement_registers(self, target: TargetRegisterSelector) -> MachineView {
        self.set_register(target, complemented(self.get_register(target))).with_flag(
            Flag::AddSubtract,
            true,
        ).with_flag(Flag::HalfCarry, true).clock(4)
    }
}

impl Machine {
    /// NOP.
    pub fn nop(&mut self)
        ensures
            final(self)@ == old(self)@.nop(),
    {
        reveal(MachineView::nop);
        self.clock(4);
    }

    /// HALT.
    pub fn halt(&mut self)
        ensures
            final(self)@ == old(self)@.halt(),
            final(self)@.cpu.halted,
    {
        reveal(MachineView::halt);
        self.cpu.halt();
        self.clock(4);
    }

    /// SCF.
    pub fn set_carry_flag(&mut self)
        ensures
            final(self)@ == old(self)@.set_carry_flag(),
    {
        reveal(MachineView::set_carry_flag);
        Flag::Carry.set(&mut self.cpu.state, true);
        Flag::HalfCarry.set(&mut self.cpu.state, false);
        Flag::AddSubtract.set(&mut self.cpu.state, false);
        self.clock(4);
    }

    /// CCF.
    pub fn complement_carry_flag(&mut self)
        ensures
            final(self)@ == old(self)@.complement_carry_flag(),
    {
        reveal(MachineView::complement_carry_flag);
        let previous: bool = Flag::Carry.get(&self.cpu.state);
        Flag::Carry.set(&mut self.cpu.state, !previous);
        Flag::HalfCarry.set(&mut self.cpu.state, previous);
        Flag::AddSubtract.set(&mut self.cpu.state, false);
        self.clock(4);
    }

    /// CPL on the register that `selector` names.
    pub fn complement_registers(&mut self, selector: TargetRegisterSelector)
        ensures
            final(self)@ == old(self)@.complement_registers(selector),
    {
        reveal(MachineView::complement_registers);
        let value: u8 = self.cpu.state.get(selector);
        self.cpu.state.assign(selector, alu::complement(value));
        Flag::AddSubtract.set(&mut self.cpu.state, true);
        Flag::HalfCarry.set(&mut self.cpu.state, true);
        self.clock(4);
    }
}

impl MachineView {
    /// SCF sets C; CCF inverts C and puts the old C into H; both clear N,
    /// and SCF clears H. CPL inverts the accumulator and sets H and N.
    /// Every flag that is not named stays.
    pub proof fn lemma_carry_and_complement(self)
        ensures
            ({
                let set = self.set_carry_flag();
                let inverted = self.complement_carry_flag();
                let complemented = self.complement_registers(RegisterSelector::A);
                &&& set.flag(Flag::Carry) && !set.flag(Flag::HalfCarry) && !set.flag(
                    Flag::AddSubtract,
                )
                &&& inverted.flag(Flag::Carry) == !self.flag(Flag::Carry)
                &&& inverted.flag(Flag::HalfCarry) == self.flag(Flag::Carry)
                &&& !inverted.flag(Flag::AddSubtract)
                &&& complemented.get_register(RegisterSelector::A) == 0xFF - self.get_register(
                    RegisterSelector::A,
                )
                &&& complemented.flag(Flag::HalfCarry) && complemented.flag(Flag::AddSubtract)
                &&& complemented.flag(Flag::Carry) == self.flag(Flag::Carry)
                &&& forall|flag: Flag|
                    flag != Flag::Carry && flag != Flag::HalfCarry && flag != Flag::AddSubtract ==> {
                        &&& #[trigger] set.flag(flag) == self.flag(flag)
                        &&& #[trigger] inverted.flag(flag) == self.flag(flag)
                        &&& #[trigger] complemented.flag(flag) == self.flag(flag)
                    }
                &&& set.set_register(RegisterSelector::F, 0) == self.set_register(
                    RegisterSelector::F,
                    0,
                ).clock(4)
                &&& inverted.set_register(RegisterSelector::F, 0) == self.set_register(
                    RegisterSelector::F,
                    0,
                ).clock(4)
            }),
    {
        reveal(MachineView::set_carry_flag);
        reveal(MachineView::complement_carry_flag);
        reveal(MachineView::complement_registers);
        let f0 = self.flags();
        let previous = self.flag(Flag::Carry);
        let s1 = Flag::Carry.put(f0, true);
        let s2 = Flag::HalfCarry.put(s1, false);
        Flag::lemma_put(f0, Flag::Carry, true);
        Flag::lemma_put(s1, Flag::HalfCarry, false);
        Flag::lemma_put(s2, Flag::AddSubtract, false);
        let i1 = Flag::Carry.put(f0, !previous);
        let i2 = Flag::HalfCarry.put(i1, previous);
        Flag::lemma_put(f0, Flag::Carry, !previous);
        Flag::lemma_put(i1, Flag::HalfCarry, previous);
        Flag::lemma_put(i2, Flag::AddSubtract, false);
        let c1 = Flag::AddSubtract.put(f0, true);
        Flag::lemma_put(f0, Flag::AddSubtract, true);
        Flag::lemma_put(c1, Flag::HalfCarry, true);
    }
}

} // verus!
