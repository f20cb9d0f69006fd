//! AND, OR and XOR on the accumulator.

use crate::vm::cpu::alu;
use crate::vm::cpu::alu::{even_parity, popcount};
use crate::vm::cpu::flags::Flag;
use crate::vm::cpu::registers::RegisterSelector;
use crate::vm::machine::{Machine, MachineView};
use vstd::prelude::*;

verus! {

/// One of the three bitwise operations.
#[derive(Clone, Copy, Debug, PartialEq, Eq, Structural)]
pub enum BitwiseOperation {
    And,
    Or,
    Xor,
}

impl BitwiseOperation {
    /// The operation applied to two octets, bit by bit.
    pub open spec fn applied(self, a: u8, b: u8) -> u8 {
        match self {
            BitwiseOperation::And => a & b,
            BitwiseOperation::Or => a | b,
            BitwiseOperation::Xor => a ^ b,
        }
    }

    /// Applies the operation to two octets.
    pub fn apply(self, a: u8, b: u8) -> (result: u8)
        ensures
            result == self.applied(a, b),
    {
        match self {
            BitwiseOperation::And => a & b,
            BitwiseOperation::Or => a | b,
            BitwiseOperation::Xor => a ^ b,
        }
    }
}

impl MachineView {
    /// The accumulator takes the result; P/V is its parity, Z and S follow
    /// it, H takes the given value, N and C are cleared.
    #[verifier::opaque]
    pub open spec fn bitwise_operation(
        self,
        operand: u8,
        operation: BitwiseOperation,
        half_carry_value: bool,
    ) -> MachineView {
        let result = operation.applied(self.get_register(RegisterSelector::A), operand);
        self.set_register(RegisterSelector::A, result).with_flag(
            Flag::ParityOverflow,
            even_parity(result),
        ).with_flag(Flag::Carry, false).with_flag(Flag::HalfCarry, half_carry_value).with_flag(
            Flag::AddSubtract,
            false,
        ).with_flag(Flag::Zero, result == 0x00).with_flag(Flag::Sign, result > 0x7F)
    }

    /// The operation with a register as operand.
    #[verifier::opaque]
    pub open spec fn bitwise_with_register(
        self,
        selector: RegisterSelector,
        operation: BitwiseOperation,
        half_carry_value: bool,
    ) -> MachineView {
        self.bitwise_operation(self.get_register(selector), operation, half_carry_value).clock(4)
    }

    /// The operation with the octet that follows the opcode as operand.
    #[verifier::opaque]
    pub open spec fn bitwise_with_value(
        self,
        operation: BitwiseOperation,
        half_carry_value: bool,
    ) -> MachineView {
        self.after_fetch().bitwise_operation(self.fetched(), operation, half_carry_value).clock(7)
    }

    /// AND r: H is set.
    #[verifier::opaque]
    pub open spec fn and_register(self, selector: RegisterSelector) -> MachineView {
        self.bitwise_with_register(selector, BitwiseOperation::And, true)
    }

    /// OR r: H is cleared.
    #[verifier::opaque]
    pub open spec fn or_register(self, selector: RegisterSelector) -> MachineView {
        self.bitwise_with_register(selector, BitwiseOperation::Or, false)
    }

    /// XOR r: H is cleared.
    #[verifier::opaque]
    pub open spec fn xor_register(self, selector: RegisterSelector) -> MachineView {
        self.bitwise_with_register(selector, BitwiseOperation::Xor, false)
    }

    /// AND n.
    #[verifier::opaque]
    pub open spec fn and_value(self) -> MachineView {
        self.bitwise_with_value(BitwiseOperation::And, true)
    }

    /// OR n.
    #[verifier::opaque]
    pub open spec fn or_value(self) -> MachineView {
        self.bitwise_with_value(BitwiseOperation::Or, false)
    }

    /// XOR n.
    #[verifier::opaque]
    pub open spec fn xor_value(self) -> MachineView {
        self.bitwise_with_value(BitwiseOperation::Xor, false)
    }
}

impl Machine {
    /// AND r.
    pub fn and_register(&mut self, selector: RegisterSelector)
        ensures
            final(self)@ == old(self)@.and_register(selector),
    {
        reveal(MachineView::and_register);
        self.bitwise_with_register(selector, BitwiseOperation::And, true);
    }

    /// OR r.
    pub fn or_register(&mut self, selector: RegisterSelector)
        ensures
            final(self)@ == old(self)@.or_register(selector),
    {
        reveal(MachineView::or_register);
        self.bitwise_with_register(selector, BitwiseOperation::Or, false);
    }

    /// XOR r.
    pub fn xor_register(&mut self, selector: RegisterSelector)
        ensures
            final(self)@ == old(self)@.xor_register(selector),
    {
        reveal(MachineView::xor_register);
        self.bitwise_with_register(selector, BitwiseOperation::Xor, false);
    }

    /// AND n.
    pub fn and_value(&mut self)
        ensures
            final(self)@ == old(self)@.and_value(),
    {
        reveal(MachineView::and_value);
        self.bitwise_with_value(BitwiseOperation::And, true);
    }

    /// OR n.
    pub fn or_value(&mut self)
        ensures
            final(self)@ == old(self)@.or_value(),
    {
        reveal(MachineView::or_value);
        self.bitwise_with_value(BitwiseOperation::Or, false);
    }

    /// XOR n.
    pub fn xor_value(&mut self)
        ensures
            final(self)@ == old(self)@.xor_value(),
    {
        reveal(MachineView::xor_value);
        self.bitwise_with_value(BitwiseOperation::Xor, false);
    }

    /// A bitwise operation with a register as operand.
    pub fn bitwise_with_register(
        &mut self,
        selector: RegisterSelector,
        operation: BitwiseOperation,
        half_carry_value: bool,
    )
        ensures
            final(self)@ == old(self)@.bitwise_with_register(selector, operation, half_carry_value),
    {
        reveal(MachineView::bitwise_with_register);
        let operand: u8 = self.cpu.state.get(selector);
        self.bitwise_operation(operand, operation, half_carry_value);
        self.clock(4);
    }

    /// A bitwise operation with the octet that follows the opcode.
    pub fn bitwise_with_value(&mut self, operation: BitwiseOperation, half_carry_value: bool)
        ensures
            final(self)@ == old(self)@.bitwise_with_value(operation, half_carry_value),
    {
        reveal(MachineView::bitwise_with_value);
        let operand: u8 = self.next_byte();
        self.bitwise_operation(operand, operation, half_carry_value);
        self.clock(7);
    }

    /// Puts the result of a bitwise operation into the accumulator and
    /// writes the six flags.
    pub fn bitwise_operation(
        &mut self,
        operand: u8,
        operation: BitwiseOperation,
        half_carry_value: bool,
    )
        ensures
            final(self)@ == old(self)@.bitwise_operation(operand, operation, half_carry_value),
    {
        reveal(MachineView::bitwise_operation);
        let op1: u8 = self.cpu.state.registers.af.0;
        let op2: u8 = operand;
        let result: u8 = operation.apply(op1, op2);
        let parity: bool = alu::parity(result);
        self.cpu.state.registers.af.0 = result;
        Flag::ParityOverflow.set(&mut self.cpu.state, parity);
        Flag::Carry.set(&mut self.cpu.state, false);
        Flag::HalfCarry.set(&mut self.cpu.state, half_carry_value);
        Flag::AddSubtract.set(&mut self.cpu.state, false);
        Flag::Zero.set(&mut self.cpu.state, result == 0x00);
        Flag::Sign.set(&mut self.cpu.state, result > 0x7F);
    }
}

impl MachineView {
    /// After AND, OR or XOR the accumulator holds the result; S and Z follow
    /// it, P/V is its parity, H is what the operation says, N and C are
    /// cleared. The unused flags stay, and so does everything else.
    pub proof fn lemma_bitwise_operation(
        self,
        operand: u8,
        operation: BitwiseOperation,
        half_carry_value: bool,
    )
        ensures
            ({
                let after = self.bitwise_operation(operand, operation, half_carry_value);
                let result = operation.applied(self.get_register(RegisterSelector::A), operand);
                &&& after.get_register(RegisterSelector::A) == result
                &&& after.flag(Flag::Sign) <==> result > 0x7F
                &&& after.flag(Flag::Zero) <==> result == 0x00
                &&& after.flag(Flag::ParityOverflow) <==> popcount(result) % 2 == 0
                &&& after.flag(Flag::HalfCarry) == half_carry_value
                &&& !after.flag(Flag::AddSubtract)
                &&& !after.flag(Flag::Carry)
                &&& after.flag(Flag::Unused1) == self.flag(Flag::Unused1)
                &&& after.flag(Flag::Unused2) == self.flag(Flag::Unused2)
                &&& after.ram == self.ram
                &&& after.run == self.run
                &&& after.ticks == self.ticks
                &&& after.cpu.halted == self.cpu.halted
                &&& after.cpu.state.pc == self.cpu.state.pc
                &&& after.cpu.state.sp == self.cpu.state.sp
                &&& after.cpu.state.registers.bc == self.cpu.state.registers.bc
                &&& after.cpu.state.registers.de == self.cpu.state.registers.de
                &&& after.cpu.state.registers.hl == self.cpu.state.registers.hl
                &&& after.cpu.state.alt_registers == self.cpu.state.alt_registers
            }),
    {
        reveal(MachineView::bitwise_operation);
        let result = operation.applied(self.get_register(RegisterSelector::A), operand);
        let f0 = self.flags();
        let f1 = Flag::ParityOverflow.put(f0, even_parity(result));
        let f2 = Flag::Carry.put(f1, false);
        let f3 = Flag::HalfCarry.put(f2, half_carry_value);
        let f4 = Flag::AddSubtract.put(f3, false);
        let f5 = Flag::Zero.put(f4, result == 0x00);
        Flag::lemma_put(f0, Flag::ParityOverflow, even_parity(result));
        Flag::lemma_put(f1, Flag::Carry, false);
        Flag::lemma_put(f2, Flag::HalfCarry, half_carry_value);
        Flag::lemma_put(f3, Flag::AddSubtract, false);
        Flag::lemma_put(f4, Flag::Zero, result == 0x00);
        Flag::lemma_put(f5, Flag::Sign, result > 0x7F);
    }
}

} // verus!
