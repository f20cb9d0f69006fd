//! The 8-bit additions and subtractions: ADD, ADC, SUB, SBC, INC, DEC.

use crate::vm::cpu::alu;
use crate::vm::cpu::alu::{negated_octet, sum_octets, AdderResult};
use crate::vm::cpu::flags::{lookup, updated, Flag};
use crate::vm::cpu::operation::Operation;
use crate::vm::cpu::registers::{
    DoubleRegisterSelector, RegisterSelector, TargetRegisterSelector,
};
use crate::vm::machine::{Machine, MachineView};
use vstd::prelude::*;

verus! {

/// The flags that ADD, ADC, SUB and SBC write: N, C, H, P/V, S and Z.
pub open spec fn arithmetic_flags() -> Seq<Flag> {
    seq![
        Flag::AddSubtract,
        Flag::Carry,
        Flag::HalfCarry,
        Flag::ParityOverflow,
        Flag::Sign,
        Flag::Zero,
    ]
}

/// The flags that INC and DEC write: the same without C.
pub open spec fn counting_flags() -> Seq<Flag> {
    seq![Flag::AddSubtract, Flag::ParityOverflow, Flag::HalfCarry, Flag::Zero, Flag::Sign]
}

/// The value that an 8-bit result gives to each flag: Z for a zero result, S
/// for its bit 7, H and C for the adder's carries, P/V for its overflow, and
/// N for a subtraction.
pub open spec fn octet_flag_values(result: AdderResult<u8>, operation: Operation) -> Seq<
    (Flag, bool),
> {
    seq![
        (Flag::Zero, result.value == 0x00),
        (Flag::Sign, result.value > 0x7F),
        (Flag::HalfCarry, result.half_carry),
        (Flag::ParityOverflow, result.overflow),
        (Flag::AddSubtract, operation == Operation::Subtract),
        (Flag::Carry, result.carry),
    ]
}

impl MachineView {
    /// The carry flag as a number.
    pub open spec fn carry_bit(self) -> u8 {
        if self.flag(Flag::Carry) {
            1
        } else {
            0
        }
    }

    /// The address in HL.
    pub open spec fn hl(self) -> u16 {
        self.get_register_pair(DoubleRegisterSelector::HL)
    }

    /// A register takes the sum of itself and the operand, or of itself and
    /// the operand's two's complement; then the affected flags take the
    /// values that the result gives them.
    #[verifier::opaque]
    pub open spec fn operate_on_register(
        self,
        operation: Operation,
        target: TargetRegisterSelector,
        operand: u8,
        affected: Seq<Flag>,
    ) -> MachineView {
        let result = sum_octets(self.get_register(target), operation.octet_operand(operand));
        let written = self.set_register(target, result.value);
        written.with_flags(updated(written.flags(), affected, octet_flag_values(result, operation)))
    }

    /// The same on the octet in memory at the address in HL.
    #[verifier::opaque]
    pub open spec fn operate_on_memory(
        self,
        operation: Operation,
        operand: u8,
        affected: Seq<Flag>,
    ) -> MachineView {
        let result = sum_octets(self.read_u8(self.hl()), operation.octet_operand(operand));
        self.write_u8(self.hl(), result.value).with_flags(
            updated(self.flags(), affected, octet_flag_values(result, operation)),
        )
    }

    /// ADD A,r and SUB r.
    #[verifier::opaque]
    pub open spec fn op_register(
        self,
        operation: Operation,
        selector: RegisterSelector,
    ) -> MachineView {
        self.operate_on_register(
            operation,
            RegisterSelector::A,
            self.get_register(selector),
            arithmetic_flags(),
        ).clock(4)
    }

    /// ADC A,r and SBC A,r: the operand is the register plus the carry flag,
    /// modulo 256.
    #[verifier::opaque]
    pub open spec fn op_carry_register(
        self,
        operation: Operation,
        selector: RegisterSelector,
    ) -> MachineView {
        self.operate_on_register(
            operation,
            RegisterSelector::A,
            self.get_register(selector).wrapping_add(self.carry_bit()),
            arithmetic_flags(),
        ).clock(4)
    }

    /// ADD A,(HL) and SUB (HL).
    #[verifier::opaque]
    pub open spec fn op_accumulator_memory(self, operation: Operation) -> MachineView {
        self.operate_on_register(
            operation,
            RegisterSelector::A,
            self.read_u8(self.hl()),
            arithmetic_flags(),
        ).clock(7)
    }

    /// ADC A,(HL) and SBC A,(HL).
    #[verifier::opaque]
    pub open spec fn op_carry_memory(self, operation: Operation) -> MachineView {
        self.operate_on_register(
            operation,
            RegisterSelector::A,
            self.read_u8(self.hl()).wrapping_add(self.carry_bit()),
            arithmetic_flags(),
        ).clock(7)
    }

    /// ADD A,n and SUB n: the operand follows the opcode.
    #[verifier::opaque]
    pub open spec fn op_value(self, operation: Operation) -> MachineView {
        self.after_fetch().operate_on_register(
            operation,
            RegisterSelector::A,
            self.fetched(),
            arithmetic_flags(),
        ).clock(7)
    }

    /// ADC A,n and SBC A,n.
    #[verifier::opaque]
    pub open spec fn op_carry_value(self, operation: Operation) -> MachineView {
        self.after_fetch().operate_on_register(
            operation,
            RegisterSelector::A,
            self.fetched().wrapping_add(self.carry_bit()),
            arithmetic_flags(),
        ).clock(7)
    }

    /// INC r and DEC r: the register goes up or down by one; C stays.
    #[verifier::opaque]
    pub open spec fn op_register_by_1(
        self,
        target: TargetRegisterSelector,
        operation: Operation,
    ) -> MachineView {
        self.operate_on_register(operation, target, 1, counting_flags()).clock(4)
    }

    /// INC (HL) and DEC (HL).
    #[verifier::opaque]
    pub open spec fn op_memory_by_1(self, operation: Operation) -> MachineView {
        self.operate_on_memory(operation, 1, counting_flags()).clock(11)
    }

    /// ADD A,r.
    #[verifier::opaque]
    pub open spec fn add_register(self, selector: RegisterSelector) -> MachineView {
        self.op_register(Operation::Add, selector)
    }

    /// ADC A,r.
    #[verifier::opaque]
    pub open spec fn add_carry_register(self, selector: RegisterSelector) -> MachineView {
        self.op_carry_register(Operation::Add, selector)
    }

    /// SUB r.
    #[verifier::opaque]
    pub open spec fn subtract_register(self, selector: RegisterSelector) -> MachineView {
        self.op_register(Operation::Subtract, selector)
    }

    /// SBC A,r.
    #[verifier::opaque]
    pub open spec fn subtract_carry_register(self, selector: RegisterSelector) -> MachineView {
        self.op_carry_register(Operation::Subtract, selector)
    }

    /// ADD A,(HL).
    #[verifier::opaque]
    pub open spec fn add_memory(self) -> MachineView {
        self.op_accumulator_memory(Operation::Add)
    }

    /// SUB (HL).
    #[verifier::opaque]
    pub open spec fn sub_memory(self) -> MachineView {
        self.op_accumulator_memory(Operation::Subtract)
    }

    /// ADC A,(HL).
    #[verifier::opaque]
    pub open spec fn add_carry_memory(self) -> MachineView {
        self.op_carry_memory(Operation::Add)
    }

    /// SBC A,(HL).
    #[verifier::opaque]
    pub open spec fn subtract_carry_memory(self) -> MachineView {
        self.op_carry_memory(Operation::Subtract)
    }

    /// ADD A,n.
    #[verifier::opaque]
    pub open spec fn add_value(self) -> MachineView {
        self.op_value(Operation::Add)
    }

    /// SUB n.
    #[verifier::opaque]
    pub open spec fn subtract_value(self) -> MachineView {
        self.op_value(Operation::Subtract)
    }

    /// ADC A,n.
    #[verifier::opaque]
    pub open spec fn add_carry_value(self) -> MachineView {
        self.op_carry_value(Operation::Add)
    }

    /// SBC A,n.
    #[verifier::opaque]
    pub open spec fn subtract_carry_value(self) -> MachineView {
        self.op_carry_value(Operation::Subtract)
    }

    /// INC r.
    #[verifier::opaque]
    pub open spec fn increment_register(self, target: TargetRegisterSelector) -> MachineView {
        self.op_register_by_1(target, Operation::Add)
    }

    /// DEC r.
    #[verifier::opaque]
    pub open spec fn decrement_register(self, target: TargetRegisterSelector) -> MachineView {
        self.op_register_by_1(target, Operation::Subtract)
    }

    /// INC (HL).
    #[verifier::opaque]
    pub open spec fn increment_memory(self) -> MachineView {
        self.op_memory_by_1(Operation::Add)
    }

    /// DEC (HL).
    #[verifier::opaque]
    pub open spec fn decrement_memory(self) -> MachineView {
        self.op_memory_by_1(Operation::Subtract)
    }
}

/// The six flags of ADD, ADC, SUB and SBC.
fn all_arithmetic_flags() -> (flags: [Flag; 6])
    ensures
        flags@ == arithmetic_flags(),
{
    let flags: [Flag; 6] = [
        Flag::AddSubtract,
        Flag::Carry,
        Flag::HalfCarry,
        Flag::ParityOverflow,
        Flag::Sign,
        Flag::Zero,
    ];
    assert(flags@ =~= arithmetic_flags());
    flags
}

/// The five flags of INC and DEC.
fn all_counting_flags() -> (flags: [Flag; 5])
    ensures
        flags@ == counting_flags(),
{
    let flags: [Flag; 5] = [
        Flag::AddSubtract,
        Flag::ParityOverflow,
        Flag::HalfCarry,
        Flag::Zero,
        Flag::Sign,
    ];
    assert(flags@ =~= counting_flags());
    flags
}

/// The flag values of an 8-bit result as a list.
fn flag_values_of(result: AdderResult<u8>, operation: Operation) -> (values: [(Flag, bool); 6])
    ensures
        values@ == octet_flag_values(result, operation),
{
    let values: [(Flag, bool); 6] = [
        (Flag::Zero, result.value == 0x00),
        (Flag::Sign, result.value > 0x7F),
        (Flag::HalfCarry, result.half_carry),
        (Flag::ParityOverflow, result.overflow),
        (Flag::AddSubtract, operation == Operation::Subtract),
        (Flag::Carry, result.carry),
    ];
    assert(values@ =~= octet_flag_values(result, operation));
    values
}

impl Machine {
    /// ADD A,r.
    pub fn add_register(&mut self, selector: RegisterSelector)
        ensures
            final(self)@ == old(self)@.add_register(selector),
    {
        reveal(MachineView::add_register);
        self.op_register(Operation::Add, selector);
    }

    /// ADC A,r.
    pub fn add_carry_register(&mut self, selector: RegisterSelector)
        ensures
            final(self)@ == old(self)@.add_carry_register(selector),
    {
        reveal(MachineView::add_carry_register);
        self.op_carry_register(Operation::Add, selector);
    }

    /// ADC A,(HL).
    pub fn add_carry_memory(&mut self)
        ensures
            final(self)@ == old(self)@.add_carry_memory(),
    {
        reveal(MachineView::add_carry_memory);
        self.op_carry_memory(Operation::Add);
    }

    /// SBC A,(HL).
    pub fn subtract_carry_memory(&mut self)
        ensures
            final(self)@ == old(self)@.subtract_carry_memory(),
    {
        reveal(MachineView::subtract_carry_memory);
        self.op_carry_memory(Operation::Subtract);
    }

    /// SUB r.
    pub fn subtract_register(&mut self, selector: RegisterSelector)
        ensures
            final(self)@ == old(self)@.subtract_register(selector),
    {
        reveal(MachineView::subtract_register);
        self.op_register(Operation::Subtract, selector);
    }

    /// SBC A,r.
    pub fn subtract_carry_register(&mut self, selector: RegisterSelector)
        ensures
            final(self)@ == old(self)@.subtract_carry_register(selector),
    {
        reveal(MachineView::subtract_carry_register);
        self.op_carry_register(Operation::Subtract, selector);
    }

    /// ADD A,n.
    pub fn add_value(&mut self)
        ensures
            final(self)@ == old(self)@.add_value(),
    {
        reveal(MachineView::add_value);
        self.op_value(Operation::Add);
    }

    /// SUB n.
    pub fn subtract_value(&mut self)
        ensures
            final(self)@ == old(self)@.subtract_value(),
    {
        reveal(MachineView::subtract_value);
        self.op_value(Operation::Subtract);
    }

    /// ADC A,n.
    pub fn add_carry_value(&mut self)
        ensures
            final(self)@ == old(self)@.add_carry_value(),
    {
        reveal(MachineView::add_carry_value);
        self.op_carry_value(Operation::Add);
    }

    /// SBC A,n.
    pub fn subtract_carry_value(&mut self)
        ensures
            final(self)@ == old(self)@.subtract_carry_value(),
    {
        reveal(MachineView::subtract_carry_value);
        self.op_carry_value(Operation::Subtract);
    }

    /// ADD A,r and SUB r.
    pub fn op_register(&mut self, operation: Operation, selector: RegisterSelector)
        ensures
            final(self)@ == old(self)@.op_register(operation, selector),
    {
        reveal(MachineView::op_register);
        let operand: u8 = self.get_register(selector);
        let affected: [Flag; 6] = all_arithmetic_flags();
        self.operate_on_register(operation, RegisterSelector::A, operand, &affected);
        self.clock(4);
    }

    /// ADC A,r and SBC A,r.
    pub fn op_carry_register(&mut self, operation: Operation, selector: RegisterSelector)
        ensures
            final(self)@ == old(self)@.op_carry_register(operation, selector),
    {
        reveal(MachineView::op_carry_register);
        let operand: u8 = self.get_register(selector);
        let carry: u8 = Flag::Carry.get_bit(&self.cpu.state);
        let affected: [Flag; 6] = all_arithmetic_flags();
        self.operate_on_register(
            operation,
            RegisterSelector::A,
            operand.wrapping_add(carry),
            &affected,
        );
        self.clock(4);
    }

    /// ADC A,(HL) and SBC A,(HL).
    pub fn op_carry_memory(&mut self, operation: Operation)
        ensures
            final(self)@ == old(self)@.op_carry_memory(operation),
    {
        reveal(MachineView::op_carry_memory);
        let address: u16 = self.get_register_pair(DoubleRegisterSelector::HL);
        let operand: u8 = self.ram.read_u8(address);
        let carry: u8 = Flag::Carry.get_bit(&self.cpu.state);
        let affected: [Flag; 6] = all_arithmetic_flags();
        self.operate_on_register(
            operation,
            RegisterSelector::A,
            operand.wrapping_add(carry),
            &affected,
        );
        self.clock(7);
    }

    /// ADD A,n and SUB n.
    pub fn op_value(&mut self, operation: Operation)
        ensures
            final(self)@ == old(self)@.op_value(operation),
    {
        reveal(MachineView::op_value);
        let operand: u8 = self.next_byte();
        let affected: [Flag; 6] = all_arithmetic_flags();
        self.operate_on_register(operation, RegisterSelector::A, operand, &affected);
        self.clock(7);
    }

    /// ADC A,n and SBC A,n.
    pub fn op_carry_value(&mut self, operation: Operation)
        ensures
            final(self)@ == old(self)@.op_carry_value(operation),
    {
        reveal(MachineView::op_carry_value);
        let carry: u8 = Flag::Carry.get_bit(&self.cpu.state);
        let operand: u8 = self.next_byte();
        let affected: [Flag; 6] = all_arithmetic_flags();
        self.operate_on_register(
            operation,
            RegisterSelector::A,
            operand.wrapping_add(carry),
            &affected,
        );
        self.clock(7);
    }

    /// INC r.
    pub fn increment_register(&mut self, target: TargetRegisterSelector)
        ensures
            final(self)@ == old(self)@.increment_register(target),
    {
        reveal(MachineView::increment_register);
        self.op_register_by_1(target, Operation::Add);
    }

    /// DEC r.
    pub fn decrement_register(&mut self, target: TargetRegisterSelector)
        ensures
            final(self)@ == old(self)@.decrement_register(target),
    {
        reveal(MachineView::decrement_register);
        self.op_register_by_1(target, Operation::Subtract);
    }

    /// INC r and DEC r.
    pub fn op_register_by_1(&mut self, target: TargetRegisterSelector, operation: Operation)
        ensures
            final(self)@ == old(self)@.op_register_by_1(target, operation),
    {
        reveal(MachineView::op_register_by_1);
        let affected: [Flag; 5] = all_counting_flags();
        self.operate_on_register(operation, target, 1, &affected);
        self.clock(4);
    }

    /// INC (HL).
    pub fn increment_memory(&mut self)
        ensures
            final(self)@ == old(self)@.increment_memory(),
    {
        reveal(MachineView::increment_memory);
        self.op_memory_by_1(Operation::Add);
    }

    /// DEC (HL).
    pub fn decrement_memory(&mut self)
        ensures
            final(self)@ == old(self)@.decrement_memory(),
    {
        reveal(MachineView::decrement_memory);
        self.op_memory_by_1(Operation::Subtract)
    }

    /// INC (HL) and DEC (HL).
    pub fn op_memory_by_1(&mut self, operation: Operation)
        ensures
            final(self)@ == old(self)@.op_memory_by_1(operation),
    {
        reveal(MachineView::op_memory_by_1);
        let affected: [Flag; 5] = all_counting_flags();
        self.operate_on_memory(operation, 1, &affected);
        self.clock(11);
    }

    /// ADD A,(HL).
    pub fn add_memory(&mut self)
        ensures
            final(self)@ == old(self)@.add_memory(),
    {
        reveal(MachineView::add_memory);
        self.op_accumulator_memory(Operation::Add);
    }

    /// SUB (HL).
    pub fn sub_memory(&mut self)
        ensures
            final(self)@ == old(self)@.sub_memory(),
    {
        reveal(MachineView::sub_memory);
        self.op_accumulator_memory(Operation::Subtract);
    }

    /// ADD A,(HL) and SUB (HL).
    pub fn op_accumulator_memory(&mut self, operation: Operation)
        ensures
            final(self)@ == old(self)@.op_accumulator_memory(operation),
    {
        reveal(MachineView::op_accumulator_memory);
        let address: u16 = self.get_register_pair(DoubleRegisterSelector::HL);
        let operand: u8 = self.ram.read_u8(address);
        let affected: [Flag; 6] = all_arithmetic_flags();
        self.operate_on_register(operation, RegisterSelector::A, operand, &affected);
        self.clock(7);
    }

    /// Adds the operand, or its two's complement, to a register and writes
    /// the affected flags.
    pub fn operate_on_register(
        &mut self,
        operation: Operation,
        target: TargetRegisterSelector,
        operand: u8,
        affected_flags: &[Flag],
    )
        ensures
            final(self)@ == old(self)@.operate_on_register(
                operation,
                target,
                operand,
                affected_flags@,
            ),
    {
        reveal(MachineView::operate_on_register);
        let op1: u8 = self.get_register_mut(target);
        let op2: u8 = operation.maybe_negate(operand);
        let result = alu::add_octets(op1, op2);
        self.cpu.state.assign(target, result.value);
        let values: [(Flag, bool); 6] = flag_values_of(result, operation);
        Flag::set_values(&mut self.cpu.state, affected_flags, &values);
    }

    /// Adds the operand, or its two's complement, to the octet at the
    /// address in HL and writes the affected flags.
    pub fn operate_on_memory(
        &mut self,
        operation: Operation,
        operand: u8,
        affected_flags: &[Flag],
    )
        ensures
            final(self)@ == old(self)@.operate_on_memory(operation, operand, affected_flags@),
    {
        reveal(MachineView::operate_on_memory);
        let address: u16 = self.get_register_pair(DoubleRegisterSelector::HL);
        let op1: u8 = self.ram.read_u8(address);
        let op2: u8 = operation.maybe_negate(operand);
        let result = alu::add_octets(op1, op2);
        self.ram.write_u8(address, result.value);
        let values: [(Flag, bool); 6] = flag_values_of(result, operation);
        Flag::set_values(&mut self.cpu.state, affected_flags, &values);
    }
}

/// What the list of flag values of an 8-bit result gives to each flag: the
/// six arithmetic flags have a value, the two unused ones have none.
pub proof fn lemma_octet_flag_values(result: AdderResult<u8>, operation: Operation)
    ensures
        lookup(octet_flag_values(result, operation), Flag::Zero) == Some(result.value == 0x00),
        lookup(octet_flag_values(result, operation), Flag::Sign) == Some(result.value > 0x7F),
        lookup(octet_flag_values(result, operation), Flag::HalfCarry) == Some(result.half_carry),
        lookup(octet_flag_values(result, operation), Flag::ParityOverflow) == Some(result.overflow),
        lookup(octet_flag_values(result, operation), Flag::AddSubtract) == Some(
            operation == Operation::Subtract,
        ),
        lookup(octet_flag_values(result, operation), Flag::Carry) == Some(result.carry),
        lookup(octet_flag_values(result, operation), Flag::Unused1) is None,
        lookup(octet_flag_values(result, operation), Flag::Unused2) is None,
{
    let values = octet_flag_values(result, operation);
    let v5 = values.drop_last();
    let v4 = v5.drop_last();
    let v3 = v4.drop_last();
    let v2 = v3.drop_last();
    let v1 = v2.drop_last();
    let v0 = v1.drop_last();
    assert(v0.len() == 0);
    reveal_with_fuel(lookup, 8);
}

/// The flags after ADD, ADC, SUB or SBC: Z, S, H, P/V, N and C follow the
/// result, the two unused flags stay.
pub proof fn lemma_arithmetic_flags(flags: u8, result: AdderResult<u8>, operation: Operation)
    ensures
        ({
            let after = updated(flags, arithmetic_flags(), octet_flag_values(result, operation));
            &&& Flag::Zero.is_set(after) == (result.value == 0x00)
            &&& Flag::Sign.is_set(after) == (result.value > 0x7F)
            &&& Flag::HalfCarry.is_set(after) == result.half_carry
            &&& Flag::ParityOverflow.is_set(after) == result.overflow
            &&& Flag::AddSubtract.is_set(after) == (operation == Operation::Subtract)
            &&& Flag::Carry.is_set(after) == result.carry
            &&& Flag::Unused1.is_set(after) == Flag::Unused1.is_set(flags)
            &&& Flag::Unused2.is_set(after) == Flag::Unused2.is_set(flags)
        }),
{
    let affected = arithmetic_flags();
    let values = octet_flag_values(result, operation);
    lemma_octet_flag_values(result, operation);
    assert(affected[0] == Flag::AddSubtract);
    assert(affected[1] == Flag::Carry);
    assert(affected[2] == Flag::HalfCarry);
    assert(affected[3] == Flag::ParityOverflow);
    assert(affected[4] == Flag::Sign);
    assert(affected[5] == Flag::Zero);
    Flag::lemma_updated(flags, affected, values, Flag::Zero);
    Flag::lemma_updated(flags, affected, values, Flag::Sign);
    Flag::lemma_updated(flags, affected, values, Flag::HalfCarry);
    Flag::lemma_updated(flags, affected, values, Flag::ParityOverflow);
    Flag::lemma_updated(flags, affected, values, Flag::AddSubtract);
    Flag::lemma_updated(flags, affected, values, Flag::Carry);
    Flag::lemma_updated(flags, affected, values, Flag::Unused1);
    Flag::lemma_updated(flags, affected, values, Flag::Unused2);
}

/// The flags after INC or DEC: Z, S, H, P/V and N follow the result; C and
/// the two unused flags stay.
pub proof fn lemma_counting_flags(flags: u8, result: AdderResult<u8>, operation: Operation)
    ensures
        ({
            let after = updated(flags, counting_flags(), octet_flag_values(result, operation));
            &&& Flag::Zero.is_set(after) == (result.value == 0x00)
            &&& Flag::Sign.is_set(after) == (result.value > 0x7F)
            &&& Flag::HalfCarry.is_set(after) == result.half_carry
            &&& Flag::ParityOverflow.is_set(after) == result.overflow
            &&& Flag::AddSubtract.is_set(after) == (operation == Operation::Subtract)
            &&& Flag::Carry.is_set(after) == Flag::Carry.is_set(flags)
            &&& Flag::Unused1.is_set(after) == Flag::Unused1.is_set(flags)
            &&& Flag::Unused2.is_set(after) == Flag::Unused2.is_set(flags)
        }),
{
    let affected = counting_flags();
    let values = octet_flag_values(result, operation);
    lemma_octet_flag_values(result, operation);
    assert(affected[0] == Flag::AddSubtract);
    assert(affected[1] == Flag::ParityOverflow);
    assert(affected[2] == Flag::HalfCarry);
    assert(affected[3] == Flag::Zero);
    assert(affected[4] == Flag::Sign);
    assert(!affected.contains(Flag::Carry));
    Flag::lemma_updated(flags, affected, values, Flag::Zero);
    Flag::lemma_updated(flags, affected, values, Flag::Sign);
    Flag::lemma_updated(flags, affected, values, Flag::HalfCarry);
    Flag::lemma_updated(flags, affected, values, Flag::ParityOverflow);
    Flag::lemma_updated(flags, affected, values, Flag::AddSubtract);
    Flag::lemma_updated(flags, affected, values, Flag::Carry);
    Flag::lemma_updated(flags, affected, values, Flag::Unused1);
    Flag::lemma_updated(flags, affected, values, Flag::Unused2);
}

impl MachineView {
    /// The machine after `count` times INC r.
    pub open spec fn increment_register_times(
        self,
        target: TargetRegisterSelector,
        count: nat,
    ) -> MachineView
        decreases count,
    {
        if count == 0 {
            self
        } else {
            self.increment_register_times(target, (count - 1) as nat).increment_register(target)
        }
    }

    /// The machine after `count` times ADD A,r.
    pub open spec fn add_register_times(self, selector: RegisterSelector, count: nat) -> MachineView
        decreases count,
    {
        if count == 0 {
            self
        } else {
            self.add_register_times(selector, (count - 1) as nat).add_register(selector)
        }
    }

    /// What an 8-bit addition or subtraction leaves untouched: memory, the
    /// counters, the shadow bank, the run and halt signals, and every
    /// register but the target and F.
    pub open spec fn same_but_register(
        self,
        after: MachineView,
        target: TargetRegisterSelector,
    ) -> bool {
        &&& after.ram == self.ram
        &&& after.run == self.run
        &&& after.cpu.halted == self.cpu.halted
        &&& after.cpu.state.pc == self.cpu.state.pc
        &&& after.cpu.state.sp == self.cpu.state.sp
        &&& after.cpu.state.alt_registers == self.cpu.state.alt_registers
        &&& forall|other: RegisterSelector|
            other != target && other != RegisterSelector::F ==> #[trigger] after.get_register(other)
                == self.get_register(other)
    }

    /// INC r: the register goes up by one, modulo 256. Z says that it is
    /// zero now, S that its bit 7 is set, H that its low nibble has just
    /// wrapped, P/V that it went from 0x7F to 0x80. N is cleared. C and the
    /// unused flags stay, and so does everything else but the clock, which
    /// advances by 4.
    pub proof fn lemma_increment_register(self, target: TargetRegisterSelector)
        requires
            target != RegisterSelector::F,
        ensures
            ({
                let after = self.increment_register(target);
                let value = after.get_register(target);
                &&& value == (self.get_register(target) + 1) % 256
                &&& after.flag(Flag::Zero) <==> value == 0x00
                &&& after.flag(Flag::Sign) <==> value >= 0x80
                &&& after.flag(Flag::HalfCarry) <==> value & 0x0F == 0
                &&& after.flag(Flag::ParityOverflow) <==> value == 0x80
                &&& !after.flag(Flag::AddSubtract)
                &&& after.flag(Flag::Carry) == self.flag(Flag::Carry)
                &&& after.flag(Flag::Unused1) == self.flag(Flag::Unused1)
                &&& after.flag(Flag::Unused2) == self.flag(Flag::Unused2)
                &&& self.same_but_register(after, target)
                &&& after.ticks == self.clock(4).ticks
            }),
    {
        reveal(MachineView::increment_register);
        reveal(MachineView::op_register_by_1);
        reveal(MachineView::operate_on_register);
        let result = sum_octets(self.get_register(target), 1);
        let written = self.set_register(target, result.value);
        assert(written.flags() == self.flags());
        lemma_counting_flags(written.flags(), result, Operation::Add);
        alu::lemma_nibbles(result.value);
    }

    /// DEC r: the register goes down by one, modulo 256. Z says that it is
    /// zero now, S that its bit 7 is set, P/V that it went from 0x80 to
    /// 0x7F; H is the adder's carry out of bit 3 when 0xFF is added, which
    /// is set unless the low nibble was zero. N is set. C and the unused
    /// flags stay, and so does everything else but the clock.
    pub proof fn lemma_decrement_register(self, target: TargetRegisterSelector)
        requires
            target != RegisterSelector::F,
        ensures
            ({
                let after = self.decrement_register(target);
                let value = after.get_register(target);
                &&& value == (self.get_register(target) + 255) % 256
                &&& after.flag(Flag::Zero) <==> value == 0x00
                &&& after.flag(Flag::Sign) <==> value >= 0x80
                &&& after.flag(Flag::HalfCarry) <==> self.get_register(target) % 16 != 0
                &&& after.flag(Flag::ParityOverflow) <==> value == 0x7F
                &&& after.flag(Flag::AddSubtract)
                &&& after.flag(Flag::Carry) == self.flag(Flag::Carry)
                &&& after.flag(Flag::Unused1) == self.flag(Flag::Unused1)
                &&& after.flag(Flag::Unused2) == self.flag(Flag::Unused2)
                &&& self.same_but_register(after, target)
                &&& after.ticks == self.clock(4).ticks
            }),
    {
        reveal(MachineView::decrement_register);
        reveal(MachineView::op_register_by_1);
        reveal(MachineView::operate_on_register);
        let result = sum_octets(self.get_register(target), 0xFF);
        let written = self.set_register(target, result.value);
        assert(written.flags() == self.flags());
        lemma_counting_flags(written.flags(), result, Operation::Subtract);
    }

    /// INC r over and over: after `count` times the register has gone up
    /// by `count` modulo 256, so that from zero it passes through every
    /// octet and is zero again after 256 times. C is as it was at the start.
    pub proof fn lemma_increment_register_times(self, target: TargetRegisterSelector, count: nat)
        requires
            target != RegisterSelector::F,
        ensures
            self.increment_register_times(target, count).get_register(target) == (
            self.get_register(target) + count) % 256,
            self.increment_register_times(target, count).flag(Flag::Carry) == self.flag(
                Flag::Carry,
            ),
        decreases count,
    {
        if count > 0 {
            let before = self.increment_register_times(target, (count - 1) as nat);
            self.lemma_increment_register_times(target, (count - 1) as nat);
            before.lemma_increment_register(target);
            let a = self.get_register(target) as int;
            assert(((a + (count - 1)) % 256 + 1) % 256 == (a + count) % 256);
        }
    }

    /// ADD A,r: the accumulator takes the sum modulo 256. C says that the
    /// sum passed 0xFF, H that the low nibbles passed 0xF, P/V that the
    /// signed sum does not fit; Z and S follow the result, N is cleared. The
    /// unused flags and everything else but the clock stay.
    pub proof fn lemma_add_register(self, selector: RegisterSelector)
        ensures
            ({
                let after = self.add_register(selector);
                let a = self.get_register(RegisterSelector::A);
                let r = self.get_register(selector);
                let value = after.get_register(RegisterSelector::A);
                &&& value == (a + r) % 256
                &&& after.flag(Flag::Carry) <==> a + r > 0xFF
                &&& after.flag(Flag::HalfCarry) <==> a % 16 + r % 16 > 0x0F
                &&& after.flag(Flag::ParityOverflow) <==> sum_octets(a, r).overflow
                &&& after.flag(Flag::Zero) <==> value == 0x00
                &&& after.flag(Flag::Sign) <==> value >= 0x80
                &&& !after.flag(Flag::AddSubtract)
                &&& after.flag(Flag::Unused1) == self.flag(Flag::Unused1)
                &&& after.flag(Flag::Unused2) == self.flag(Flag::Unused2)
                &&& self.same_but_register(after, RegisterSelector::A)
                &&& after.ticks == self.clock(4).ticks
            }),
    {
        reveal(MachineView::add_register);
        reveal(MachineView::op_register);
        reveal(MachineView::operate_on_register);
        let result = sum_octets(
            self.get_register(RegisterSelector::A),
            self.get_register(selector),
        );
        let written = self.set_register(RegisterSelector::A, result.value);
        lemma_arithmetic_flags(written.flags(), result, Operation::Add);
    }

    /// SUB r: the accumulator takes the difference modulo 256, computed as
    /// the sum with the two's complement of the register. N is set; Z and S
    /// follow the result; C, H and P/V are those of that sum. The unused
    /// flags and everything else but the clock stay.
    pub proof fn lemma_subtract_register(self, selector: RegisterSelector)
        ensures
            ({
                let after = self.subtract_register(selector);
                let a = self.get_register(RegisterSelector::A);
                let r = self.get_register(selector);
                let sum = sum_octets(a, negated_octet(r));
                let value = after.get_register(RegisterSelector::A);
                &&& value == (a - r) % 256
                &&& after.flag(Flag::AddSubtract)
                &&& after.flag(Flag::Zero) <==> value == 0x00
                &&& after.flag(Flag::Sign) <==> value >= 0x80
                &&& after.flag(Flag::Carry) == sum.carry
                &&& after.flag(Flag::HalfCarry) == sum.half_carry
                &&& after.flag(Flag::ParityOverflow) == sum.overflow
                &&& after.flag(Flag::Unused1) == self.flag(Flag::Unused1)
                &&& after.flag(Flag::Unused2) == self.flag(Flag::Unused2)
                &&& self.same_but_register(after, RegisterSelector::A)
                &&& after.ticks == self.clock(4).ticks
            }),
    {
        reveal(MachineView::subtract_register);
        reveal(MachineView::op_register);
        reveal(MachineView::operate_on_register);
        let a = self.get_register(RegisterSelector::A);
        let r = self.get_register(selector);
        let result = sum_octets(a, negated_octet(r));
        let written = self.set_register(RegisterSelector::A, result.value);
        lemma_arithmetic_flags(written.flags(), result, Operation::Subtract);
        alu::lemma_sum_with_negated(a, r, 0, 0);
    }

    /// ADD A,r with 1 in the register counts like INC A, and C says that the
    /// accumulator has just wrapped to zero.
    pub proof fn lemma_add_one(self, selector: RegisterSelector)
        requires
            self.get_register(selector) == 1,
        ensures
            ({
                let after = self.add_register(selector);
                let counted = self.increment_register(RegisterSelector::A);
                let value = after.get_register(RegisterSelector::A);
                &&& value == counted.get_register(RegisterSelector::A)
                &&& after.flag(Flag::Carry) <==> value == 0x00
                &&& after.flag(Flag::Zero) == counted.flag(Flag::Zero)
                &&& after.flag(Flag::Sign) == counted.flag(Flag::Sign)
                &&& after.flag(Flag::HalfCarry) == counted.flag(Flag::HalfCarry)
                &&& after.flag(Flag::ParityOverflow) == counted.flag(Flag::ParityOverflow)
                &&& after.flag(Flag::AddSubtract) == counted.flag(Flag::AddSubtract)
            }),
    {
        self.lemma_add_register(selector);
        self.lemma_increment_register(RegisterSelector::A);
        alu::lemma_increment_octet(self.get_register(RegisterSelector::A));
        alu::lemma_nibbles(self.get_register(RegisterSelector::A));
        let counted = self.increment_register(RegisterSelector::A);
        alu::lemma_nibbles(counted.get_register(RegisterSelector::A));
    }

    /// ADD A,r over and over with 1 in a register other than A and F: after
    /// `count` times the accumulator has gone up by `count` modulo 256, as
    /// with INC A, and from the first time on C says that the accumulator
    /// has just wrapped to zero.
    pub proof fn lemma_add_one_times(self, selector: RegisterSelector, count: nat)
        requires
            selector != RegisterSelector::A,
            selector != RegisterSelector::F,
            self.get_register(selector) == 1,
        ensures
            ({
                let after = self.add_register_times(selector, count);
                let value = after.get_register(RegisterSelector::A);
                &&& after.get_register(selector) == 1
                &&& value == (self.get_register(RegisterSelector::A) + count) % 256
                &&& value == self.increment_register_times(RegisterSelector::A, count).get_register(
                    RegisterSelector::A,
                )
                &&& count > 0 ==> (after.flag(Flag::Carry) <==> value == 0x00)
            }),
        decreases count,
    {
        self.lemma_increment_register_times(RegisterSelector::A, count);
        if count > 0 {
            let before = self.add_register_times(selector, (count - 1) as nat);
            self.lemma_add_one_times(selector, (count - 1) as nat);
            before.lemma_add_register(selector);
            before.lemma_add_one(selector);
            let a = self.get_register(RegisterSelector::A) as int;
            assert(((a + (count - 1)) % 256 + 1) % 256 == (a + count) % 256);
        }
    }
}

} // verus!
