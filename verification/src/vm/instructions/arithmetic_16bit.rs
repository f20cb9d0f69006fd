//! The 16-bit additions: INC rr, DEC rr and ADD HL,rr.

use crate::vm::cpu::alu;
use crate::vm::cpu::alu::{sum_words, word_of, AdderResult};
use crate::vm::cpu::flags::{lookup, updated, Flag};
use crate::vm::cpu::operation::Operation;
use crate::vm::cpu::registers::{
    DoubleRegisterSelector, RegisterSelector, TargetDoubleRegisterSelector,
};
use crate::vm::machine::{Machine, MachineView};
use vstd::prelude::*;

verus! {

/// The flags that ADD HL,rr writes: C, H and N.
pub open spec fn pair_sum_flags() -> Seq<Flag> {
    seq![Flag::Carry, Flag::HalfCarry, Flag::AddSubtract]
}

/// The value that a 16-bit result gives to each flag.
pub open spec fn word_flag_values(result: AdderResult<u16>, operation: Operation) -> Seq<
    (Flag, bool),
> {
    seq![
        (Flag::Zero, result.value == 0x0000),
        (Flag::Sign, result.value > 0x7FFF),
        (Flag::HalfCarry, result.half_carry),
        (Flag::ParityOverflow, result.overflow),
        (Flag::AddSubtract, operation == Operation::Subtract),
        (Flag::Carry, result.carry),
    ]
}

impl MachineView {
    /// A pair takes the sum of itself and the operand, or of itself and the
    /// operand's two's complement; then the affected flags take the values
    /// that the result gives them.
    #[verifier::opaque]
    pub open spec fn operate_on_register_pair(
        self,
        operation: Operation,
        target: TargetDoubleRegisterSelector,
        operand: (u8, u8),
        affected: Seq<Flag>,
    ) -> MachineView {
        let result = sum_words(
            self.get_register_pair(target),
            operation.word_operand(word_of(operand)),
        );
        let written = self.set_register_pair(target, result.value);
        written.with_flags(updated(written.flags(), affected, word_flag_values(result, operation)))
    }

    /// INC rr: the pair goes up by one, around 0xFFFF. No flag changes.
    #[verifier::opaque]
    pub open spec fn increment_register_pair(
        self,
        target: TargetDoubleRegisterSelector,
    ) -> MachineView {
        self.operate_on_register_pair(Operation::Add, target, (0, 1), Seq::empty()).clock(6)
    }

    /// DEC rr: the pair goes down by one, around zero. No flag changes.
    #[verifier::opaque]
    pub open spec fn decrement_register_pair(
        self,
        target: TargetDoubleRegisterSelector,
    ) -> MachineView {
        self.operate_on_register_pair(Operation::Subtract, target, (0, 1), Seq::empty()).clock(6)
    }

    /// ADD rr,rr': the target takes the sum; C, H and N are written.
    #[verifier::opaque]
    pub open spec fn add_register_pair(
        self,
        target: TargetDoubleRegisterSelector,
        selector: DoubleRegisterSelector,
    ) -> MachineView {
        self.operate_on_register_pair(
            Operation::Add,
            target,
            self.cpu.state.read16(selector),
            pair_sum_flags(),
        ).clock(11)
    }

    /// ADD HL,rr.
    #[verifier::opaque]
    pub open spec fn add_register_pair_to_hl(
        self,
        selector: DoubleRegisterSelector,
    ) -> MachineView {
        self.add_register_pair(DoubleRegisterSelector::HL, selector)
    }
}

/// The flag values of a 16-bit result as a list.
fn flag_values_of(result: AdderResult<u16>, operation: Operation) -> (values: [(Flag, bool); 6])
    ensures
        values@ == word_flag_values(result, operation),
{
    let values: [(Flag, bool); 6] = [
        (Flag::Zero, result.value == 0x0000),
        (Flag::Sign, result.value > 0x7FFF),
        (Flag::HalfCarry, result.half_carry),
        (Flag::ParityOverflow, result.overflow),
        (Flag::AddSubtract, operation == Operation::Subtract),
        (Flag::Carry, result.carry),
    ];
    assert(values@ =~= word_flag_values(result, operation));
    values
}

impl Machine {
    /// INC rr.
    pub fn increment_register_pair(&mut self, target: TargetDoubleRegisterSelector)
        ensures
            final(self)@ == old(self)@.increment_register_pair(target),
    {
        reveal(MachineView::increment_register_pair);
        let affected: [Flag; 0] = [];
        assert(affected@ =~= Seq::empty());
        self.operate_on_register_pair(Operation::Add, target, (0, 1), &affected);
        self.clock(6);
    }

    /// DEC rr.
    pub fn decrement_register_pair(&mut self, target: TargetDoubleRegisterSelector)
        ensures
            final(self)@ == old(self)@.decrement_register_pair(target),
    {
        reveal(MachineView::decrement_register_pair);
        let affected: [Flag; 0] = [];
        assert(affected@ =~= Seq::empty());
        self.operate_on_register_pair(Operation::Subtract, target, (0, 1), &affected);
        self.clock(6);
    }

    /// ADD HL,rr.
    pub fn add_register_pair_to_hl(&mut self, selector: DoubleRegisterSelector)
        ensures
            final(self)@ == old(self)@.add_register_pair_to_hl(selector),
    {
        reveal(MachineView::add_register_pair_to_hl);
        self.add_register_pair(DoubleRegisterSelector::HL, selector);
    }

    /// ADD rr,rr'.
    pub fn add_register_pair(
        &mut self,
        target: TargetDoubleRegisterSelector,
        selector: DoubleRegisterSelector,
    )
        ensures
            final(self)@ == old(self)@.add_register_pair(target, selector),
    {
        reveal(MachineView::add_register_pair);
        let operand: (u8, u8) = self.cpu.state.get_bytes(selector);
        let affected: [Flag; 3] = [Flag::Carry, Flag::HalfCarry, Flag::AddSubtract];
        assert(affected@ =~= pair_sum_flags());
        self.operate_on_register_pair(Operation::Add, target, operand, &affected);
        self.clock(11);
    }

    /// Adds the operand, or its two's complement, to a pair and writes the
    /// affected flags.
    pub fn operate_on_register_pair(
        &mut self,
        operation: Operation,
        target: TargetDoubleRegisterSelector,
        operand: (u8, u8),
        affected_flags: &[Flag],
    )
        ensures
            final(self)@ == old(self)@.operate_on_register_pair(
                operation,
                target,
                operand,
                affected_flags@,
            ),
    {
        reveal(MachineView::operate_on_register_pair);
        let op1: u16 = self.cpu.state.get_word(target);
        let op2: u16 = operation.maybe_negate_word(alu::get_word(operand));
        let result = alu::add_words(op1, op2);
        self.cpu.state.assign_word(target, result.value);
        let values: [(Flag, bool); 6] = flag_values_of(result, operation);
        Flag::set_values(&mut self.cpu.state, affected_flags, &values);
    }
}

/// The flags after ADD HL,rr: C and H follow the adder, N is cleared, and
/// S, Z, P/V and the unused flags stay.
pub proof fn lemma_pair_sum_flags(flags: u8, result: AdderResult<u16>)
    ensures
        ({
            let after = updated(flags, pair_sum_flags(), word_flag_values(result, Operation::Add));
            &&& Flag::Carry.is_set(after) == result.carry
            &&& Flag::HalfCarry.is_set(after) == result.half_carry
            &&& !Flag::AddSubtract.is_set(after)
            &&& Flag::Zero.is_set(after) == Flag::Zero.is_set(flags)
            &&& Flag::Sign.is_set(after) == Flag::Sign.is_set(flags)
            &&& Flag::ParityOverflow.is_set(after) == Flag::ParityOverflow.is_set(flags)
            &&& Flag::Unused1.is_set(after) == Flag::Unused1.is_set(flags)
            &&& Flag::Unused2.is_set(after) == Flag::Unused2.is_set(flags)
        }),
{
    let affected = pair_sum_flags();
    let values = word_flag_values(result, Operation::Add);
    let v5 = values.drop_last();
    let v4 = v5.drop_last();
    let v3 = v4.drop_last();
    let v2 = v3.drop_last();
    let v1 = v2.drop_last();
    let v0 = v1.drop_last();
    assert(v0.len() == 0);
    reveal_with_fuel(lookup, 8);
    assert(affected[0] == Flag::Carry);
    assert(affected[1] == Flag::HalfCarry);
    assert(affected[2] == Flag::AddSubtract);
    Flag::lemma_updated(flags, affected, values, Flag::Zero);
    Flag::lemma_updated(flags, affected, values, Flag::Sign);
    Flag::lemma_updated(flags, affected, values, Flag::HalfCarry);
    Flag::lemma_updated(flags, affected, values, Flag::ParityOverflow);
    Flag::lemma_updated(flags, affected, values, Flag::AddSubtract);
    Flag::lemma_updated(flags, affected, values, Flag::Carry);
    Flag::lemma_updated(flags, affected, values, Flag::Unused1);
    Flag::lemma_updated(flags, affected, values, Flag::Unused2);
}

impl MachineView {
    /// The machine after `count` times INC rr.
    pub open spec fn increment_register_pair_times(
        self,
        target: TargetDoubleRegisterSelector,
        count: nat,
    ) -> MachineView
        decreases count,
    {
        if count == 0 {
            self
        } else {
            self.increment_register_pair_times(target, (count - 1) as nat).increment_register_pair(
                target,
            )
        }
    }

    /// What an operation on a pair leaves untouched: memory, the shadow
    /// bank, the run and halt signals, and every pair and counter but the
    /// target.
    pub open spec fn same_but_pair(
        self,
        after: MachineView,
        target: TargetDoubleRegisterSelector,
    ) -> bool {
        &&& after.ram == self.ram
        &&& after.run == self.run
        &&& after.cpu.halted == self.cpu.halted
        &&& after.cpu.state.alt_registers == self.cpu.state.alt_registers
        &&& forall|other: DoubleRegisterSelector|
            other != target ==> #[trigger] after.cpu.state.read16(other) == self.cpu.state.read16(
                other,
            )
    }

    /// INC rr: the pair goes up by one, modulo 65 536, and nothing else
    /// changes but the clock, which advances by 6: no flag is touched.
    pub proof fn lemma_increment_register_pair(self, target: TargetDoubleRegisterSelector)
        requires
            target != DoubleRegisterSelector::AF,
        ensures
            ({
                let after = self.increment_register_pair(target);
                &&& after.get_register_pair(target) == (self.get_register_pair(target) + 1) % 65536
                &&& after.flags() == self.flags()
                &&& self.same_but_pair(after, target)
                &&& after.ticks == self.clock(6).ticks
            }),
    {
        reveal(MachineView::increment_register_pair);
        reveal(MachineView::operate_on_register_pair);
        let sum = sum_words(self.get_register_pair(target), 1);
        alu::lemma_octets_round_trip(0, 1, sum.value);
    }

    /// DEC rr: the pair goes down by one, modulo 65 536, and nothing else
    /// changes but the clock: no flag is touched.
    pub proof fn lemma_decrement_register_pair(self, target: TargetDoubleRegisterSelector)
        requires
            target != DoubleRegisterSelector::AF,
        ensures
            ({
                let after = self.decrement_register_pair(target);
                &&& after.get_register_pair(target) == (self.get_register_pair(target) + 65535)
                    % 65536
                &&& after.flags() == self.flags()
                &&& self.same_but_pair(after, target)
                &&& after.ticks == self.clock(6).ticks
            }),
    {
        reveal(MachineView::decrement_register_pair);
        reveal(MachineView::operate_on_register_pair);
        let sum = sum_words(self.get_register_pair(target), 0xFFFF);
        alu::lemma_octets_round_trip(0, 1, sum.value);
    }

    /// INC rr over and over: after `count` times the pair has gone up by
    /// `count` modulo 65 536, so that from zero it passes through every word
    /// and is zero again after 65 536 times. The flags are as at the start.
    pub proof fn lemma_increment_register_pair_times(
        self,
        target: TargetDoubleRegisterSelector,
        count: nat,
    )
        requires
            target != DoubleRegisterSelector::AF,
        ensures
            self.increment_register_pair_times(target, count).get_register_pair(target) == (
            self.get_register_pair(target) + count) % 65536,
            self.increment_register_pair_times(target, count).flags() == self.flags(),
        decreases count,
    {
        if count > 0 {
            let before = self.increment_register_pair_times(target, (count - 1) as nat);
            self.lemma_increment_register_pair_times(target, (count - 1) as nat);
            before.lemma_increment_register_pair(target);
            let a = self.get_register_pair(target) as int;
            assert(((a + (count - 1)) % 65536 + 1) % 65536 == (a + count) % 65536);
        }
    }

    /// ADD HL,rr: HL takes the sum modulo 65 536. C says that the sum passed
    /// 0xFFFF, H that the low twelve bits passed 0xFFF, N is cleared; S, Z,
    /// P/V and the unused flags stay, and so does everything else but the
    /// clock, which advances by 11.
    pub proof fn lemma_add_register_pair_to_hl(self, selector: DoubleRegisterSelector)
        ensures
            ({
                let after = self.add_register_pair_to_hl(selector);
                let hl = self.get_register_pair(DoubleRegisterSelector::HL);
                let rr = self.get_register_pair(selector);
                &&& after.get_register_pair(DoubleRegisterSelector::HL) == (hl + rr) % 65536
                &&& after.flag(Flag::Carry) <==> hl + rr > 0xFFFF
                &&& after.flag(Flag::HalfCarry) <==> hl % 0x1000 + rr % 0x1000 > 0x0FFF
                &&& !after.flag(Flag::AddSubtract)
                &&& after.flag(Flag::Zero) == self.flag(Flag::Zero)
                &&& after.flag(Flag::Sign) == self.flag(Flag::Sign)
                &&& after.flag(Flag::ParityOverflow) == self.flag(Flag::ParityOverflow)
                &&& after.flag(Flag::Unused1) == self.flag(Flag::Unused1)
                &&& after.flag(Flag::Unused2) == self.flag(Flag::Unused2)
                &&& after.ram == self.ram
                &&& after.cpu.state.pc == self.cpu.state.pc
                &&& after.cpu.state.sp == self.cpu.state.sp
                &&& after.cpu.state.registers.bc == self.cpu.state.registers.bc
                &&& after.cpu.state.registers.de == self.cpu.state.registers.de
                &&& after.cpu.state.registers.af.0 == self.cpu.state.registers.af.0
                &&& after.ticks == self.clock(11).ticks
            }),
    {
        reveal(MachineView::add_register_pair_to_hl);
        reveal(MachineView::add_register_pair);
        reveal(MachineView::operate_on_register_pair);
        let sum = sum_words(
            self.get_register_pair(DoubleRegisterSelector::HL),
            self.get_register_pair(selector),
        );
        let written = self.set_register_pair(DoubleRegisterSelector::HL, sum.value);
        alu::lemma_octets_round_trip(0, 1, sum.value);
        lemma_pair_sum_flags(written.flags(), sum);
    }
}

} // verus!
