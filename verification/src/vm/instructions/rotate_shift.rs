//! The rotations of the accumulator: RLCA, RRCA, RLA, RRA.

use crate::vm::cpu::alu;
use crate::vm::cpu::flags::Flag;
use crate::vm::cpu::registers::RegisterSelector;
use crate::vm::machine::{Machine, MachineView};
use vstd::prelude::*;

verus! {

/// An octet shifted left by one bit, with `carry_in` as its new bit 0.
pub open spec fn rotated_left(value: u8, carry_in: bool) -> u8 {
    ((value * 2) % 0x100 + if carry_in { 1int } else { 0int }) as u8
}

/// An octet shifted right by one bit, with `carry_in` as its new bit 7.
pub open spec fn rotated_right(value: u8, carry_in: bool) -> u8 {
    (value / 2 + if carry_in { 0x80int } else { 0int }) as u8
}

/// Bit 7 of an octet.
pub open spec fn top_bit(value: u8) -> bool {
    value >= 0x80
}

/// Bit 0 of an octet.
pub open spec fn low_bit(value: u8) -> bool {
    value % 2 == 1
}

proof fn lemma_rotations(value: u8, bit: u8)
    by (bit_vector)
    requires
        bit == 0 || bit == 1,
    ensures
        value < 0x80 ==> (value << 1) | bit == value * 2 + bit,
        value >= 0x80 ==> (value << 1) | bit == value * 2 - 0x100 + bit,
        (value >> 1) | (bit << 7) == value / 2 + bit * 0x80,
        value & 0x80 != 0 <==> value >= 0x80,
        value & 0x01 != 0 <==> value % 2 == 1,
{
}

/// Shifts an octet left by one bit and puts `carry_in` into bit 0. Also
/// gives the bit that left at the top.
fn rotate_left(value: u8, carry_in: bool) -> (rotated: (u8, bool))
    ensures
        rotated == (rotated_left(value, carry_in), top_bit(value)),
{
    let bit: u8 = alu::get_bit(carry_in);
    proof {
        lemma_rotations(value, bit);
    }
    ((value << 1) | bit, value & 0x80 != 0)
}

/// Shifts an octet right by one bit and puts `carry_in` into bit 7. Also
/// gives the bit that left at the bottom.
fn rotate_right(value: u8, carry_in: bool) -> (rotated: (u8, bool))
    ensures
        rotated == (rotated_right(value, carry_in), low_bit(value)),
{
    let bit: u8 = alu::get_bit(carry_in);
    proof {
        lemma_rotations(value, bit);
    }
    ((value >> 1) | (bit << 7), value & 0x01 != 0)
}

impl MachineView {
    /// The accumulator.
    pub open spec fn accumulator(self) -> u8 {
        self.get_register(RegisterSelector::A)
    }

    /// The machine after a rotation has put `value` into the accumulator
    /// and `carry` into C: H and N are cleared, four ticks pass.
    #[verifier::opaque]
    pub open spec fn rotated(self, value: u8, carry: bool) -> MachineView {
        self.set_register(RegisterSelector::A, value).with_flag(Flag::Carry, carry).with_flag(
            Flag::HalfCarry,
            false,
        ).with_flag(Flag::AddSubtract, false).clock(4)
    }

    /// RLCA: bit 7 goes to C and to bit 0.
    #[verifier::opaque]
    pub open spec fn rotate_accumulator_copy_left(self) -> MachineView {
        let a = self.accumulator();
        self.rotated(rotated_left(a, top_bit(a)), top_bit(a))
    }

    /// RLA: bit 7 goes to C, the old C to bit 0.
    #[verifier::opaque]
    pub open spec fn rotate_accumulator_left(self) -> MachineView {
        let a = self.accumulator();
        self.rotated(rotated_left(a, self.flag(Flag::Carry)), top_bit(a))
    }

    /// RRCA: bit 0 goes to C and to bit 7.
    #[verifier::opaque]
    pub open spec fn rotate_accumulator_copy_right(self) -> MachineView {
        let a = self.accumulator();
        self.rotated(rotated_right(a, low_bit(a)), low_bit(a))
    }

    /// RRA: bit 0 goes to C, the old C to bit 7.
    #[verifier::opaque]
    pub open spec fn rotate_accumulator_right(self) -> MachineView {
        let a = self.accumulator();
        self.rotated(rotated_right(a, self.flag(Flag::Carry)), low_bit(a))
    }
}

impl Machine {
    /// Writes the result of a rotation.
    fn finish_rotation(&mut self, value: u8, carry: bool)
        ensures
            final(self)@ == old(self)@.rotated(value, carry),
    {
        reveal(MachineView::rotated);
        self.cpu.state.registers.af.0 = value;
        Flag::Carry.set(&mut self.cpu.state, carry);
        Flag::HalfCarry.set(&mut self.cpu.state, false);
        Flag::AddSubtract.set(&mut self.cpu.state, false);
        self.clock(4);
    }

    /// RLCA.
    pub fn rotate_accumulator_copy_left(&mut self)
        ensures
            final(self)@ == old(self)@.rotate_accumulator_copy_left(),
    {
        reveal(MachineView::rotate_accumulator_copy_left);
        let old_value: u8 = self.cpu.state.registers.af.0;
        let (new_value, carry) = rotate_left(old_value, old_value > 0x7F);
        self.finish_rotation(new_value, carry);
    }

    /// RLA.
    pub fn rotate_accumulator_left(&mut self)
        ensures
            final(self)@ == old(self)@.rotate_accumulator_left(),
    {
        reveal(MachineView::rotate_accumulator_left);
        let old_value: u8 = self.cpu.state.registers.af.0;
        let old_carry: bool = Flag::Carry.get(&self.cpu.state);
        let (new_value, carry) = rotate_left(old_value, old_carry);
        self.finish_rotation(new_value, carry);
    }

    /// RRCA.
    pub fn rotate_accumulator_copy_right(&mut self)
        ensures
            final(self)@ == old(self)@.rotate_accumulator_copy_right(),
    {
        reveal(MachineView::rotate_accumulator_copy_right);
        let old_value: u8 = self.cpu.state.registers.af.0;
        let (new_value, carry) = rotate_right(old_value, old_value % 2 == 1);
        self.finish_rotation(new_value, carry);
    }

    /// RRA.
    pub fn rotate_accumulator_right(&mut self)
        ensures
            final(self)@ == old(self)@.rotate_accumulator_right(),
    {
        reveal(MachineView::rotate_accumulator_right);
        let old_value: u8 = self.cpu.state.registers.af.0;
        let old_carry: bool = Flag::Carry.get(&self.cpu.state);
        let (new_value, carry) = rotate_right(old_value, old_carry);
        self.finish_rotation(new_value, carry);
    }
}

impl MachineView {
    /// After a rotation the accumulator holds the rotated octet and C the bit
    /// that left it; H and N are cleared. S, Z, P/V and the unused flags
    /// stay, and so does everything else but the clock, which advances by
    /// 4.
    pub proof fn lemma_rotated(self, value: u8, carry: bool)
        ensures
            ({
                let after = self.rotated(value, carry);
                &&& after.get_register(RegisterSelector::A) == value
                &&& after.flag(Flag::Carry) == carry
                &&& !after.flag(Flag::HalfCarry)
                &&& !after.flag(Flag::AddSubtract)
                &&& after.flag(Flag::Sign) == self.flag(Flag::Sign)
                &&& after.flag(Flag::Zero) == self.flag(Flag::Zero)
                &&& after.flag(Flag::ParityOverflow) == self.flag(Flag::ParityOverflow)
                &&& after.flag(Flag::Unused1) == self.flag(Flag::Unused1)
                &&& after.flag(Flag::Unused2) == self.flag(Flag::Unused2)
                &&& after.ram == self.ram
                &&& after.run == self.run
                &&& after.ticks == self.clock(4).ticks
                &&& after.cpu.halted == self.cpu.halted
                &&& after.cpu.state.pc == self.cpu.state.pc
                &&& after.cpu.state.sp == self.cpu.state.sp
                &&& after.cpu.state.registers.bc == self.cpu.state.registers.bc
                &&& after.cpu.state.registers.de == self.cpu.state.registers.de
                &&& after.cpu.state.registers.hl == self.cpu.state.registers.hl
                &&& after.cpu.state.alt_registers == self.cpu.state.alt_registers
            }),
    {
        reveal(MachineView::rotated);
        let f0 = self.flags();
        let f1 = Flag::Carry.put(f0, carry);
        let f2 = Flag::HalfCarry.put(f1, false);
        Flag::lemma_put(f0, Flag::Carry, carry);
        Flag::lemma_put(f1, Flag::HalfCarry, false);
        Flag::lemma_put(f2, Flag::AddSubtract, false);
    }

    /// Rotating left and then right around the accumulator, or right and
    /// then left, gives the octet back.
    pub proof fn lemma_rotate_there_and_back(value: u8)
        ensures
            rotated_right(rotated_left(value, top_bit(value)), top_bit(value)) == value,
            rotated_left(rotated_right(value, low_bit(value)), low_bit(value)) == value,
            low_bit(rotated_left(value, top_bit(value))) == top_bit(value),
            top_bit(rotated_right(value, low_bit(value))) == low_bit(value),
    {
    }
}

} // verus!
