//! The conditions of the conditional jumps, calls and returns.

use crate::vm::cpu::flags::Flag;
use crate::vm::cpu::state::State;
use vstd::prelude::*;

verus! {

/// What a conditional instruction tests in the flag octet.
#[derive(Clone, Copy, Debug, PartialEq, Eq, Structural)]
pub enum Condition {
    /// No test: the unconditional forms.
    Always,
    /// NZ: the zero flag is clear.
    NonZero,
    /// Z: the zero flag is set.
    Zero,
    /// NC: the carry flag is clear.
    NoCarry,
    /// C: the carry flag is set.
    Carry,
    /// PO: the parity/overflow flag is set.
    ParityOdd,
    /// PE: the parity/overflow flag is clear.
    ParityEven,
    /// P: the sign flag is clear.
    Positive,
    /// M: the sign flag is set.
    Negative,
}

impl Condition {
    /// Whether the condition holds of a flag octet.
    pub open spec fn holds_for(self, flags: u8) -> bool {
        match self {
            Condition::Always => true,
            Condition::NonZero => !Flag::Zero.is_set(flags),
            Condition::Zero => Flag::Zero.is_set(flags),
            Condition::NoCarry => !Flag::Carry.is_set(flags),
            Condition::Carry => Flag::Carry.is_set(flags),
            Condition::ParityOdd => Flag::ParityOverflow.is_set(flags),
            Condition::ParityEven => !Flag::ParityOverflow.is_set(flags),
            Condition::Positive => !Flag::Sign.is_set(flags),
            Condition::Negative => Flag::Sign.is_set(flags),
        }
    }

    /// Tests the condition on the flags of a state.
    pub fn holds(self, state: &State) -> (holds: bool)
        ensures
            holds == self.holds_for(state.flags()),
    {
        match self {
            Condition::Always => true,
            Condition::NonZero => !Flag::Zero.get(state),
            Condition::Zero => Flag::Zero.get(state),
            Condition::NoCarry => !Flag::Carry.get(state),
            Condition::Carry => Flag::Carry.get(state),
            Condition::ParityOdd => Flag::ParityOverflow.get(state),
            Condition::ParityEven => !Flag::ParityOverflow.get(state),
            Condition::Positive => !Flag::Sign.get(state),
            Condition::Negative => Flag::Sign.get(state),
        }
    }
}

} // verus!
