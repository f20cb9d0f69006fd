//! The two directions of the adder.

use crate::vm::cpu::alu;
use crate::vm::cpu::alu::{negated_octet, negated_word};
use vstd::prelude::*;

verus! {

/// Whether the adder adds its operand or its two's complement.
#[derive(Clone, Copy, Debug, PartialEq, Eq, Structural)]
pub enum Operation {
    Add,
    Subtract,
}

impl Operation {
    /// The octet that goes into the adder.
    pub open spec fn octet_operand(self, operand: u8) -> u8 {
        match self {
            Operation::Add => operand,
            Operation::Subtract => negated_octet(operand),
        }
    }

    /// The word that goes into the adder.
    pub open spec fn word_operand(self, operand: u16) -> u16 {
        match self {
            Operation::Add => operand,
            Operation::Subtract => negated_word(operand),
        }
    }

    /// The operand for an addition, its two's complement for a subtraction.
    pub fn maybe_negate(self, operand: u8) -> (value: u8)
        ensures
            value == self.octet_operand(operand),
    {
        match self {
            Operation::Add => operand,
            Operation::Subtract => alu::negate(operand),
        }
    }

    /// The same for a word.
    pub fn maybe_negate_word(self, operand: u16) -> (value: u16)
        ensures
            value == self.word_operand(operand),
    {
        match self {
            Operation::Add => operand,
            Operation::Subtract => alu::negate_word(operand),
        }
    }
}

} // verus!
