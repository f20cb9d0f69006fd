//! The elements of a program image.

use crate::vm::instructions::opcodes::Opcode;
use vstd::prelude::*;

verus! {

/// One byte of a program: an opcode or an operand octet.
#[derive(Clone, Copy, Debug, PartialEq, Eq, Structural)]
pub enum Element {
    Instruction(Opcode),
    Parameter(u8),
}

impl Element {
    /// The byte that the element stands for.
    pub open spec fn byte(self) -> u8 {
        match self {
            Element::Instruction(instruction) => instruction.code_of(),
            Element::Parameter(value) => value,
        }
    }

    /// The byte of the element: the code of an opcode, or the operand
    /// itself.
    pub fn get_u8(self) -> (byte: u8)
        ensures
            byte == self.byte(),
    {
        match self {
            Element::Instruction(instr) => instr.to_u8(),
            Element::Parameter(value) => value,
        }
    }
}

} // verus!
