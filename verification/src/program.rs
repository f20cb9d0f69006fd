//! The builder of program images.

use crate::element::Element;
use crate::vm::cpu::alu;
use crate::vm::cpu::alu::octets_of;
use crate::vm::instructions::opcodes::Opcode;
use vstd::prelude::*;

verus! {

/// A program image: a flat sequence of bytes, which is its view.
pub struct Program {
    bin: Vec<u8>,
}

impl View for Program {
    type V = Seq<u8>;

    closed spec fn view(&self) -> Seq<u8> {
        self.bin@
    }
}

impl Program {
    /// An empty program.
    pub fn new() -> (program: Program)
        ensures
            program@ == Seq::<u8>::empty(),
    {
        Program { bin: Vec::new() }
    }

    /// The bytes of the program.
    pub fn raw(&self) -> (bytes: &Vec<u8>)
        ensures
            bytes@ == self@,
    {
        &self.bin
    }

    /// Appends one element.
    pub fn add(&mut self, element: Element)
        ensures
            final(self)@ == old(self)@.push(element.byte()),
    {
        self.bin.push(element.get_u8());
    }

    /// Appends an opcode and one operand octet.
    pub fn add_param(&mut self, mnemonic: Opcode, parameter: u8)
        ensures
            final(self)@ == old(self)@ + seq![mnemonic.code_of(), parameter],
    {
        self.bin.push(mnemonic.to_u8());
        self.bin.push(parameter);
        assert(self.bin@ =~= old(self).bin@ + seq![mnemonic.code_of(), parameter]);
    }

    /// Appends an opcode and an operand word, low octet first.
    pub fn add_param_word(&mut self, mnemonic: Opcode, parameter: u16)
        ensures
            final(self)@ == old(self)@ + seq![
                mnemonic.code_of(),
                octets_of(parameter).1,
                octets_of(parameter).0,
            ],
    {
        let (high, low) = alu::get_octets(parameter);
        self.bin.push(mnemonic.to_u8());
        self.bin.push(low);
        self.bin.push(high);
        assert(self.bin@ =~= old(self).bin@ + seq![
            mnemonic.code_of(),
            octets_of(parameter).1,
            octets_of(parameter).0,
        ]);
    }

    /// Appends an opcode and two operand octets.
    pub fn add_params(&mut self, mnemonic: Opcode, parameter_1: u8, parameter_2: u8)
        ensures
            final(self)@ == old(self)@ + seq![mnemonic.code_of(), parameter_1, parameter_2],
    {
        self.bin.push(mnemonic.to_u8());
        self.bin.push(parameter_1);
        self.bin.push(parameter_2);
        assert(self.bin@ =~= old(self).bin@ + seq![mnemonic.code_of(), parameter_1, parameter_2]);
    }

    /// Appends raw bytes.
    pub fn add_vector(&mut self, parameters: Vec<u8>)
        ensures
            final(self)@ == old(self)@ + parameters@,
    {
        let mut parameters = parameters;
        self.bin.append(&mut parameters);
    }
}

} // verus!
