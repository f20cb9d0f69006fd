//! The table behind the BITS prefix. None of its instructions has an
//! effect yet: the byte after the prefix is consumed and nothing else
//! happens.

pub mod mnemonics;
pub mod opcodes;

use crate::vm::instructions::bits::mnemonics::BitsMnemonic;
use crate::vm::instructions::bits::opcodes::BitsOpcode;
use crate::vm::machine::{Machine, MachineView};
use vstd::prelude::*;

verus! {

impl MachineView {
    /// An instruction behind the BITS prefix: its byte is consumed.
    #[verifier::opaque]
    pub open spec fn execute_bits(self) -> MachineView {
        self.after_fetch()
    }
}

impl Machine {
    /// Consumes and decodes the byte behind the BITS prefix.
    pub fn execute_bits(&mut self) -> (instruction: BitsMnemonic)
        ensures
            final(self)@ == old(self)@.execute_bits(),
            instruction == BitsMnemonic::of(BitsOpcode::decoded(old(self)@.fetched())),
    {
        reveal(MachineView::execute_bits);
        BitsMnemonic::from(self.next_byte())
    }
}

} // verus!
