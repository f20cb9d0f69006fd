//! The mnemonics behind the BITS prefix.

use crate::vm::instructions::bits::opcodes::BitsOpcode;
use vstd::prelude::*;
use vstd::std_specs::convert::FromSpecImpl;

verus! {

/// The mnemonic of an instruction behind the BITS prefix: `RlcB` is RLC B;
/// any other byte has none and is kept as it is.
#[derive(Copy, Clone, Debug, PartialEq, Eq, Structural)]
pub enum BitsMnemonic {
    RlcB,
    Unknown(u8),
}

impl BitsMnemonic {
    /// The mnemonic of an opcode.
    pub open spec fn of(opcode: BitsOpcode) -> BitsMnemonic {
        match opcode {
            BitsOpcode::RlcB => BitsMnemonic::RlcB,
            BitsOpcode::Unknown(byte) => BitsMnemonic::Unknown(byte),
        }
    }
}

impl From<u8> for BitsMnemonic {
    /// The mnemonic of the opcode that a byte encodes.
    fn from(value: u8) -> (mnemonic: BitsMnemonic) {
        match BitsOpcode::from(value) {
            BitsOpcode::RlcB => BitsMnemonic::RlcB,
            BitsOpcode::Unknown(byte) => BitsMnemonic::Unknown(byte),
        }
    }
}

impl FromSpecImpl<u8> for BitsMnemonic {
    open spec fn obeys_from_spec() -> bool {
        true
    }

    open spec fn from_spec(value: u8) -> BitsMnemonic {
        BitsMnemonic::of(BitsOpcode::decoded(value))
    }
}

} // verus!
