//! The opcodes behind the BITS prefix.

use vstd::prelude::*;
use vstd::std_specs::convert::FromSpecImpl;

verus! {

/// An opcode of the table behind the BITS prefix. Only the first entry has a
/// name; any other byte decodes to `Unknown`, which keeps the byte.
#[derive(Copy, Clone, Debug, PartialEq, Eq, Structural)]
pub enum BitsOpcode {
    RlcB,
    Unknown(u8),
}

impl BitsOpcode {
    /// The opcode that a byte encodes.
    pub open spec fn decoded(byte: u8) -> BitsOpcode {
        if byte == 0x00 {
            BitsOpcode::RlcB
        } else {
            BitsOpcode::Unknown(byte)
        }
    }
}

impl From<u8> for BitsOpcode {
    /// Decodes a byte.
    fn from(value: u8) -> (opcode: BitsOpcode) {
        if value == 0x00 {
            BitsOpcode::RlcB
        } else {
            BitsOpcode::Unknown(value)
        }
    }
}

impl FromSpecImpl<u8> for BitsOpcode {
    open spec fn obeys_from_spec() -> bool {
        true
    }

    open spec fn from_spec(value: u8) -> BitsOpcode {
        BitsOpcode::decoded(value)
    }
}

} // verus!
