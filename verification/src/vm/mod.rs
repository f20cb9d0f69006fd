use vstd::prelude::*;

pub mod callbacks;
pub mod cpu;
pub mod instructions;
pub mod machine;
pub mod ram;

verus! {

/// An 8-bit register.
pub type Register = u8;

/// A register pair, stored as (high, low).
pub type DoubleRegister = (u8, u8);

/// A 16-bit memory address.
pub type Address = u16;

} // verus!
