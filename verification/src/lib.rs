//! An interpreter for an 8-bit microprocessor of the Z80 family: a 64 KiB
//! memory, a register file with a shadow bank, an adder with its flags, the
//! instruction handlers, a dispatcher with hooks and the machine that drives
//! them. The functions are verified against a mathematical model of the
//! machine; the only code taken on trust is the three calls into the `num`
//! crate that give the adder its constants zero and one.

pub mod element;
pub mod program;
pub mod vm;
