//! The memory: 65 536 octets, addressed by a word.

use crate::vm::cpu::alu;
use crate::vm::cpu::alu::{octets_of, word_of};
use vstd::prelude::*;

verus! {

/// The address after `address`; the last address is followed by the first.
pub open spec fn next_address(address: u16) -> u16 {
    if address == 0xFFFF {
        0
    } else {
        (address + 1) as u16
    }
}

/// The word whose low octet is at `address` and whose high octet is at the
/// next address.
pub open spec fn word_at(ram: Seq<u8>, address: u16) -> u16 {
    word_of((ram[next_address(address) as int], ram[address as int]))
}

/// The memory with a word stored at `address`, low octet first.
pub open spec fn with_word_at(ram: Seq<u8>, address: u16, value: u16) -> Seq<u8> {
    ram.update(address as int, octets_of(value).1).update(
        next_address(address) as int,
        octets_of(value).0,
    )
}

/// A flat byte store of 64 KiB. Its view is the sequence of its octets.
pub struct Memory {
    bytes: [u8; 65536],
}

impl View for Memory {
    type V = Seq<u8>;

    closed spec fn view(&self) -> Seq<u8> {
        self.bytes@
    }
}

impl Memory {
    /// A memory of 65 536 zero octets.
    pub fn new() -> (memory: Memory)
        ensures
            memory@ == Seq::new(65536, |i: int| 0u8),
    {
        let memory = Memory { bytes: [0u8; 65536] };
        assert(memory@ =~= Seq::new(65536, |i: int| 0u8));
        memory
    }

    /// Every memory holds exactly 65 536 octets.
    pub proof fn lemma_size(&self)
        ensures
            self@.len() == 65536,
    {
    }

    /// The octet at an address.
    pub fn read_u8(&self, address: u16) -> (value: u8)
        ensures
            value == self@[address as int],
    {
        self.bytes[address as usize]
    }

    /// Stores an octet at an address.
    pub fn write_u8(&mut self, address: u16, value: u8)
        ensures
            final(self)@ == old(self)@.update(address as int, value),
    {
        self.bytes[address as usize] = value;
    }

    /// The word at an address, little-endian.
    pub fn read_u16(&self, address: u16) -> (value: u16)
        ensures
            value == word_at(self@, address),
    {
        let low: u8 = self.read_u8(address);
        let high: u8 = self.read_u8(address.wrapping_add(1));
        alu::get_word((high, low))
    }

    /// Stores a word at an address, little-endian.
    pub fn write_u16(&mut self, address: u16, value: u16)
        ensures
            final(self)@ == with_word_at(old(self)@, address, value),
    {
        let (high, low) = alu::get_octets(value);
        self.write_u8(address, low);
        self.write_u8(address.wrapping_add(1), high);
    }
}

/// An octet written to memory is read back at its address, and every other
/// address reads as before.
pub proof fn lemma_write_then_read(ram: Seq<u8>, address: u16, value: u8, other: u16)
    requires
        ram.len() == 65536,
    ensures
        ram.update(address as int, value)[address as int] == value,
        other != address ==> ram.update(address as int, value)[other as int] == ram[other as int],
{
}

/// A word written to memory is read back at its address, and every address
/// but the two that hold it reads as before.
pub proof fn lemma_write_then_read_word(ram: Seq<u8>, address: u16, value: u16, other: u16)
    requires
        ram.len() == 65536,
    ensures
        word_at(with_word_at(ram, address, value), address) == value,
        other != address && other != next_address(address) ==> with_word_at(
            ram,
            address,
            value,
        )[other as int] == ram[other as int],
        with_word_at(ram, address, value).len() == 65536,
{
    alu::lemma_octets_round_trip(0, 0, value);
}

} // verus!
