//! The register bank and the selectors that name its parts.

use vstd::prelude::*;

verus! {

/// Names one 8-bit register: the high or the low half of a pair.
#[derive(Clone, Copy, Debug, PartialEq, Eq, Structural)]
pub enum RegisterSelector {
    A,
    F,
    B,
    C,
    D,
    E,
    H,
    L,
}

/// Names a register pair, the stack pointer or the program counter.
#[derive(Clone, Copy, Debug, PartialEq, Eq, Structural)]
pub enum DoubleRegisterSelector {
    AF,
    BC,
    DE,
    HL,
    SP,
    PC,
}

/// Names the pair whose value is used as a memory address.
#[derive(Clone, Copy, Debug, PartialEq, Eq, Structural)]
pub enum AddressSelector {
    BC,
    DE,
    HL,
}

/// Names an 8-bit register that is written.
pub type TargetRegisterSelector = RegisterSelector;

/// Names a pair that is written.
pub type TargetDoubleRegisterSelector = DoubleRegisterSelector;

/// One bank of four register pairs, each stored as (high, low).
#[derive(Clone, Copy, Debug)]
pub struct Registers {
    pub af: (u8, u8),
    pub bc: (u8, u8),
    pub de: (u8, u8),
    pub hl: (u8, u8),
}

impl AddressSelector {
    /// The pair that holds the address.
    pub open spec fn pair(self) -> DoubleRegisterSelector {
        match self {
            AddressSelector::BC => DoubleRegisterSelector::BC,
            AddressSelector::DE => DoubleRegisterSelector::DE,
            AddressSelector::HL => DoubleRegisterSelector::HL,
        }
    }
}

impl Registers {
    /// A bank with every register zero.
    pub fn new() -> (registers: Registers)
        ensures
            registers == (Registers { af: (0, 0), bc: (0, 0), de: (0, 0), hl: (0, 0) }),
    {
        Registers { af: (0x00, 0x00), bc: (0x00, 0x00), de: (0x00, 0x00), hl: (0x00, 0x00) }
    }

    /// Selects the pair AF for reading.
    pub fn af() -> (selector: DoubleRegisterSelector)
        ensures
            selector == DoubleRegisterSelector::AF,
    {
        DoubleRegisterSelector::AF
    }

    /// Selects the pair BC for reading.
    pub fn bc() -> (selector: DoubleRegisterSelector)
        ensures
            selector == DoubleRegisterSelector::BC,
    {
        DoubleRegisterSelector::BC
    }

    /// Selects the pair DE for reading.
    pub fn de() -> (selector: DoubleRegisterSelector)
        ensures
            selector == DoubleRegisterSelector::DE,
    {
        DoubleRegisterSelector::DE
    }

    /// Selects the pair HL for reading.
    pub fn hl() -> (selector: DoubleRegisterSelector)
        ensures
            selector == DoubleRegisterSelector::HL,
    {
        DoubleRegisterSelector::HL
    }

    /// Selects the stack pointer for reading.
    pub fn sp() -> (selector: DoubleRegisterSelector)
        ensures
            selector == DoubleRegisterSelector::SP,
    {
        DoubleRegisterSelector::SP
    }

    /// Selects the register A for reading.
    pub fn a() -> (selector: RegisterSelector)
        ensures
            selector == RegisterSelector::A,
    {
        RegisterSelector::A
    }

    /// Selects the register F for reading.
    pub fn f() -> (selector: RegisterSelector)
        ensures
            selector == RegisterSelector::F,
    {
        RegisterSelector::F
    }

    /// Selects the register B for reading.
    pub fn b() -> (selector: RegisterSelector)
        ensures
            selector == RegisterSelector::B,
    {
        RegisterSelector::B
    }

    /// Selects the register C for reading.
    pub fn c() -> (selector: RegisterSelector)
        ensures
            selector == RegisterSelector::C,
    {
        RegisterSelector::C
    }

    /// Selects the register D for reading.
    pub fn d() -> (selector: RegisterSelector)
        ensures
            selector == RegisterSelector::D,
    {
        RegisterSelector::D
    }

    /// Selects the register E for reading.
    pub fn e() -> (selector: RegisterSelector)
        ensures
            selector == RegisterSelector::E,
    {
        RegisterSelector::E
    }

    /// Selects the register H for reading.
    pub fn h() -> (selector: RegisterSelector)
        ensures
            selector == RegisterSelector::H,
    {
        RegisterSelector::H
    }

    /// Selects the register L for reading.
    pub fn l() -> (selector: RegisterSelector)
        ensures
            selector == RegisterSelector::L,
    {
        RegisterSelector::L
    }

    /// Selects the address that BC holds.
    pub fn address_in_bc() -> (selector: AddressSelector)
        ensures
            selector == AddressSelector::BC,
    {
        AddressSelector::BC
    }

    /// Selects the address that DE holds.
    pub fn address_in_de() -> (selector: AddressSelector)
        ensures
            selector == AddressSelector::DE,
    {
        AddressSelector::DE
    }

    /// Selects the address that HL holds.
    pub fn address_in_hl() -> (selector: AddressSelector)
        ensures
            selector == AddressSelector::HL,
    {
        AddressSelector::HL
    }

    /// Selects the pair AF for writing.
    pub fn into_af() -> (selector: TargetDoubleRegisterSelector)
        ensures
            selector == DoubleRegisterSelector::AF,
    {
        DoubleRegisterSelector::AF
    }

    /// Selects the pair BC for writing.
    pub fn into_bc() -> (selector: TargetDoubleRegisterSelector)
        ensures
            selector == DoubleRegisterSelector::BC,
    {
        DoubleRegisterSelector::BC
    }

    /// Selects the pair DE for writing.
    pub fn into_de() -> (selector: TargetDoubleRegisterSelector)
        ensures
            selector == DoubleRegisterSelector::DE,
    {
        DoubleRegisterSelector::DE
    }

    /// Selects the pair HL for writing.
    pub fn into_hl() -> (selector: TargetDoubleRegisterSelector)
        ensures
            selector == DoubleRegisterSelector::HL,
    {
        DoubleRegisterSelector::HL
    }

    /// Selects the stack pointer for writing.
    pub fn into_sp() -> (selector: TargetDoubleRegisterSelector)
        ensures
            selector == DoubleRegisterSelector::SP,
    {
        DoubleRegisterSelector::SP
    }

    /// Selects the register A for writing.
    pub fn into_a() -> (selector: TargetRegisterSelector)
        ensures
            selector == RegisterSelector::A,
    {
        RegisterSelector::A
    }

    /// Selects the register F for writing.
    pub fn into_f() -> (selector: TargetRegisterSelector)
        ensures
            selector == RegisterSelector::F,
    {
        RegisterSelector::F
    }

    /// Selects the register B for writing.
    pub fn into_b() -> (selector: TargetRegisterSelector)
        ensures
            selector == RegisterSelector::B,
    {
        RegisterSelector::B
    }

    /// Selects the register C for writing.
    pub fn into_c() -> (selector: TargetRegisterSelector)
        ensures
            selector == RegisterSelector::C,
    {
        RegisterSelector::C
    }

    /// Selects the register D for writing.
    pub fn into_d() -> (selector: TargetRegisterSelector)
        ensures
            selector == RegisterSelector::D,
    {
        RegisterSelector::D
    }

    /// Selects the register E for writing.
    pub fn into_e() -> (selector: TargetRegisterSelector)
        ensures
            selector == RegisterSelector::E,
    {
        RegisterSelector::E
    }

    /// Selects the register H for writing.
    pub fn into_h() -> (selector: TargetRegisterSelector)
        ensures
            selector == RegisterSelector::H,
    {
        RegisterSelector::H
    }

    /// Selects the register L for writing.
    pub fn into_l() -> (selector: TargetRegisterSelector)
        ensures
            selector == RegisterSelector::L,
    {
        RegisterSelector::L
    }
}

} // verus!
