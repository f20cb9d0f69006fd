//! The single-byte opcodes and their encoding.

use vstd::prelude::*;
use vstd::std_specs::convert::FromSpecImpl;

verus! {

/// An opcode of the unprefixed table. In a name, `X` stands for an immediate
/// octet, `XX` for an immediate word, and `V` for the memory at the address
/// that follows it in the name. `BITS`, `EXTD`, `IX` and `IY` are the four
/// prefix bytes. A byte that the table does not name decodes to `Unknown`,
/// which keeps the byte.
#[derive(Copy, Clone, Debug, PartialEq, Eq, Hash, Structural)]
pub enum Opcode {
    Nop,
    LdBCXX,
    LdVBCA,
    IncBC,
    IncB,
    DecB,
    LdBX,
    RLCA,
    ExAFAF,
    AddHLBC,
    LdAVBC,
    DecBC,
    IncC,
    DecC,
    LdCX,
    RRCA,
    DjNZX,
    LdDEXX,
    LdVDEA,
    IncDE,
    IncD,
    DecD,
    LdDX,
    RLA,
    JrX,
    AddHLDE,
    LdAVDE,
    DecDE,
    IncE,
    DecE,
    LdEX,
    RRA,
    JrNZX,
    LdHLXX,
    LdVXXHL,
    IncHL,
    IncH,
    DecH,
    LdHX,
    JrZX,
    AddHLHL,
    LdHLVXX,
    DecHL,
    IncL,
    DecL,
    LdLX,
    CPL,
    JrNCX,
    LdSPXX,
    LdVXXA,
    IncSP,
    IncVHL,
    DecVHL,
    LdVHLX,
    SCF,
    JrCX,
    AddHLSP,
    LdAVXX,
    DecSP,
    IncA,
    DecA,
    LdAX,
    CCF,
    LdBB,
    LdBC,
    LdBD,
    LdBE,
    LdBH,
    LdBL,
    LdBHL,
    LdBA,
    LdCB,
    LdCC,
    LdCD,
    LdCE,
    LdCH,
    LdCL,
    LdCHL,
    LdCA,
    LdDB,
    LdDC,
    LdDD,
    LdDE,
    LdDH,
    LdDL,
    LdDHL,
    LdDA,
    LdEB,
    LdEC,
    LdED,
    LdEE,
    LdEH,
    LdEL,
    LdEHL,
    LdEA,
    LdHB,
    LdHC,
    LdHD,
    LdHE,
    LdHH,
    LdHL,
    LdHHL,
    LdHA,
    LdLB,
    LdLC,
    LdLD,
    LdLE,
    LdLH,
    LdLL,
    LdLHL,
    LdLA,
    LdHLB,
    LdHLC,
    LdHLD,
    LdHLE,
    LdHLH,
    LdHLL,
    Halt,
    LdHLA,
    LdAB,
    LdAC,
    LdAD,
    LdAE,
    LdAH,
    LdAL,
    LdAHL,
    LdAA,
    AddB,
    AddC,
    AddD,
    AddE,
    AddH,
    AddL,
    AddVHL,
    AddA,
    AdcB,
    AdcC,
    AdcD,
    AdcE,
    AdcH,
    AdcL,
    AdcAVHL,
    AdcA,
    SubB,
    SubC,
    SubD,
    SubE,
    SubH,
    SubL,
    SubVHL,
    SubA,
    SbcB,
    SbcC,
    SbcD,
    SbcE,
    SbcH,
    SbcL,
    SbcAVHL,
    SbcA,
    AndB,
    AndC,
    AndD,
    AndE,
    AndH,
    AndL,
    AndA,
    XorB,
    XorC,
    XorD,
    XorE,
    XorH,
    XorL,
    XorA,
    OrB,
    OrC,
    OrD,
    OrE,
    OrH,
    OrL,
    OrHL,
    OrA,
    CpB,
    CpC,
    CpD,
    CpE,
    CpH,
    CpL,
    CpHL,
    CpA,
    RetNZ,
    PopBC,
    JpNZXX,
    JpXX,
    CallNZXX,
    PushBC,
    AddAX,
    Rst00h,
    RetZ,
    Ret,
    JpZXX,
    BITS,
    CallZXX,
    CallXX,
    AdcAX,
    Rst08h,
    RetNC,
    PopDE,
    JpNCXX,
    OutXA,
    CallNCXX,
    PushDE,
    SubX,
    Rst10h,
    RetC,
    Exx,
    JpCXX,
    InAX,
    CallCXX,
    IX,
    SbcAX,
    Rst18h,
    RetPO,
    PopHL,
    JpPOXX,
    ExVSPHL,
    CallPOXX,
    PushHL,
    AndX,
    Rst20h,
    RetPE,
    JpHL,
    JpPEXX,
    ExDEHL,
    CallPEXX,
    EXTD,
    XorX,
    Rst28h,
    RetP,
    PopAF,
    JpPXX,
    Di,
    CallPXX,
    PushAF,
    OrX,
    Rst30h,
    RetM,
    LdSpHl,
    JpMXX,
    Ei,
    CallMXX,
    IY,
    CpX,
    Rst38h,
    Unknown(u8),
}

impl Opcode {
    /// The opcode that a byte encodes.
    pub open spec fn decoded(byte: u8) -> Opcode {
        match byte {
            0x00 => Opcode::Nop,
            0x01 => Opcode::LdBCXX,
            0x02 => Opcode::LdVBCA,
            0x03 => Opcode::IncBC,
            0x04 => Opcode::IncB,
            0x05 => Opcode::DecB,
            0x06 => Opcode::LdBX,
            0x07 => Opcode::RLCA,
            0x08 => Opcode::ExAFAF,
            0x09 => Opcode::AddHLBC,
            0x0A => Opcode::LdAVBC,
            0x0B => Opcode::DecBC,
            0x0C => Opcode::IncC,
            0x0D => Opcode::DecC,
            0x0E => Opcode::LdCX,
            0x0F => Opcode::RRCA,
            0x10 => Opcode::DjNZX,
            0x11 => Opcode::LdDEXX,
            0x12 => Opcode::LdVDEA,
            0x13 => Opcode::IncDE,
            0x14 => Opcode::IncD,
            0x15 => Opcode::DecD,
            0x16 => Opcode::LdDX,
            0x17 => Opcode::RLA,
            0x18 => Opcode::JrX,
            0x19 => Opcode::AddHLDE,
            0x1A => Opcode::LdAVDE,
            0x1B => Opcode::DecDE,
            0x1C => Opcode::IncE,
            0x1D => Opcode::DecE,
            0x1E => Opcode::LdEX,
            0x1F => Opcode::RRA,
            0x20 => Opcode::JrNZX,
            0x21 => Opcode::LdHLXX,
            0x22 => Opcode::LdVXXHL,
            0x23 => Opcode::IncHL,
            0x24 => Opcode::IncH,
            0x25 => Opcode::DecH,
            0x26 => Opcode::LdHX,
            0x28 => Opcode::JrZX,
            0x29 => Opcode::AddHLHL,
            0x2A => Opcode::LdHLVXX,
            0x2B => Opcode::DecHL,
            0x2C => Opcode::IncL,
            0x2D => Opcode::DecL,
            0x2E => Opcode::LdLX,
            0x2F => Opcode::CPL,
            0x30 => Opcode::JrNCX,
            0x31 => Opcode::LdSPXX,
            0x32 => Opcode::LdVXXA,
            0x33 => Opcode::IncSP,
            0x34 => Opcode::IncVHL,
            0x35 => Opcode::DecVHL,
            0x36 => Opcode::LdVHLX,
            0x37 => Opcode::SCF,
            0x38 => Opcode::JrCX,
            0x39 => Opcode::AddHLSP,
            0x3A => Opcode::LdAVXX,
            0x3B => Opcode::DecSP,
            0x3C => Opcode::IncA,
            0x3D => Opcode::DecA,
            0x3E => Opcode::LdAX,
            0x3F => Opcode::CCF,
            0x40 => Opcode::LdBB,
            0x41 => Opcode::LdBC,
            0x42 => Opcode::LdBD,
            0x43 => Opcode::LdBE,
            0x44 => Opcode::LdBH,
            0x45 => Opcode::LdBL,
            0x46 => Opcode::LdBHL,
            0x47 => Opcode::LdBA,
            0x48 => Opcode::LdCB,
            0x49 => Opcode::LdCC,
            0x4A => Opcode::LdCD,
            0x4B => Opcode::LdCE,
            0x4C => Opcode::LdCH,
            0x4D => Opcode::LdCL,
            0x4E => Opcode::LdCHL,
            0x4F => Opcode::LdCA,
            0x50 => Opcode::LdDB,
            0x51 => Opcode::LdDC,
            0x52 => Opcode::LdDD,
            0x53 => Opcode::LdDE,
            0x54 => Opcode::LdDH,
            0x55 => Opcode::LdDL,
            0x56 => Opcode::LdDHL,
            0x57 => Opcode::LdDA,
            0x58 => Opcode::LdEB,
            0x59 => Opcode::LdEC,
            0x5A => Opcode::LdED,
            0x5B => Opcode::LdEE,
            0x5C => Opcode::LdEH,
            0x5D => Opcode::LdEL,
            0x5E => Opcode::LdEHL,
            0x5F => Opcode::LdEA,
            0x60 => Opcode::LdHB,
            0x61 => Opcode::LdHC,
            0x62 => Opcode::LdHD,
            0x63 => Opcode::LdHE,
            0x64 => Opcode::LdHH,
            0x65 => Opcode::LdHL,
            0x66 => Opcode::LdHHL,
            0x67 => Opcode::LdHA,
            0x68 => Opcode::LdLB,
            0x69 => Opcode::LdLC,
            0x6A => Opcode::LdLD,
            0x6B => Opcode::LdLE,
            0x6C => Opcode::LdLH,
            0x6D => Opcode::LdLL,
            0x6E => Opcode::LdLHL,
            0x6F => Opcode::LdLA,
            0x70 => Opcode::LdHLB,
            0x71 => Opcode::LdHLC,
            0x72 => Opcode::LdHLD,
            0x73 => Opcode::LdHLE,
            0x74 => Opcode::LdHLH,
            0x75 => Opcode::LdHLL,
            0x76 => Opcode::Halt,
            0x77 => Opcode::LdHLA,
            0x78 => Opcode::LdAB,
            0x79 => Opcode::LdAC,
            0x7A => Opcode::LdAD,
            0x7B => Opcode::LdAE,
            0x7C => Opcode::LdAH,
            0x7D => Opcode::LdAL,
            0x7E => Opcode::LdAHL,
            0x7F => Opcode::LdAA,
            0x80 => Opcode::AddB,
            0x81 => Opcode::AddC,
            0x82 => Opcode::AddD,
            0x83 => Opcode::AddE,
            0x84 => Opcode::AddH,
            0x85 => Opcode::AddL,
            0x86 => Opcode::AddVHL,
            0x87 => Opcode::AddA,
            0x88 => Opcode::AdcB,
            0x89 => Opcode::AdcC,
            0x8A => Opcode::AdcD,
            0x8B => Opcode::AdcE,
            0x8C => Opcode::AdcH,
            0x8D => Opcode::AdcL,
            0x8E => Opcode::AdcAVHL,
            0x8F => Opcode::AdcA,
            0x90 => Opcode::SubB,
            0x91 => Opcode::SubC,
            0x92 => Opcode::SubD,
            0x93 => Opcode::SubE,
            0x94 => Opcode::SubH,
            0x95 => Opcode::SubL,
            0x96 => Opcode::SubVHL,
            0x97 => Opcode::SubA,
            0x98 => Opcode::SbcB,
            0x99 => Opcode::SbcC,
            0x9A => Opcode::SbcD,
            0x9B => Opcode::SbcE,
            0x9C => Opcode::SbcH,
            0x9D => Opcode::SbcL,
            0x9E => Opcode::SbcAVHL,
            0x9F => Opcode::SbcA,
            0xA0 => Opcode::AndB,
            0xA1 => Opcode::AndC,
            0xA2 => Opcode::AndD,
            0xA3 => Opcode::AndE,
            0xA4 => Opcode::AndH,
            0xA5 => Opcode::AndL,
            0xA7 => Opcode::AndA,
            0xA8 => Opcode::XorB,
            0xA9 => Opcode::XorC,
            0xAA => Opcode::XorD,
            0xAB => Opcode::XorE,
            0xAC => Opcode::XorH,
            0xAD => Opcode::XorL,
            0xAF => Opcode::XorA,
            0xB0 => Opcode::OrB,
            0xB1 => Opcode::OrC,
            0xB2 => Opcode::OrD,
            0xB3 => Opcode::OrE,
            0xB4 => Opcode::OrH,
            0xB5 => Opcode::OrL,
            0xB6 => Opcode::OrHL,
            0xB7 => Opcode::OrA,
            0xB8 => Opcode::CpB,
            0xB9 => Opcode::CpC,
            0xBA => Opcode::CpD,
            0xBB => Opcode::CpE,
            0xBC => Opcode::CpH,
            0xBD => Opcode::CpL,
            0xBE => Opcode::CpHL,
            0xBF => Opcode::CpA,
            0xC0 => Opcode::RetNZ,
            0xC1 => Opcode::PopBC,
            0xC2 => Opcode::JpNZXX,
            0xC3 => Opcode::JpXX,
            0xC4 => Opcode::CallNZXX,
            0xC5 => Opcode::PushBC,
            0xC6 => Opcode::AddAX,
            0xC7 => Opcode::Rst00h,
            0xC8 => Opcode::RetZ,
            0xC9 => Opcode::Ret,
            0xCA => Opcode::JpZXX,
            0xCB => Opcode::BITS,
            0xCC => Opcode::CallZXX,
            0xCD => Opcode::CallXX,
            0xCE => Opcode::AdcAX,
            0xCF => Opcode::Rst08h,
            0xD0 => Opcode::RetNC,
            0xD1 => Opcode::PopDE,
            0xD2 => Opcode::JpNCXX,
            0xD3 => Opcode::OutXA,
            0xD4 => Opcode::CallNCXX,
            0xD5 => Opcode::PushDE,
            0xD6 => Opcode::SubX,
            0xD7 => Opcode::Rst10h,
            0xD8 => Opcode::RetC,
            0xD9 => Opcode::Exx,
            0xDA => Opcode::JpCXX,
            0xDB => Opcode::InAX,
            0xDC => Opcode::CallCXX,
            0xDD => Opcode::IX,
            0xDE => Opcode::SbcAX,
            0xDF => Opcode::Rst18h,
            0xE0 => Opcode::RetPO,
            0xE1 => Opcode::PopHL,
            0xE2 => Opcode::JpPOXX,
            0xE3 => Opcode::ExVSPHL,
            0xE4 => Opcode::CallPOXX,
            0xE5 => Opcode::PushHL,
            0xE6 => Opcode::AndX,
            0xE7 => Opcode::Rst20h,
            0xE8 => Opcode::RetPE,
            0xE9 => Opcode::JpHL,
            0xEA => Opcode::JpPEXX,
            0xEB => Opcode::ExDEHL,
            0xEC => Opcode::CallPEXX,
            0xED => Opcode::EXTD,
            0xEE => Opcode::XorX,
            0xEF => Opcode::Rst28h,
            0xF0 => Opcode::RetP,
            0xF1 => Opcode::PopAF,
            0xF2 => Opcode::JpPXX,
            0xF3 => Opcode::Di,
            0xF4 => Opcode::CallPXX,
            0xF5 => Opcode::PushAF,
            0xF6 => Opcode::OrX,
            0xF7 => Opcode::Rst30h,
            0xF8 => Opcode::RetM,
            0xF9 => Opcode::LdSpHl,
            0xFA => Opcode::JpMXX,
            0xFB => Opcode::Ei,
            0xFC => Opcode::CallMXX,
            0xFD => Opcode::IY,
            0xFE => Opcode::CpX,
            0xFF => Opcode::Rst38h,
            _ => Opcode::Unknown(byte),
        }
    }

    /// The byte that encodes an opcode.
    pub open spec fn code_of(self) -> u8 {
        match self {
            Opcode::Nop => 0x00,
            Opcode::LdBCXX => 0x01,
            Opcode::LdVBCA => 0x02,
            Opcode::IncBC => 0x03,
            Opcode::IncB => 0x04,
            Opcode::DecB => 0x05,
            Opcode::LdBX => 0x06,
            Opcode::RLCA => 0x07,
            Opcode::ExAFAF => 0x08,
            Opcode::AddHLBC => 0x09,
            Opcode::LdAVBC => 0x0A,
            Opcode::DecBC => 0x0B,
            Opcode::IncC => 0x0C,
            Opcode::DecC => 0x0D,
            Opcode::LdCX => 0x0E,
            Opcode::RRCA => 0x0F,
            Opcode::DjNZX => 0x10,
            Opcode::LdDEXX => 0x11,
            Opcode::LdVDEA => 0x12,
            Opcode::IncDE => 0x13,
            Opcode::IncD => 0x14,
            Opcode::DecD => 0x15,
            Opcode::LdDX => 0x16,
            Opcode::RLA => 0x17,
            Opcode::JrX => 0x18,
            Opcode::AddHLDE => 0x19,
            Opcode::LdAVDE => 0x1A,
            Opcode::DecDE => 0x1B,
            Opcode::IncE => 0x1C,
            Opcode::DecE => 0x1D,
            Opcode::LdEX => 0x1E,
            Opcode::RRA => 0x1F,
            Opcode::JrNZX => 0x20,
            Opcode::LdHLXX => 0x21,
            Opcode::LdVXXHL => 0x22,
            Opcode::IncHL => 0x23,
            Opcode::IncH => 0x24,
            Opcode::DecH => 0x25,
            Opcode::LdHX => 0x26,
            Opcode::JrZX => 0x28,
            Opcode::AddHLHL => 0x29,
            Opcode::LdHLVXX => 0x2A,
            Opcode::DecHL => 0x2B,
            Opcode::IncL => 0x2C,
            Opcode::DecL => 0x2D,
            Opcode::LdLX => 0x2E,
            Opcode::CPL => 0x2F,
            Opcode::JrNCX => 0x30,
            Opcode::LdSPXX => 0x31,
            Opcode::LdVXXA => 0x32,
            Opcode::IncSP => 0x33,
            Opcode::IncVHL => 0x34,
            Opcode::DecVHL => 0x35,
            Opcode::LdVHLX => 0x36,
            Opcode::SCF => 0x37,
            Opcode::JrCX => 0x38,
            Opcode::AddHLSP => 0x39,
            Opcode::LdAVXX => 0x3A,
            Opcode::DecSP => 0x3B,
            Opcode::IncA => 0x3C,
            Opcode::DecA => 0x3D,
            Opcode::LdAX => 0x3E,
            Opcode::CCF => 0x3F,
            Opcode::LdBB => 0x40,
            Opcode::LdBC => 0x41,
            Opcode::LdBD => 0x42,
            Opcode::LdBE => 0x43,
            Opcode::LdBH => 0x44,
            Opcode::LdBL => 0x45,
            Opcode::LdBHL => 0x46,
            Opcode::LdBA => 0x47,
            Opcode::LdCB => 0x48,
            Opcode::LdCC => 0x49,
            Opcode::LdCD => 0x4A,
            Opcode::LdCE => 0x4B,
            Opcode::LdCH => 0x4C,
            Opcode::LdCL => 0x4D,
            Opcode::LdCHL => 0x4E,
            Opcode::LdCA => 0x4F,
            Opcode::LdDB => 0x50,
            Opcode::LdDC => 0x51,
            Opcode::LdDD => 0x52,
            Opcode::LdDE => 0x53,
            Opcode::LdDH => 0x54,
            Opcode::LdDL => 0x55,
            Opcode::LdDHL => 0x56,
            Opcode::LdDA => 0x57,
            Opcode::LdEB => 0x58,
            Opcode::LdEC => 0x59,
            Opcode::LdED => 0x5A,
            Opcode::LdEE => 0x5B,
            Opcode::LdEH => 0x5C,
            Opcode::LdEL => 0x5D,
            Opcode::LdEHL => 0x5E,
            Opcode::LdEA => 0x5F,
            Opcode::LdHB => 0x60,
            Opcode::LdHC => 0x61,
            Opcode::LdHD => 0x62,
            Opcode::LdHE => 0x63,
            Opcode::LdHH => 0x64,
            Opcode::LdHL => 0x65,
            Opcode::LdHHL => 0x66,
            Opcode::LdHA => 0x67,
            Opcode::LdLB => 0x68,
            Opcode::LdLC => 0x69,
            Opcode::LdLD => 0x6A,
            Opcode::LdLE => 0x6B,
            Opcode::LdLH => 0x6C,
            Opcode::LdLL => 0x6D,
            Opcode::LdLHL => 0x6E,
            Opcode::LdLA => 0x6F,
            Opcode::LdHLB => 0x70,
            Opcode::LdHLC => 0x71,
            Opcode::LdHLD => 0x72,
            Opcode::LdHLE => 0x73,
            Opcode::LdHLH => 0x74,
            Opcode::LdHLL => 0x75,
            Opcode::Halt => 0x76,
            Opcode::LdHLA => 0x77,
            Opcode::LdAB => 0x78,
            Opcode::LdAC => 0x79,
            Opcode::LdAD => 0x7A,
            Opcode::LdAE => 0x7B,
            Opcode::LdAH => 0x7C,
            Opcode::LdAL => 0x7D,
            Opcode::LdAHL => 0x7E,
            Opcode::LdAA => 0x7F,
            Opcode::AddB => 0x80,
            Opcode::AddC => 0x81,
            Opcode::AddD => 0x82,
            Opcode::AddE => 0x83,
            Opcode::AddH => 0x84,
            Opcode::AddL => 0x85,
            Opcode::AddVHL => 0x86,
            Opcode::AddA => 0x87,
            Opcode::AdcB => 0x88,
            Opcode::AdcC => 0x89,
            Opcode::AdcD => 0x8A,
            Opcode::AdcE => 0x8B,
            Opcode::AdcH => 0x8C,
            Opcode::AdcL => 0x8D,
            Opcode::AdcAVHL => 0x8E,
            Opcode::AdcA => 0x8F,
            Opcode::SubB => 0x90,
            Opcode::SubC => 0x91,
            Opcode::SubD => 0x92,
            Opcode::SubE => 0x93,
            Opcode::SubH => 0x94,
            Opcode::SubL => 0x95,
            Opcode::SubVHL => 0x96,
            Opcode::SubA => 0x97,
            Opcode::SbcB => 0x98,
            Opcode::SbcC => 0x99,
            Opcode::SbcD => 0x9A,
            Opcode::SbcE => 0x9B,
            Opcode::SbcH => 0x9C,
            Opcode::SbcL => 0x9D,
            Opcode::SbcAVHL => 0x9E,
            Opcode::SbcA => 0x9F,
            Opcode::AndB => 0xA0,
            Opcode::AndC => 0xA1,
            Opcode::AndD => 0xA2,
            Opcode::AndE => 0xA3,
            Opcode::AndH => 0xA4,
            Opcode::AndL => 0xA5,
            Opcode::AndA => 0xA7,
            Opcode::XorB => 0xA8,
            Opcode::XorC => 0xA9,
            Opcode::XorD => 0xAA,
            Opcode::XorE => 0xAB,
            Opcode::XorH => 0xAC,
            Opcode::XorL => 0xAD,
            Opcode::XorA => 0xAF,
            Opcode::OrB => 0xB0,
            Opcode::OrC => 0xB1,
            Opcode::OrD => 0xB2,
            Opcode::OrE => 0xB3,
            Opcode::OrH => 0xB4,
            Opcode::OrL => 0xB5,
            Opcode::OrHL => 0xB6,
            Opcode::OrA => 0xB7,
            Opcode::CpB => 0xB8,
            Opcode::CpC => 0xB9,
            Opcode::CpD => 0xBA,
            Opcode::CpE => 0xBB,
            Opcode::CpH => 0xBC,
            Opcode::CpL => 0xBD,
            Opcode::CpHL => 0xBE,
            Opcode::CpA => 0xBF,
            Opcode::RetNZ => 0xC0,
            Opcode::PopBC => 0xC1,
            Opcode::JpNZXX => 0xC2,
            Opcode::JpXX => 0xC3,
            Opcode::CallNZXX => 0xC4,
            Opcode::PushBC => 0xC5,
            Opcode::AddAX => 0xC6,
            Opcode::Rst00h => 0xC7,
            Opcode::RetZ => 0xC8,
            Opcode::Ret => 0xC9,
            Opcode::JpZXX => 0xCA,
            Opcode::BITS => 0xCB,
            Opcode::CallZXX => 0xCC,
            Opcode::CallXX => 0xCD,
            Opcode::AdcAX => 0xCE,
            Opcode::Rst08h => 0xCF,
            Opcode::RetNC => 0xD0,
            Opcode::PopDE => 0xD1,
            Opcode::JpNCXX => 0xD2,
            Opcode::OutXA => 0xD3,
            Opcode::CallNCXX => 0xD4,
            Opcode::PushDE => 0xD5,
            Opcode::SubX => 0xD6,
            Opcode::Rst10h => 0xD7,
            Opcode::RetC => 0xD8,
            Opcode::Exx => 0xD9,
            Opcode::JpCXX => 0xDA,
            Opcode::InAX => 0xDB,
            Opcode::CallCXX => 0xDC,
            Opcode::IX => 0xDD,
            Opcode::SbcAX => 0xDE,
            Opcode::Rst18h => 0xDF,
            Opcode::RetPO => 0xE0,
            Opcode::PopHL => 0xE1,
            Opcode::JpPOXX => 0xE2,
            Opcode::ExVSPHL => 0xE3,
            Opcode::CallPOXX => 0xE4,
            Opcode::PushHL => 0xE5,
            Opcode::AndX => 0xE6,
            Opcode::Rst20h => 0xE7,
            Opcode::RetPE => 0xE8,
            Opcode::JpHL => 0xE9,
            Opcode::JpPEXX => 0xEA,
            Opcode::ExDEHL => 0xEB,
            Opcode::CallPEXX => 0xEC,
            Opcode::EXTD => 0xED,
            Opcode::XorX => 0xEE,
            Opcode::Rst28h => 0xEF,
            Opcode::RetP => 0xF0,
            Opcode::PopAF => 0xF1,
            Opcode::JpPXX => 0xF2,
            Opcode::Di => 0xF3,
            Opcode::CallPXX => 0xF4,
            Opcode::PushAF => 0xF5,
            Opcode::OrX => 0xF6,
            Opcode::Rst30h => 0xF7,
            Opcode::RetM => 0xF8,
            Opcode::LdSpHl => 0xF9,
            Opcode::JpMXX => 0xFA,
            Opcode::Ei => 0xFB,
            Opcode::CallMXX => 0xFC,
            Opcode::IY => 0xFD,
            Opcode::CpX => 0xFE,
            Opcode::Rst38h => 0xFF,
            Opcode::Unknown(byte) => byte,
        }
    }

    /// Whether the opcode is one that decoding can give: `Unknown` holds only
    /// a byte that the table does not name.
    pub open spec fn is_canonical(self) -> bool {
        self matches Opcode::Unknown(byte) ==> byte == 0x27 || byte == 0xA6 || byte == 0xAE
    }

    /// Encodes an opcode as its byte.
    pub fn to_u8(self) -> (byte: u8)
        ensures
            byte == self.code_of(),
    {
        match self {
            Opcode::Nop => 0x00,
            Opcode::LdBCXX => 0x01,
            Opcode::LdVBCA => 0x02,
            Opcode::IncBC => 0x03,
            Opcode::IncB => 0x04,
            Opcode::DecB => 0x05,
            Opcode::LdBX => 0x06,
            Opcode::RLCA => 0x07,
            Opcode::ExAFAF => 0x08,
            Opcode::AddHLBC => 0x09,
            Opcode::LdAVBC => 0x0A,
            Opcode::DecBC => 0x0B,
            Opcode::IncC => 0x0C,
            Opcode::DecC => 0x0D,
            Opcode::LdCX => 0x0E,
            Opcode::RRCA => 0x0F,
            Opcode::DjNZX => 0x10,
            Opcode::LdDEXX => 0x11,
            Opcode::LdVDEA => 0x12,
            Opcode::IncDE => 0x13,
            Opcode::IncD => 0x14,
            Opcode::DecD => 0x15,
            Opcode::LdDX => 0x16,
            Opcode::RLA => 0x17,
            Opcode::JrX => 0x18,
            Opcode::AddHLDE => 0x19,
            Opcode::LdAVDE => 0x1A,
            Opcode::DecDE => 0x1B,
            Opcode::IncE => 0x1C,
            Opcode::DecE => 0x1D,
            Opcode::LdEX => 0x1E,
            Opcode::RRA => 0x1F,
            Opcode::JrNZX => 0x20,
            Opcode::LdHLXX => 0x21,
            Opcode::LdVXXHL => 0x22,
            Opcode::IncHL => 0x23,
            Opcode::IncH => 0x24,
            Opcode::DecH => 0x25,
            Opcode::LdHX => 0x26,
            Opcode::JrZX => 0x28,
            Opcode::AddHLHL => 0x29,
            Opcode::LdHLVXX => 0x2A,
            Opcode::DecHL => 0x2B,
            Opcode::IncL => 0x2C,
            Opcode::DecL => 0x2D,
            Opcode::LdLX => 0x2E,
            Opcode::CPL => 0x2F,
            Opcode::JrNCX => 0x30,
            Opcode::LdSPXX => 0x31,
            Opcode::LdVXXA => 0x32,
            Opcode::IncSP => 0x33,
            Opcode::IncVHL => 0x34,
            Opcode::DecVHL => 0x35,
            Opcode::LdVHLX => 0x36,
            Opcode::SCF => 0x37,
            Opcode::JrCX => 0x38,
            Opcode::AddHLSP => 0x39,
            Opcode::LdAVXX => 0x3A,
            Opcode::DecSP => 0x3B,
            Opcode::IncA => 0x3C,
            Opcode::DecA => 0x3D,
            Opcode::LdAX => 0x3E,
            Opcode::CCF => 0x3F,
            Opcode::LdBB => 0x40,
            Opcode::LdBC => 0x41,
            Opcode::LdBD => 0x42,
            Opcode::LdBE => 0x43,
            Opcode::LdBH => 0x44,
            Opcode::LdBL => 0x45,
            Opcode::LdBHL => 0x46,
            Opcode::LdBA => 0x47,
            Opcode::LdCB => 0x48,
            Opcode::LdCC => 0x49,
            Opcode::LdCD => 0x4A,
            Opcode::LdCE => 0x4B,
            Opcode::LdCH => 0x4C,
            Opcode::LdCL => 0x4D,
            Opcode::LdCHL => 0x4E,
            Opcode::LdCA => 0x4F,
            Opcode::LdDB => 0x50,
            Opcode::LdDC => 0x51,
            Opcode::LdDD => 0x52,
            Opcode::LdDE => 0x53,
            Opcode::LdDH => 0x54,
            Opcode::LdDL => 0x55,
            Opcode::LdDHL => 0x56,
            Opcode::LdDA => 0x57,
            Opcode::LdEB => 0x58,
            Opcode::LdEC => 0x59,
            Opcode::LdED => 0x5A,
            Opcode::LdEE => 0x5B,
            Opcode::LdEH => 0x5C,
            Opcode::LdEL => 0x5D,
            Opcode::LdEHL => 0x5E,
            Opcode::LdEA => 0x5F,
            Opcode::LdHB => 0x60,
            Opcode::LdHC => 0x61,
            Opcode::LdHD => 0x62,
            Opcode::LdHE => 0x63,
            Opcode::LdHH => 0x64,
            Opcode::LdHL => 0x65,
            Opcode::LdHHL => 0x66,
            Opcode::LdHA => 0x67,
            Opcode::LdLB => 0x68,
            Opcode::LdLC => 0x69,
            Opcode::LdLD => 0x6A,
            Opcode::LdLE => 0x6B,
            Opcode::LdLH => 0x6C,
            Opcode::LdLL => 0x6D,
            Opcode::LdLHL => 0x6E,
            Opcode::LdLA => 0x6F,
            Opcode::LdHLB => 0x70,
            Opcode::LdHLC => 0x71,
            Opcode::LdHLD => 0x72,
            Opcode::LdHLE => 0x73,
            Opcode::LdHLH => 0x74,
            Opcode::LdHLL => 0x75,
            Opcode::Halt => 0x76,
            Opcode::LdHLA => 0x77,
            Opcode::LdAB => 0x78,
            Opcode::LdAC => 0x79,
            Opcode::LdAD => 0x7A,
            Opcode::LdAE => 0x7B,
            Opcode::LdAH => 0x7C,
            Opcode::LdAL => 0x7D,
            Opcode::LdAHL => 0x7E,
            Opcode::LdAA => 0x7F,
            Opcode::AddB => 0x80,
            Opcode::AddC => 0x81,
            Opcode::AddD => 0x82,
            Opcode::AddE => 0x83,
            Opcode::AddH => 0x84,
            Opcode::AddL => 0x85,
            Opcode::AddVHL => 0x86,
            Opcode::AddA => 0x87,
            Opcode::AdcB => 0x88,
            Opcode::AdcC => 0x89,
            Opcode::AdcD => 0x8A,
            Opcode::AdcE => 0x8B,
            Opcode::AdcH => 0x8C,
            Opcode::AdcL => 0x8D,
            Opcode::AdcAVHL => 0x8E,
            Opcode::AdcA => 0x8F,
            Opcode::SubB => 0x90,
            Opcode::SubC => 0x91,
            Opcode::SubD => 0x92,
            Opcode::SubE => 0x93,
            Opcode::SubH => 0x94,
            Opcode::SubL => 0x95,
            Opcode::SubVHL => 0x96,
            Opcode::SubA => 0x97,
            Opcode::SbcB => 0x98,
            Opcode::SbcC => 0x99,
            Opcode::SbcD => 0x9A,
            Opcode::SbcE => 0x9B,
            Opcode::SbcH => 0x9C,
            Opcode::SbcL => 0x9D,
            Opcode::SbcAVHL => 0x9E,
            Opcode::SbcA => 0x9F,
            Opcode::AndB => 0xA0,
            Opcode::AndC => 0xA1,
            Opcode::AndD => 0xA2,
            Opcode::AndE => 0xA3,
            Opcode::AndH => 0xA4,
            Opcode::AndL => 0xA5,
            Opcode::AndA => 0xA7,
            Opcode::XorB => 0xA8,
            Opcode::XorC => 0xA9,
            Opcode::XorD => 0xAA,
            Opcode::XorE => 0xAB,
            Opcode::XorH => 0xAC,
            Opcode::XorL => 0xAD,
            Opcode::XorA => 0xAF,
            Opcode::OrB => 0xB0,
            Opcode::OrC => 0xB1,
            Opcode::OrD => 0xB2,
            Opcode::OrE => 0xB3,
            Opcode::OrH => 0xB4,
            Opcode::OrL => 0xB5,
            Opcode::OrHL => 0xB6,
            Opcode::OrA => 0xB7,
            Opcode::CpB => 0xB8,
            Opcode::CpC => 0xB9,
            Opcode::CpD => 0xBA,
            Opcode::CpE => 0xBB,
            Opcode::CpH => 0xBC,
            Opcode::CpL => 0xBD,
            Opcode::CpHL => 0xBE,
            Opcode::CpA => 0xBF,
            Opcode::RetNZ => 0xC0,
            Opcode::PopBC => 0xC1,
            Opcode::JpNZXX => 0xC2,
            Opcode::JpXX => 0xC3,
            Opcode::CallNZXX => 0xC4,
            Opcode::PushBC => 0xC5,
            Opcode::AddAX => 0xC6,
            Opcode::Rst00h => 0xC7,
            Opcode::RetZ => 0xC8,
            Opcode::Ret => 0xC9,
            Opcode::JpZXX => 0xCA,
            Opcode::BITS => 0xCB,
            Opcode::CallZXX => 0xCC,
            Opcode::CallXX => 0xCD,
            Opcode::AdcAX => 0xCE,
            Opcode::Rst08h => 0xCF,
            Opcode::RetNC => 0xD0,
            Opcode::PopDE => 0xD1,
            Opcode::JpNCXX => 0xD2,
            Opcode::OutXA => 0xD3,
            Opcode::CallNCXX => 0xD4,
            Opcode::PushDE => 0xD5,
            Opcode::SubX => 0xD6,
            Opcode::Rst10h => 0xD7,
            Opcode::RetC => 0xD8,
            Opcode::Exx => 0xD9,
            Opcode::JpCXX => 0xDA,
            Opcode::InAX => 0xDB,
            Opcode::CallCXX => 0xDC,
            Opcode::IX => 0xDD,
            Opcode::SbcAX => 0xDE,
            Opcode::Rst18h => 0xDF,
            Opcode::RetPO => 0xE0,
            Opcode::PopHL => 0xE1,
            Opcode::JpPOXX => 0xE2,
            Opcode::ExVSPHL => 0xE3,
            Opcode::CallPOXX => 0xE4,
            Opcode::PushHL => 0xE5,
            Opcode::AndX => 0xE6,
            Opcode::Rst20h => 0xE7,
            Opcode::RetPE => 0xE8,
            Opcode::JpHL => 0xE9,
            Opcode::JpPEXX => 0xEA,
            Opcode::ExDEHL => 0xEB,
            Opcode::CallPEXX => 0xEC,
            Opcode::EXTD => 0xED,
            Opcode::XorX => 0xEE,
            Opcode::Rst28h => 0xEF,
            Opcode::RetP => 0xF0,
            Opcode::PopAF => 0xF1,
            Opcode::JpPXX => 0xF2,
            Opcode::Di => 0xF3,
            Opcode::CallPXX => 0xF4,
            Opcode::PushAF => 0xF5,
            Opcode::OrX => 0xF6,
            Opcode::Rst30h => 0xF7,
            Opcode::RetM => 0xF8,
            Opcode::LdSpHl => 0xF9,
            Opcode::JpMXX => 0xFA,
            Opcode::Ei => 0xFB,
            Opcode::CallMXX => 0xFC,
            Opcode::IY => 0xFD,
            Opcode::CpX => 0xFE,
            Opcode::Rst38h => 0xFF,
            Opcode::Unknown(byte) => byte,
        }
    }

    /// Encoding inverts decoding: every byte decodes to a canonical opcode
    /// that encodes to the byte again.
    pub proof fn lemma_decode_then_encode(byte: u8)
        ensures
            Opcode::decoded(byte).code_of() == byte,
            Opcode::decoded(byte).is_canonical(),
    {
    }

    /// Decoding inverts encoding on the canonical opcodes.
    pub proof fn lemma_encode_then_decode(opcode: Opcode)
        requires
            opcode.is_canonical(),
        ensures
            Opcode::decoded(opcode.code_of()) == opcode,
    {
    }
}

impl From<u8> for Opcode {
    /// Decodes a byte by table lookup.
    fn from(value: u8) -> (opcode: Opcode) {
        match value {
            0x00 => Opcode::Nop,
            0x01 => Opcode::LdBCXX,
            0x02 => Opcode::LdVBCA,
            0x03 => Opcode::IncBC,
            0x04 => Opcode::IncB,
            0x05 => Opcode::DecB,
            0x06 => Opcode::LdBX,
            0x07 => Opcode::RLCA,
            0x08 => Opcode::ExAFAF,
            0x09 => Opcode::AddHLBC,
            0x0A => Opcode::LdAVBC,
            0x0B => Opcode::DecBC,
            0x0C => Opcode::IncC,
            0x0D => Opcode::DecC,
            0x0E => Opcode::LdCX,
            0x0F => Opcode::RRCA,
            0x10 => Opcode::DjNZX,
            0x11 => Opcode::LdDEXX,
            0x12 => Opcode::LdVDEA,
            0x13 => Opcode::IncDE,
            0x14 => Opcode::IncD,
            0x15 => Opcode::DecD,
            0x16 => Opcode::LdDX,
            0x17 => Opcode::RLA,
            0x18 => Opcode::JrX,
            0x19 => Opcode::AddHLDE,
            0x1A => Opcode::LdAVDE,
            0x1B => Opcode::DecDE,
            0x1C => Opcode::IncE,
            0x1D => Opcode::DecE,
            0x1E => Opcode::LdEX,
            0x1F => Opcode::RRA,
            0x20 => Opcode::JrNZX,
            0x21 => Opcode::LdHLXX,
            0x22 => Opcode::LdVXXHL,
            0x23 => Opcode::IncHL,
            0x24 => Opcode::IncH,
            0x25 => Opcode::DecH,
            0x26 => Opcode::LdHX,
            0x28 => Opcode::JrZX,
            0x29 => Opcode::AddHLHL,
            0x2A => Opcode::LdHLVXX,
            0x2B => Opcode::DecHL,
            0x2C => Opcode::IncL,
            0x2D => Opcode::DecL,
            0x2E => Opcode::LdLX,
            0x2F => Opcode::CPL,
            0x30 => Opcode::JrNCX,
            0x31 => Opcode::LdSPXX,
            0x32 => Opcode::LdVXXA,
            0x33 => Opcode::IncSP,
            0x34 => Opcode::IncVHL,
            0x35 => Opcode::DecVHL,
            0x36 => Opcode::LdVHLX,
            0x37 => Opcode::SCF,
            0x38 => Opcode::JrCX,
            0x39 => Opcode::AddHLSP,
            0x3A => Opcode::LdAVXX,
            0x3B => Opcode::DecSP,
            0x3C => Opcode::IncA,
            0x3D => Opcode::DecA,
            0x3E => Opcode::LdAX,
            0x3F => Opcode::CCF,
            0x40 => Opcode::LdBB,
            0x41 => Opcode::LdBC,
            0x42 => Opcode::LdBD,
            0x43 => Opcode::LdBE,
            0x44 => Opcode::LdBH,
            0x45 => Opcode::LdBL,
            0x46 => Opcode::LdBHL,
            0x47 => Opcode::LdBA,
            0x48 => Opcode::LdCB,
            0x49 => Opcode::LdCC,
            0x4A => Opcode::LdCD,
            0x4B => Opcode::LdCE,
            0x4C => Opcode::LdCH,
            0x4D => Opcode::LdCL,
            0x4E => Opcode::LdCHL,
            0x4F => Opcode::LdCA,
            0x50 => Opcode::LdDB,
            0x51 => Opcode::LdDC,
            0x52 => Opcode::LdDD,
            0x53 => Opcode::LdDE,
            0x54 => Opcode::LdDH,
            0x55 => Opcode::LdDL,
            0x56 => Opcode::LdDHL,
            0x57 => Opcode::LdDA,
            0x58 => Opcode::LdEB,
            0x59 => Opcode::LdEC,
            0x5A => Opcode::LdED,
            0x5B => Opcode::LdEE,
            0x5C => Opcode::LdEH,
            0x5D => Opcode::LdEL,
            0x5E => Opcode::LdEHL,
            0x5F => Opcode::LdEA,
            0x60 => Opcode::LdHB,
            0x61 => Opcode::LdHC,
            0x62 => Opcode::LdHD,
            0x63 => Opcode::LdHE,
            0x64 => Opcode::LdHH,
            0x65 => Opcode::LdHL,
            0x66 => Opcode::LdHHL,
            0x67 => Opcode::LdHA,
            0x68 => Opcode::LdLB,
            0x69 => Opcode::LdLC,
            0x6A => Opcode::LdLD,
            0x6B => Opcode::LdLE,
            0x6C => Opcode::LdLH,
            0x6D => Opcode::LdLL,
            0x6E => Opcode::LdLHL,
            0x6F => Opcode::LdLA,
            0x70 => Opcode::LdHLB,
            0x71 => Opcode::LdHLC,
            0x72 => Opcode::LdHLD,
            0x73 => Opcode::LdHLE,
            0x74 => Opcode::LdHLH,
            0x75 => Opcode::LdHLL,
            0x76 => Opcode::Halt,
            0x77 => Opcode::LdHLA,
            0x78 => Opcode::LdAB,
            0x79 => Opcode::LdAC,
            0x7A => Opcode::LdAD,
            0x7B => Opcode::LdAE,
            0x7C => Opcode::LdAH,
            0x7D => Opcode::LdAL,
            0x7E => Opcode::LdAHL,
            0x7F => Opcode::LdAA,
            0x80 => Opcode::AddB,
            0x81 => Opcode::AddC,
            0x82 => Opcode::AddD,
            0x83 => Opcode::AddE,
            0x84 => Opcode::AddH,
            0x85 => Opcode::AddL,
            0x86 => Opcode::AddVHL,
            0x87 => Opcode::AddA,
            0x88 => Opcode::AdcB,
            0x89 => Opcode::AdcC,
            0x8A => Opcode::AdcD,
            0x8B => Opcode::AdcE,
            0x8C => Opcode::AdcH,
            0x8D => Opcode::AdcL,
            0x8E => Opcode::AdcAVHL,
            0x8F => Opcode::AdcA,
            0x90 => Opcode::SubB,
            0x91 => Opcode::SubC,
            0x92 => Opcode::SubD,
            0x93 => Opcode::SubE,
            0x94 => Opcode::SubH,
            0x95 => Opcode::SubL,
            0x96 => Opcode::SubVHL,
            0x97 => Opcode::SubA,
            0x98 => Opcode::SbcB,
            0x99 => Opcode::SbcC,
            0x9A => Opcode::SbcD,
            0x9B => Opcode::SbcE,
            0x9C => Opcode::SbcH,
            0x9D => Opcode::SbcL,
            0x9E => Opcode::SbcAVHL,
            0x9F => Opcode::SbcA,
            0xA0 => Opcode::AndB,
            0xA1 => Opcode::AndC,
            0xA2 => Opcode::AndD,
            0xA3 => Opcode::AndE,
            0xA4 => Opcode::AndH,
            0xA5 => Opcode::AndL,
            0xA7 => Opcode::AndA,
            0xA8 => Opcode::XorB,
            0xA9 => Opcode::XorC,
            0xAA => Opcode::XorD,
            0xAB => Opcode::XorE,
            0xAC => Opcode::XorH,
            0xAD => Opcode::XorL,
            0xAF => Opcode::XorA,
            0xB0 => Opcode::OrB,
            0xB1 => Opcode::OrC,
            0xB2 => Opcode::OrD,
            0xB3 => Opcode::OrE,
            0xB4 => Opcode::OrH,
            0xB5 => Opcode::OrL,
            0xB6 => Opcode::OrHL,
            0xB7 => Opcode::OrA,
            0xB8 => Opcode::CpB,
            0xB9 => Opcode::CpC,
            0xBA => Opcode::CpD,
            0xBB => Opcode::CpE,
            0xBC => Opcode::CpH,
            0xBD => Opcode::CpL,
            0xBE => Opcode::CpHL,
            0xBF => Opcode::CpA,
            0xC0 => Opcode::RetNZ,
            0xC1 => Opcode::PopBC,
            0xC2 => Opcode::JpNZXX,
            0xC3 => Opcode::JpXX,
            0xC4 => Opcode::CallNZXX,
            0xC5 => Opcode::PushBC,
            0xC6 => Opcode::AddAX,
            0xC7 => Opcode::Rst00h,
            0xC8 => Opcode::RetZ,
            0xC9 => Opcode::Ret,
            0xCA => Opcode::JpZXX,
            0xCB => Opcode::BITS,
            0xCC => Opcode::CallZXX,
            0xCD => Opcode::CallXX,
            0xCE => Opcode::AdcAX,
            0xCF => Opcode::Rst08h,
            0xD0 => Opcode::RetNC,
            0xD1 => Opcode::PopDE,
            0xD2 => Opcode::JpNCXX,
            0xD3 => Opcode::OutXA,
            0xD4 => Opcode::CallNCXX,
            0xD5 => Opcode::PushDE,
            0xD6 => Opcode::SubX,
            0xD7 => Opcode::Rst10h,
            0xD8 => Opcode::RetC,
            0xD9 => Opcode::Exx,
            0xDA => Opcode::JpCXX,
            0xDB => Opcode::InAX,
            0xDC => Opcode::CallCXX,
            0xDD => Opcode::IX,
            0xDE => Opcode::SbcAX,
            0xDF => Opcode::Rst18h,
            0xE0 => Opcode::RetPO,
            0xE1 => Opcode::PopHL,
            0xE2 => Opcode::JpPOXX,
            0xE3 => Opcode::ExVSPHL,
            0xE4 => Opcode::CallPOXX,
            0xE5 => Opcode::PushHL,
            0xE6 => Opcode::AndX,
            0xE7 => Opcode::Rst20h,
            0xE8 => Opcode::RetPE,
            0xE9 => Opcode::JpHL,
            0xEA => Opcode::JpPEXX,
            0xEB => Opcode::ExDEHL,
            0xEC => Opcode::CallPEXX,
            0xED => Opcode::EXTD,
            0xEE => Opcode::XorX,
            0xEF => Opcode::Rst28h,
            0xF0 => Opcode::RetP,
            0xF1 => Opcode::PopAF,
            0xF2 => Opcode::JpPXX,
            0xF3 => Opcode::Di,
            0xF4 => Opcode::CallPXX,
            0xF5 => Opcode::PushAF,
            0xF6 => Opcode::OrX,
            0xF7 => Opcode::Rst30h,
            0xF8 => Opcode::RetM,
            0xF9 => Opcode::LdSpHl,
            0xFA => Opcode::JpMXX,
            0xFB => Opcode::Ei,
            0xFC => Opcode::CallMXX,
            0xFD => Opcode::IY,
            0xFE => Opcode::CpX,
            0xFF => Opcode::Rst38h,
            _ => Opcode::Unknown(value),
        }
    }
}

impl FromSpecImpl<u8> for Opcode {
    open spec fn obeys_from_spec() -> bool {
        true
    }

    open spec fn from_spec(value: u8) -> Opcode {
        Opcode::decoded(value)
    }
}

} // verus!
