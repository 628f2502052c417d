//! A Game Boy emulator: the processor, the memory map and its devices, the cartridge,
//! and the frame loop with its debugger, each with the contract it is proved against.
pub mod cartridge;
pub mod debug;
pub mod emulator;
pub mod soc;

use vstd::prelude::*;

verus! {

/// A register file that keeps F as a plain byte: every pair, AF included, reads back
/// exactly what was written to it.
pub struct Registers {
    pub a: u8,
    pub b: u8,
    pub c: u8,
    pub d: u8,
    pub e: u8,
    pub f: u8,
    pub h: u8,
    pub l: u8,
}

/// The 16-bit value of two 8-bit registers, the first being the high byte.
pub open spec fn byte_pair(high: u8, low: u8) -> u16 {
    (high * 256 + low) as u16
}

impl Registers {
    pub fn get_bc(&self) -> (value: u16)
        ensures
            value == byte_pair(self.b, self.c),
    {
        (self.b as u16) * 256 + (self.c as u16)
    }

    pub fn set_bc(&mut self, value: u16)
        ensures
            *final(self) == (Registers { b: (value / 256) as u8, c: (value % 256) as u8, ..*old(self) }),
    {
        self.b = (value / 256) as u8;
        self.c = (value % 256) as u8;
    }

    pub fn get_af(&self) -> (value: u16)
        ensures
            value == byte_pair(self.a, self.f),
    {
        (self.a as u16) * 256 + (self.f as u16)
    }

    pub fn set_af(&mut self, value: u16)
        ensures
            *final(self) == (Registers { a: (value / 256) as u8, f: (value % 256) as u8, ..*old(self) }),
    {
        self.a = (value / 256) as u8;
        self.f = (value % 256) as u8;
    }

    pub fn get_de(&self) -> (value: u16)
        ensures
            value == byte_pair(self.d, self.e),
    {
        (self.d as u16) * 256 + (self.e as u16)
    }

    pub fn set_de(&mut self, value: u16)
        ensures
            *final(self) == (Registers { d: (value / 256) as u8, e: (value % 256) as u8, ..*old(self) }),
    {
        self.d = (value / 256) as u8;
        self.e = (value % 256) as u8;
    }
}

/// Each pair reads back what was written to it.
pub proof fn lemma_byte_pair_roundtrip(value: u16)
    ensures
        byte_pair((value / 256) as u8, (value % 256) as u8) == value,
{
}

} // verus!
