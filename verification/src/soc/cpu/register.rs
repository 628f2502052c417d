//! The LR35902 register file: eight 8-bit registers, paired into 16-bit
//! views (AF, BC, DE, HL), and the flag register F.
use vstd::prelude::*;

verus! {

pub const ZERO_BIT: u8 = 7;
pub const SUBSTRACTION_BIT: u8 = 6;
pub const HALF_CARRY_BIT: u8 = 5;
pub const CARRY_BIT: u8 = 4;

/// The four flags of the F register (bits 7 to 4).
#[derive(Copy, Clone, Debug, PartialEq, Eq, Structural)]
pub struct FlagRegister {
    pub zero: bool,
    pub substraction: bool,
    pub half_carry: bool,
    pub carry: bool,
}

/// The byte that stores the flags: Z in bit 7, N in bit 6, H in bit 5, C in bit 4,
/// the low nibble always clear.
pub open spec fn flags_to_byte(flag: FlagRegister) -> u8 {
    ((if flag.zero { 0x80u8 } else { 0u8 }) | (if flag.substraction { 0x40u8 } else { 0u8 })
        | (if flag.half_carry { 0x20u8 } else { 0u8 }) | (if flag.carry { 0x10u8 } else { 0u8 }))
}

/// The flags that a byte stores in its upper nibble.
pub open spec fn flags_from_byte(byte: u8) -> FlagRegister {
    FlagRegister {
        zero: byte & 0x80 != 0,
        substraction: byte & 0x40 != 0,
        half_carry: byte & 0x20 != 0,
        carry: byte & 0x10 != 0,
    }
}

impl FlagRegister {
    pub fn new() -> (flags: FlagRegister)
        ensures
            flags == (FlagRegister { zero: false, substraction: false, half_carry: false, carry: false }),
    {
        FlagRegister { zero: false, substraction: false, half_carry: false, carry: false }
    }

    pub fn to_byte(self) -> (byte: u8)
        ensures
            byte == flags_to_byte(self),
    {
        (if self.zero { 0x80u8 } else { 0u8 }) | (if self.substraction { 0x40u8 } else { 0u8 })
            | (if self.half_carry { 0x20u8 } else { 0u8 }) | (if self.carry { 0x10u8 } else { 0u8 })
    }

    pub fn from_byte(byte: u8) -> (flags: FlagRegister)
        ensures
            flags == flags_from_byte(byte),
    {
        FlagRegister {
            zero: byte & 0x80 != 0,
            substraction: byte & 0x40 != 0,
            half_carry: byte & 0x20 != 0,
            carry: byte & 0x10 != 0,
        }
    }
}

impl core::convert::From<FlagRegister> for u8 {
    fn from(flag: FlagRegister) -> (byte: u8) {
        flag.to_byte()
    }
}

impl vstd::std_specs::convert::FromSpecImpl<FlagRegister> for u8 {
    open spec fn obeys_from_spec() -> bool {
        true
    }

    open spec fn from_spec(flag: FlagRegister) -> u8 {
        flags_to_byte(flag)
    }
}

impl core::convert::From<u8> for FlagRegister {
    fn from(byte: u8) -> (flags: FlagRegister) {
        FlagRegister::from_byte(byte)
    }
}

impl vstd::std_specs::convert::FromSpecImpl<u8> for FlagRegister {
    open spec fn obeys_from_spec() -> bool {
        true
    }

    open spec fn from_spec(byte: u8) -> FlagRegister {
        flags_from_byte(byte)
    }
}

/// Decoding the byte that stores some flags gives those flags back.
pub proof fn lemma_flags_byte_roundtrip(flag: FlagRegister)
    ensures
        flags_from_byte(flags_to_byte(flag)) == flag,
{
    let z = flag.zero;
    let n = flag.substraction;
    let h = flag.half_carry;
    let c = flag.carry;
    assert(({
        let b = ((if z { 0x80u8 } else { 0u8 }) | (if n { 0x40u8 } else { 0u8 }) | (if h { 0x20u8 } else { 0u8 }) | (if c { 0x10u8 } else { 0u8 }));
        &&& (b & 0x80 != 0) == z
        &&& (b & 0x40 != 0) == n
        &&& (b & 0x20 != 0) == h
        &&& (b & 0x10 != 0) == c
    })) by (bit_vector);
}

/// Storing the flags that a byte holds keeps its upper nibble and clears the lower one.
pub proof fn lemma_byte_flags_roundtrip(byte: u8)
    ensures
        flags_to_byte(flags_from_byte(byte)) == byte & 0xF0,
{
    assert(((if byte & 0x80 != 0 { 0x80u8 } else { 0u8 }) | (if byte & 0x40 != 0 { 0x40u8 } else { 0u8 })
        | (if byte & 0x20 != 0 { 0x20u8 } else { 0u8 }) | (if byte & 0x10 != 0 { 0x10u8 } else { 0u8 }))
        == byte & 0xF0) by (bit_vector);
}

#[derive(Copy, Clone, Debug, PartialEq, Eq, Structural)]
pub struct Registers {
    pub a: u8,
    pub b: u8,
    pub c: u8,
    pub d: u8,
    pub e: u8,
    pub f: FlagRegister,
    pub h: u8,
    pub l: u8,
}

/// The 16-bit value of a register pair, the first register being the high byte.
pub open spec fn pair(high: u8, low: u8) -> u16 {
    (high * 256 + low) as u16
}

pub open spec fn high_byte(value: u16) -> u8 {
    (value / 256) as u8
}

pub open spec fn low_byte(value: u16) -> u8 {
    (value % 256) as u8
}

impl Registers {
    pub open spec fn bc(self) -> u16 {
        pair(self.b, self.c)
    }

    pub open spec fn de(self) -> u16 {
        pair(self.d, self.e)
    }

    pub open spec fn hl(self) -> u16 {
        pair(self.h, self.l)
    }

    pub open spec fn af(self) -> u16 {
        pair(self.a, flags_to_byte(self.f))
    }

    pub open spec fn with_bc(self, value: u16) -> Registers {
        Registers { b: high_byte(value), c: low_byte(value), ..self }
    }

    pub open spec fn with_de(self, value: u16) -> Registers {
        Registers { d: high_byte(value), e: low_byte(value), ..self }
    }

    pub open spec fn with_hl(self, value: u16) -> Registers {
        Registers { h: high_byte(value), l: low_byte(value), ..self }
    }

    pub open spec fn with_af(self, value: u16) -> Registers {
        Registers { a: high_byte(value), f: flags_from_byte(low_byte(value)), ..self }
    }

    pub fn new() -> (regs: Registers)
        ensures
            regs == (Registers {
                a: 0,
                b: 0,
                c: 0,
                d: 0,
                e: 0,
                f: FlagRegister { zero: false, substraction: false, half_carry: false, carry: false },
                h: 0,
                l: 0,
            }),
    {
        Registers { a: 0, b: 0, c: 0, d: 0, e: 0, f: FlagRegister::new(), h: 0, l: 0 }
    }

    pub fn read_bc(&self) -> (value: u16)
        ensures
            value == self.bc(),
    {
        (self.b as u16) * 256 + (self.c as u16)
    }

    pub fn write_bc(&mut self, value: u16)
        ensures
            *final(self) == old(self).with_bc(value),
    {
        self.b = (value / 256) as u8;
        self.c = (value % 256) as u8;
    }

    pub fn read_af(&self) -> (value: u16)
        ensures
            value == self.af(),
    {
        (self.a as u16) * 256 + (self.f.to_byte() as u16)
    }

    pub fn write_af(&mut self, value: u16)
        ensures
            *final(self) == old(self).with_af(value),
    {
        self.a = (value / 256) as u8;
        self.f = FlagRegister::from_byte((value % 256) as u8);
    }

    pub fn read_de(&self) -> (value: u16)
        ensures
            value == self.de(),
    {
        (self.d as u16) * 256 + (self.e as u16)
    }

    pub fn write_de(&mut self, value: u16)
        ensures
            *final(self) == old(self).with_de(value),
    {
        self.d = (value / 256) as u8;
        self.e = (value % 256) as u8;
    }

    pub fn read_hl(&self) -> (value: u16)
        ensures
            value == self.hl(),
    {
        (self.h as u16) * 256 + (self.l as u16)
    }

    pub fn write_hl(&mut self, value: u16)
        ensures
            *final(self) == old(self).with_hl(value),
    {
        self.h = (value / 256) as u8;
        self.l = (value % 256) as u8;
    }
}

/// Reading a register pair gives back what was written to it (BC, DE, HL).
pub proof fn lemma_pair_roundtrip(regs: Registers, value: u16)
    ensures
        regs.with_bc(value).bc() == value,
        regs.with_de(value).de() == value,
        regs.with_hl(value).hl() == value,
{
}

/// Reading AF gives back what was written to it, but for the low nibble of F, which
/// always reads as zero.
pub proof fn lemma_af_roundtrip(regs: Registers, value: u16)
    ensures
        regs.with_af(value).af() == value - value % 16,
{
    lemma_byte_flags_roundtrip(low_byte(value));
    let lo = low_byte(value);
    assert(lo & 0xF0 == lo - lo % 16) by (bit_vector);
}

} // verus!
