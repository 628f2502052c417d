//! The game cartridge: its header, and the memory bank controller that maps its ROM.
pub mod rom;

use vstd::prelude::*;
use crate::cartridge::rom::Rom;

verus! {

pub const CARTRIDGE_TYPE_OFFSET: u16 = 0x147;
pub const CARTRIDGE_ROM_SIZE_OFFSET: u16 = 0x148;
pub const CARTRIDGE_RAM_SIZE_OFFSET: u16 = 0x149;

/// The size of the two ROM banks that the processor sees at once.
pub const ROM_SIZE: usize = 0x8000;

#[allow(non_camel_case_types)]
#[derive(Copy, Clone, Debug, PartialEq, Eq, Structural)]
pub enum MbcType {
    ROM_ONLY,
    MBC_1,
    MBC_1_RAM,
    MBC_1_RAM_BAT,
    MBC_2,
    MBC_2_BAT,
    ROM_RAM,
    ROM_RAM_BAT,
    MMM01,
    MMM01_RAM,
    MMM01_RAM_BAT,
    MBC_3_TIM_BAT,
    MBC_3_TIM_RAM_BAT,
    MBC_3,
    MBC_3_RAM,
    MBC_3_RAM_BAT,
    MBC_5,
    MBC_5_RAM,
    MBC_5_RAM_BAT,
    MBC_5_RUMBLE,
    MBC_5_RUMBLE_RAM,
    MBC_5_RUMBLE_RAM_BAT,
    MBC_6,
    MBC_7,
    CAMERA,
    TAMA_5,
    HUC3,
    HUC1,
}

#[allow(non_camel_case_types)]
#[derive(Copy, Clone, Debug, PartialEq, Eq, Structural)]
pub enum RomSize {
    SIZE_32_KB,
    SIZE_64_KB,
    SIZE_128_KB,
    SIZE_256_KB,
    SIZE_512_KB,
    SIZE_1_MB,
    SIZE_2_MB,
    SIZE_4_MB,
    SIZE_8_MB,
}

#[allow(non_camel_case_types)]
#[derive(Copy, Clone, Debug, PartialEq, Eq, Structural)]
pub enum RamSize {
    NO_RAM,
    SIZE_8_KB,
    SIZE_32_KB,
    SIZE_128_KB,
    SIZE_64_KB,
}

/// The controller type that header byte 0x147 announces.
pub open spec fn mbc_type_of(raw_data: u8) -> Option<MbcType> {
    match raw_data {
        0x00 => Some(MbcType::ROM_ONLY),
        0x01 => Some(MbcType::MBC_1),
        0x02 => Some(MbcType::MBC_1_RAM),
        0x03 => Some(MbcType::MBC_1_RAM_BAT),
        0x05 => Some(MbcType::MBC_2),
        0x06 => Some(MbcType::MBC_2_BAT),
        0x08 => Some(MbcType::ROM_RAM),
        0x09 => Some(MbcType::ROM_RAM_BAT),
        0x0B => Some(MbcType::MMM01),
        0x0C => Some(MbcType::MMM01_RAM),
        0x0D => Some(MbcType::MMM01_RAM_BAT),
        0x0F => Some(MbcType::MBC_3_TIM_BAT),
        0x10 => Some(MbcType::MBC_3_TIM_RAM_BAT),
        0x11 => Some(MbcType::MBC_3),
        0x12 => Some(MbcType::MBC_3_RAM),
        0x13 => Some(MbcType::MBC_3_RAM_BAT),
        0x19 => Some(MbcType::MBC_5),
        0x1A => Some(MbcType::MBC_5_RAM),
        0x1B => Some(MbcType::MBC_5_RAM_BAT),
        0x1C => Some(MbcType::MBC_5_RUMBLE),
        0x1D => Some(MbcType::MBC_5_RUMBLE_RAM),
        0x1E => Some(MbcType::MBC_5_RUMBLE_RAM_BAT),
        0x20 => Some(MbcType::MBC_6),
        0x22 => Some(MbcType::MBC_7),
        0xFC => Some(MbcType::CAMERA),
        0xFD => Some(MbcType::TAMA_5),
        0xFE => Some(MbcType::HUC3),
        0xFF => Some(MbcType::HUC1),
        _ => None,
    }
}

/// The ROM size that header byte 0x148 announces.
pub open spec fn rom_size_of(raw_data: u8) -> Option<RomSize> {
    match raw_data {
        0x00 => Some(RomSize::SIZE_32_KB),
        0x01 => Some(RomSize::SIZE_64_KB),
        0x02 => Some(RomSize::SIZE_128_KB),
        0x03 => Some(RomSize::SIZE_256_KB),
        0x04 => Some(RomSize::SIZE_512_KB),
        0x05 => Some(RomSize::SIZE_1_MB),
        0x06 => Some(RomSize::SIZE_2_MB),
        0x07 => Some(RomSize::SIZE_4_MB),
        0x08 => Some(RomSize::SIZE_8_MB),
        _ => None,
    }
}

/// The RAM size that header byte 0x149 announces.
pub open spec fn ram_size_of(raw_data: u8) -> Option<RamSize> {
    match raw_data {
        0x00 => Some(RamSize::NO_RAM),
        0x02 => Some(RamSize::SIZE_8_KB),
        0x03 => Some(RamSize::SIZE_32_KB),
        0x04 => Some(RamSize::SIZE_128_KB),
        0x05 => Some(RamSize::SIZE_64_KB),
        _ => None,
    }
}

impl RamSize {
    /// The header code of the size.
    pub fn code(self) -> (code: u8)
        ensures
            ram_size_of(code) == Some(self),
    {
        match self {
            RamSize::NO_RAM => 0x00,
            RamSize::SIZE_8_KB => 0x02,
            RamSize::SIZE_32_KB => 0x03,
            RamSize::SIZE_128_KB => 0x04,
            RamSize::SIZE_64_KB => 0x05,
        }
    }
}

/// The cartridge type that header byte 0x147 announces, for a known code.
pub fn get_mbc_type(raw_data: u8) -> (mbc_type: MbcType)
    requires
        mbc_type_of(raw_data) is Some,
    ensures
        Some(mbc_type) == mbc_type_of(raw_data),
{
    match raw_data {
        0x00 => MbcType::ROM_ONLY,
        0x01 => MbcType::MBC_1,
        0x02 => MbcType::MBC_1_RAM,
        0x03 => MbcType::MBC_1_RAM_BAT,
        0x05 => MbcType::MBC_2,
        0x06 => MbcType::MBC_2_BAT,
        0x08 => MbcType::ROM_RAM,
        0x09 => MbcType::ROM_RAM_BAT,
        0x0B => MbcType::MMM01,
        0x0C => MbcType::MMM01_RAM,
        0x0D => MbcType::MMM01_RAM_BAT,
        0x0F => MbcType::MBC_3_TIM_BAT,
        0x10 => MbcType::MBC_3_TIM_RAM_BAT,
        0x11 => MbcType::MBC_3,
        0x12 => MbcType::MBC_3_RAM,
        0x13 => MbcType::MBC_3_RAM_BAT,
        0x19 => MbcType::MBC_5,
        0x1A => MbcType::MBC_5_RAM,
        0x1B => MbcType::MBC_5_RAM_BAT,
        0x1C => MbcType::MBC_5_RUMBLE,
        0x1D => MbcType::MBC_5_RUMBLE_RAM,
        0x1E => MbcType::MBC_5_RUMBLE_RAM_BAT,
        0x20 => MbcType::MBC_6,
        0x22 => MbcType::MBC_7,
        0xFC => MbcType::CAMERA,
        0xFD => MbcType::TAMA_5,
        0xFE => MbcType::HUC3,
        _ => MbcType::HUC1,
    }
}

/// Whether header code `raw_data` is one that `get_mbc_type` knows.
pub fn is_known_mbc_type(raw_data: u8) -> (known: bool)
    ensures
        known == (mbc_type_of(raw_data) is Some),
{
    match raw_data {
        0x00 | 0x01 | 0x02 | 0x03 | 0x05 | 0x06 | 0x08 | 0x09 | 0x0B | 0x0C | 0x0D | 0x0F | 0x10 | 0x11 | 0x12 | 0x13 | 0x19 | 0x1A | 0x1B | 0x1C | 0x1D | 0x1E | 0x20 | 0x22 | 0xFC | 0xFD | 0xFE | 0xFF => true,
        _ => false,
    }
}

/// The ROM size that header byte 0x148 announces, for a known code.
pub fn get_rom_size(raw_data: u8) -> (rom_size: RomSize)
    requires
        rom_size_of(raw_data) is Some,
    ensures
        Some(rom_size) == rom_size_of(raw_data),
{
    match raw_data {
        0x00 => RomSize::SIZE_32_KB,
        0x01 => RomSize::SIZE_64_KB,
        0x02 => RomSize::SIZE_128_KB,
        0x03 => RomSize::SIZE_256_KB,
        0x04 => RomSize::SIZE_512_KB,
        0x05 => RomSize::SIZE_1_MB,
        0x06 => RomSize::SIZE_2_MB,
        0x07 => RomSize::SIZE_4_MB,
        _ => RomSize::SIZE_8_MB,
    }
}

/// Whether header code `raw_data` is one that `get_rom_size` knows.
pub fn is_known_rom_size(raw_data: u8) -> (known: bool)
    ensures
        known == (rom_size_of(raw_data) is Some),
{
    match raw_data {
        0x00 | 0x01 | 0x02 | 0x03 | 0x04 | 0x05 | 0x06 | 0x07 | 0x08 => true,
        _ => false,
    }
}

/// The RAM size that header byte 0x149 announces, for a known code.
pub fn get_ram_size(raw_data: u8) -> (ram_size: RamSize)
    requires
        ram_size_of(raw_data) is Some,
    ensures
        Some(ram_size) == ram_size_of(raw_data),
{
    match raw_data {
        0x00 => RamSize::NO_RAM,
        0x02 => RamSize::SIZE_8_KB,
        0x03 => RamSize::SIZE_32_KB,
        0x04 => RamSize::SIZE_128_KB,
        _ => RamSize::SIZE_64_KB,
    }
}

/// Whether header code `raw_data` is one that `get_ram_size` knows.
pub fn is_known_ram_size(raw_data: u8) -> (known: bool)
    ensures
        known == (ram_size_of(raw_data) is Some),
{
    match raw_data {
        0x00 | 0x02 | 0x03 | 0x04 | 0x05 => true,
        _ => false,
    }
}

/// The memory bank controller of a cartridge: how the processor's ROM and RAM windows
/// reach the cartridge's memory.
pub trait Mbc {
    spec fn is_valid(&self) -> bool;

    spec fn bank_contents(&self) -> Seq<u8>;

    fn read_bank_0(&self, address: usize) -> (data: u8)
        requires
            self.is_valid(),
            address < ROM_SIZE,
    ;

    fn read_bank_n(&self, address: usize) -> (data: u8)
        requires
            self.is_valid(),
            address < ROM_SIZE,
    ;

    fn read_ram(&self, address: usize) -> (data: u8);

    fn write_bank_0(&mut self, address: usize, data: u8)
        requires
            old(self).is_valid(),
            address < ROM_SIZE,
        ensures
            final(self).is_valid(),
    ;

    fn write_bank_n(&mut self, address: usize, data: u8)
        requires
            old(self).is_valid(),
            address < ROM_SIZE,
        ensures
            final(self).is_valid(),
    ;

    fn write_ram(&mut self, address: usize, data: u8)
        requires
            old(self).is_valid(),
        ensures
            final(self).is_valid(),
    ;
}

/// Whether the image can be played: its header names a cartridge without a memory bank
/// controller and known ROM and RAM sizes, and it holds the two ROM banks.
pub open spec fn is_supported(rom: Seq<u8>) -> bool {
    &&& rom.len() >= ROM_SIZE
    &&& mbc_type_of(rom[CARTRIDGE_TYPE_OFFSET as int]) == Some(MbcType::ROM_ONLY)
    &&& rom_size_of(rom[CARTRIDGE_ROM_SIZE_OFFSET as int]) is Some
    &&& ram_size_of(rom[CARTRIDGE_RAM_SIZE_OFFSET as int]) is Some
}

pub struct Cartridge {
    pub mbc: Rom,
}

impl View for Cartridge {
    type V = Seq<u8>;

    open spec fn view(&self) -> Seq<u8> {
        self.mbc@
    }
}

impl Cartridge {
    pub open spec fn wf(&self) -> bool {
        self.mbc.wf()
    }

    /// Whether `new` accepts the image.
    pub fn supports(rom: &[u8]) -> (supported: bool)
        ensures
            supported == is_supported(rom@),
    {
        if rom.len() < ROM_SIZE {
            return false;
        }
        let raw_type = rom[CARTRIDGE_TYPE_OFFSET as usize];
        is_known_mbc_type(raw_type) && get_mbc_type(raw_type) == MbcType::ROM_ONLY
            && is_known_rom_size(rom[CARTRIDGE_ROM_SIZE_OFFSET as usize])
            && is_known_ram_size(rom[CARTRIDGE_RAM_SIZE_OFFSET as usize])
    }

    /// The cartridge of a supported image, holding its two ROM banks.
    pub fn new(rom: &[u8]) -> (cartridge: Cartridge)
        requires
            is_supported(rom@),
        ensures
            cartridge.wf(),
            cartridge@ == rom@.subrange(0, ROM_SIZE as int),
    {
        Cartridge { mbc: Rom::new(rom) }
    }

    /// An empty slot: every byte reads 0xFF.
    pub fn empty() -> (cartridge: Cartridge)
        ensures
            cartridge.wf(),
            cartridge@ == Seq::new(ROM_SIZE as nat, |i: int| 0xFFu8),
    {
        Cartridge { mbc: Rom::blank() }
    }

    pub fn read_bank_0(&self, address: usize) -> (data: u8)
        requires
            self.wf(),
            address < ROM_SIZE,
        ensures
            data == self@[address as int],
    {
        self.mbc.read_bank_0(address)
    }

    pub fn read_ram(&self, address: usize) -> (data: u8)
        ensures
            data == 0xFF,
    {
        self.mbc.read_ram(address)
    }

    pub fn read_bank_n(&self, address: usize) -> (data: u8)
        requires
            self.wf(),
            address < ROM_SIZE,
        ensures
            data == self@[address as int],
    {
        self.mbc.read_bank_n(address)
    }

    pub fn write_bank_0(&mut self, address: usize, data: u8)
        requires
            old(self).wf(),
            address < ROM_SIZE,
        ensures
            final(self).wf(),
            final(self)@ == old(self)@.update(address as int, data),
    {
        self.mbc.write_bank_0(address, data);
    }

    pub fn write_bank_n(&mut self, address: usize, data: u8)
        requires
            old(self).wf(),
            address < ROM_SIZE,
        ensures
            final(self).wf(),
            final(self)@ == old(self)@.update(address as int, data),
    {
        self.mbc.write_bank_n(address, data);
    }

    pub fn write_ram(&mut self, address: usize, data: u8)
        requires
            old(self).wf(),
        ensures
            final(self).wf(),
            final(self)@ == old(self)@,
    {
        self.mbc.write_ram(address, data);
    }
}

} // verus!
