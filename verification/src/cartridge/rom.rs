//! The cartridge without a memory bank controller: 32 KiB of ROM mapped as is.
use vstd::prelude::*;
use crate::cartridge::{Mbc, ROM_SIZE};

verus! {

pub struct Rom {
    pub rom_bank: Vec<u8>,
}

impl View for Rom {
    type V = Seq<u8>;

    open spec fn view(&self) -> Seq<u8> {
        self.rom_bank@
    }
}

impl Rom {
    pub open spec fn wf(&self) -> bool {
        self.rom_bank@.len() == ROM_SIZE
    }

    /// Copies the first 32 KiB of the image.
    pub fn new(rom: &[u8]) -> (mbc: Rom)
        requires
            rom@.len() >= ROM_SIZE,
        ensures
            mbc.wf(),
            mbc@ == rom@.subrange(0, ROM_SIZE as int),
    {
        let mut rom_bank: Vec<u8> = Vec::with_capacity(ROM_SIZE);
        let mut rom_index: usize = 0;
        while rom_index < ROM_SIZE
            invariant
                rom@.len() >= ROM_SIZE,
                rom_index <= ROM_SIZE,
                rom_bank@ == rom@.subrange(0, rom_index as int),
            decreases ROM_SIZE - rom_index,
        {
            rom_bank.push(rom[rom_index]);
            rom_index = rom_index + 1;
        }
        Rom { rom_bank }
    }

    /// An image whose bytes all read 0xFF, as an empty slot does.
    pub fn blank() -> (mbc: Rom)
        ensures
            mbc.wf(),
            mbc@ == Seq::new(ROM_SIZE as nat, |i: int| 0xFFu8),
    {
        let rom_bank = vec![0xFFu8; ROM_SIZE];
        assert(rom_bank@ =~= Seq::new(ROM_SIZE as nat, |i: int| 0xFFu8));
        Rom { rom_bank }
    }
}

impl Mbc for Rom {
    open spec fn is_valid(&self) -> bool {
        self.wf()
    }

    open spec fn bank_contents(&self) -> Seq<u8> {
        self@
    }

    fn read_bank_0(&self, address: usize) -> (data: u8)
        ensures
            data == self@[address as int],
    {
        self.rom_bank[address]
    }

    fn read_bank_n(&self, address: usize) -> (data: u8)
        ensures
            data == self@[address as int],
    {
        self.rom_bank[address]
    }

    /// There is no RAM on such a cartridge: it reads 0xFF.
    fn read_ram(&self, address: usize) -> (data: u8)
        ensures
            data == 0xFF,
    {
        0xFF
    }

    fn write_bank_0(&mut self, address: usize, data: u8)
        ensures
            final(self)@ == old(self)@.update(address as int, data),
    {
        self.rom_bank.set(address, data);
    }

    fn write_bank_n(&mut self, address: usize, data: u8)
        ensures
            final(self)@ == old(self)@.update(address as int, data),
    {
        self.rom_bank.set(address, data);
    }

    /// There is no RAM on such a cartridge: the write is dropped.
    fn write_ram(&mut self, address: usize, data: u8)
        ensures
            final(self)@ == old(self)@,
    {
    }
}

} // verus!
