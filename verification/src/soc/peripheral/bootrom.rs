//! The 256-byte boot program, mapped over the start of the cartridge ROM until the
//! program unmaps it.
use vstd::prelude::*;

verus! {

pub const BOOT_ROM_SIZE: usize = 256;

pub struct BootRom {
    pub rom: Vec<u8>,
    pub enabled: bool,
}

pub ghost struct BootRomView {
    pub rom: Seq<u8>,
    pub enabled: bool,
}

impl View for BootRom {
    type V = BootRomView;

    open spec fn view(&self) -> BootRomView {
        BootRomView { rom: self.rom@, enabled: self.enabled }
    }
}

impl BootRom {
    pub open spec fn wf(&self) -> bool {
        self.rom@.len() == BOOT_ROM_SIZE
    }

    pub fn new() -> (boot_rom: BootRom)
        ensures
            boot_rom.wf(),
            boot_rom@ == (BootRomView { rom: Seq::new(256, |i: int| 0xFFu8), enabled: false }),
    {
        let rom = vec![0xFFu8; BOOT_ROM_SIZE];
        let boot_rom = BootRom { rom, enabled: false };
        assert(boot_rom.rom@ =~= Seq::new(256, |i: int| 0xFFu8));
        boot_rom
    }

    pub fn read(&self, address: u16) -> (data: u8)
        requires
            self.wf(),
            address < BOOT_ROM_SIZE,
        ensures
            data == self.rom@[address as int],
    {
        self.rom[address as usize]
    }

    /// Copies the boot program and maps it.
    pub fn load(&mut self, boot_rom: &[u8])
        requires
            boot_rom@.len() == BOOT_ROM_SIZE,
        ensures
            final(self).wf(),
            final(self)@ == (BootRomView { rom: boot_rom@, enabled: true }),
    {
        let mut rom_data: Vec<u8> = Vec::new();
        let mut index: usize = 0;
        while index < BOOT_ROM_SIZE
            invariant
                index <= BOOT_ROM_SIZE,
                boot_rom@.len() == BOOT_ROM_SIZE,
                rom_data@ == boot_rom@.subrange(0, index as int),
            decreases BOOT_ROM_SIZE - index,
        {
            rom_data.push(boot_rom[index]);
            index = index + 1;
        }
        assert(rom_data@ =~= boot_rom@);
        self.rom = rom_data;
        // enable memory once load is complete
        self.enabled = true;
    }

    pub fn set_state(&mut self, state: bool)
        ensures
            final(self)@ == (BootRomView { enabled: state, ..old(self)@ }),
            final(self).rom@ == old(self).rom@,
    {
        self.enabled = state;
    }

    pub fn get_state(&self) -> (state: bool)
        ensures
            state == self.enabled,
    {
        self.enabled
    }
}

} // verus!
