//! The memory map of the machine and the devices behind it: boot ROM, cartridge, RAMs,
//! picture processor, interrupt controller, timer, keypad and the OAM DMA.
pub mod bootrom;
pub mod gpu;
pub mod keypad;
pub mod nvic;
pub mod timer;

use vstd::prelude::*;
use crate::cartridge::{Cartridge, ROM_SIZE};
use crate::cartridge::rom::Rom;
use crate::soc::peripheral::bootrom::{BootRom, BootRomView};
use crate::soc::peripheral::gpu::{
    Gpu, GpuView, initial_gpu, lemma_control_roundtrip, lemma_run_keeps_settings, palette_from_byte,
};
use crate::soc::peripheral::keypad::Keypad;
use crate::soc::peripheral::nvic::Nvic;
use crate::soc::peripheral::timer::{Frequency, Timer, tac_frequency, timer_run};

verus! {

pub const BOOT_ROM_BEGIN: u16 = 0x0000;
pub const BOOT_ROM_END: u16 = 0x00FF;
pub const BOOT_ROM_SIZE: u16 = 0x0100;

pub const ROM_BANK_0_BEGIN: u16 = 0x0000;
pub const ROM_BANK_0_END: u16 = 0x3FFF;
pub const ROM_BANK_0_SIZE: u16 = 0x4000;

pub const ROM_BANK_N_BEGIN: u16 = 0x4000;
pub const ROM_BANK_N_END: u16 = 0x7FFF;
pub const ROM_BANK_N_SIZE: u16 = 0x4000;

pub const VRAM_BEGIN: u16 = 0x8000;
pub const VRAM_END: u16 = 0x9FFF;
pub const VRAM_SIZE: u16 = 0x2000;

pub const EXTERNAL_RAM_BEGIN: u16 = 0xA000;
pub const EXTERNAL_RAM_END: u16 = 0xBFFF;
pub const EXTERNAL_RAM_SIZE: u16 = 0x2000;

pub const WORKING_RAM_BEGIN: u16 = 0xC000;
pub const WORKING_RAM_END: u16 = 0xDFFF;
pub const WORKING_RAM_SIZE: u16 = 0x2000;

pub const ECHO_RAM_BEGIN: u16 = 0xE000;
pub const ECHO_RAM_END: u16 = 0xFDFF;

pub const OAM_BEGIN: u16 = 0xFE00;
pub const OAM_END: u16 = 0xFE9F;
pub const OAM_SIZE: u16 = 0x00A0;

pub const UNUSED_BEGIN: u16 = 0xFEA0;
pub const UNUSED_END: u16 = 0xFEFF;

pub const IO_REGISTERS_BEGIN: u16 = 0xFF00;
pub const IO_REGISTERS_END: u16 = 0xFF7F;

pub const ZERO_PAGE_BEGIN: u16 = 0xFF80;
pub const ZERO_PAGE_END: u16 = 0xFFFE;
pub const ZERO_PAGE_SIZE: u16 = 0x007F;

pub const INTERRUPT_ENABLE_REGISTER: u16 = 0xFFFF;

pub const VBLANK_VECTOR: u16 = 0x40;
pub const LCDSTAT_VECTOR: u16 = 0x48;
pub const TIMER_VECTOR: u16 = 0x50;

pub struct Peripheral {
    pub boot_rom: BootRom,
    pub cartridge: Cartridge,
    pub external_ram: Vec<u8>,
    pub working_ram: Vec<u8>,
    pub zero_page: Vec<u8>,
    pub gpu: Gpu,
    pub nvic: Nvic,
    pub timer: Timer,
    pub keypad: Keypad,
    // OAM DMA transfer
    pub dma_cycles: u8,
    pub dma_start_adress: u16,
    pub dma_enabled: bool,
}

#[verifier::ext_equal]
pub ghost struct PeripheralView {
    pub boot_rom: BootRomView,
    pub cartridge: Seq<u8>,
    pub external_ram: Seq<u8>,
    pub working_ram: Seq<u8>,
    pub zero_page: Seq<u8>,
    pub gpu: GpuView,
    pub nvic: Nvic,
    pub timer: Timer,
    pub keypad: Keypad,
    pub dma_cycles: u8,
    pub dma_start_adress: u16,
    pub dma_enabled: bool,
}

impl View for Peripheral {
    type V = PeripheralView;

    open spec fn view(&self) -> PeripheralView {
        PeripheralView {
            boot_rom: self.boot_rom@,
            cartridge: self.cartridge@,
            external_ram: self.external_ram@,
            working_ram: self.working_ram@,
            zero_page: self.zero_page@,
            gpu: self.gpu@,
            nvic: self.nvic,
            timer: self.timer,
            keypad: self.keypad,
            dma_cycles: self.dma_cycles,
            dma_start_adress: self.dma_start_adress,
            dma_enabled: self.dma_enabled,
        }
    }
}

/// The addresses that behave as plain memory: what is written there reads back, and
/// nothing else changes it. Video RAM, cartridge RAM, working RAM and the zero page.
pub open spec fn is_plain_memory(address: u16) -> bool {
    ||| VRAM_BEGIN <= address <= VRAM_END
    ||| EXTERNAL_RAM_BEGIN <= address <= WORKING_RAM_END
    ||| ZERO_PAGE_BEGIN <= address <= ZERO_PAGE_END
}

/// The I/O registers that answer a read: joypad, serial, DIV, TIMA, TMA, IF, and the LCD
/// registers LCDC, STAT, SCY, SCX, LY and LYC.
pub open spec fn is_readable_io(address: u16) -> bool {
    ||| 0xFF00 <= address <= 0xFF02
    ||| 0xFF04 <= address <= 0xFF06
    ||| address == 0xFF0F
    ||| 0xFF40 <= address <= 0xFF45
}

/// The addresses that a read may reach: all but the I/O registers that answer no read,
/// on which the machine stops.
pub open spec fn is_readable(address: u16) -> bool {
    IO_REGISTERS_BEGIN <= address <= IO_REGISTERS_END ==> is_readable_io(address)
}

/// The I/O registers that take a write: joypad, serial, the timer, IF, the sound
/// registers and wave RAM, the LCD registers but LY, the OAM DMA, the boot ROM switch
/// and 0xFF7F.
pub open spec fn is_writable_io(address: u16) -> bool {
    ||| 0xFF00 <= address <= 0xFF02
    ||| 0xFF04 <= address <= 0xFF07
    ||| address == 0xFF0F
    ||| 0xFF10 <= address <= 0xFF14
    ||| 0xFF16 <= address <= 0xFF1E
    ||| 0xFF20 <= address <= 0xFF26
    ||| 0xFF30 <= address <= 0xFF43
    ||| 0xFF45 <= address <= 0xFF4B
    ||| address == 0xFF50
    ||| address == 0xFF7F
}

/// The addresses that a write may reach: bank 0 of the cartridge, video RAM, cartridge
/// RAM, working RAM, OAM, the unused area, the I/O registers that take a write, the zero
/// page and IE. Bank N of the cartridge and the echo area take no write: the machine
/// stops there.
pub open spec fn is_writable(address: u16) -> bool {
    ||| address <= ROM_BANK_0_END
    ||| VRAM_BEGIN <= address <= WORKING_RAM_END
    ||| OAM_BEGIN <= address <= UNUSED_END
    ||| IO_REGISTERS_BEGIN <= address <= IO_REGISTERS_END && is_writable_io(address)
    ||| ZERO_PAGE_BEGIN <= address
}

/// Whether a read at `address` is served.
pub fn readable(address: u16) -> (served: bool)
    ensures
        served == is_readable(address),
{
    if IO_REGISTERS_BEGIN <= address && address <= IO_REGISTERS_END {
        address <= 0xFF02 || (0xFF04 <= address && address <= 0xFF06) || address == 0xFF0F
            || (0xFF40 <= address && address <= 0xFF45)
    } else {
        true
    }
}

/// Whether a write at `address` is served.
pub fn writable(address: u16) -> (served: bool)
    ensures
        served == is_writable(address),
{
    if address <= ROM_BANK_0_END {
        true
    } else if address < VRAM_BEGIN {
        false
    } else if address <= WORKING_RAM_END {
        true
    } else if address < OAM_BEGIN {
        false
    } else if address < IO_REGISTERS_BEGIN {
        true
    } else if address <= IO_REGISTERS_END {
        address <= 0xFF02 || (0xFF04 <= address && address <= 0xFF07) || address == 0xFF0F
            || (0xFF10 <= address && address <= 0xFF14) || (0xFF16 <= address && address <= 0xFF1E)
            || (0xFF20 <= address && address <= 0xFF26) || (0xFF30 <= address && address <= 0xFF43)
            || (0xFF45 <= address && address <= 0xFF4B) || address == 0xFF50 || address == 0xFF7F
    } else {
        true
    }
}

/// Whether every source byte of the entries `first` to `end - 1` of an OAM DMA from
/// `start` answers a read.
pub fn dma_sources_readable(start: u16, first: u16, end: u16) -> (served: bool)
    requires
        first <= end <= OAM_SIZE,
        start <= 0xFF00,
    ensures
        served == forall|k: int| first <= k < end ==> #[trigger] is_readable((start + k) as u16),
{
    let mut k: u16 = first;
    while k < end
        invariant
            first <= k <= end,
            end <= OAM_SIZE,
            start <= 0xFF00,
            forall|j: int| first <= j < k ==> #[trigger] is_readable((start + j) as u16),
        decreases end - k,
    {
        if !readable(start + k) {
            assert(!is_readable((start + k) as u16));
            return false;
        }
        k = k + 1;
    }
    true
}

impl PeripheralView {
    pub open spec fn wf(self) -> bool {
        &&& self.boot_rom.rom.len() == BOOT_ROM_SIZE
        &&& self.cartridge.len() == ROM_SIZE
        &&& self.external_ram.len() == EXTERNAL_RAM_SIZE
        &&& self.working_ram.len() == WORKING_RAM_SIZE
        &&& self.zero_page.len() == ZERO_PAGE_SIZE
        &&& self.gpu.wf()
        &&& self.timer.wf()
        &&& self.dma_cycles < OAM_SIZE
        &&& !self.dma_enabled ==> self.dma_cycles == 0
        &&& self.dma_enabled ==> self.dma_start_adress <= 0xFF00
    }

    /// What the processor reads from an I/O register that answers a read (see
    /// `is_readable_io`). The joypad and serial registers read 0; no read reaches the
    /// other registers.
    pub closed spec fn read_io(self, address: u16) -> u8 {
        if address == 0xFF00 || address == 0xFF01 || address == 0xFF02 {
            0
        } else if address == 0xFF04 {
            self.timer.divider
        } else if address == 0xFF05 {
            self.timer.value
        } else if address == 0xFF06 {
            self.timer.modulo
        } else if address == 0xFF0F {
            0xE0 | self.nvic.interrupt_flag
        } else if address == 0xFF40 {
            self.gpu.control_byte()
        } else if address == 0xFF41 {
            self.gpu.status_byte()
        } else if address == 0xFF42 {
            self.gpu.viewport_y_offset
        } else if address == 0xFF43 {
            self.gpu.viewport_x_offset
        } else if address == 0xFF44 {
            self.gpu.current_line
        } else if address == 0xFF45 {
            self.gpu.compare_line
        } else {
            0xFF
        }
    }

    /// What the processor reads at `address`. The boot program hides the first 256
    /// bytes of the cartridge while it is mapped; the echo area mirrors working RAM;
    /// the unused area reads 0; IE reads with its three unused bits set.
    pub closed spec fn read(self, address: u16) -> u8 {
        if address <= BOOT_ROM_END && self.boot_rom.enabled {
            self.boot_rom.rom[address as int]
        } else if address <= ROM_BANK_N_END {
            self.cartridge[address as int]
        } else if address <= VRAM_END {
            self.gpu.vram[address - VRAM_BEGIN]
        } else if address <= EXTERNAL_RAM_END {
            self.external_ram[address - EXTERNAL_RAM_BEGIN]
        } else if address <= WORKING_RAM_END {
            self.working_ram[address - WORKING_RAM_BEGIN]
        } else if address <= ECHO_RAM_END {
            self.working_ram[address - ECHO_RAM_BEGIN]
        } else if address <= OAM_END {
            self.gpu.oam[address - OAM_BEGIN]
        } else if address <= UNUSED_END {
            0
        } else if address <= IO_REGISTERS_END {
            self.read_io(address)
        } else if address <= ZERO_PAGE_END {
            self.zero_page[address - ZERO_PAGE_BEGIN]
        } else {
            0xE0 | self.nvic.interrupt_enable
        }
    }

    /// The devices after the processor writes an I/O register that takes a write (see
    /// `is_writable_io`). Writes to the joypad, serial and sound registers, to wave RAM and
    /// to 0xFF7F change nothing.
    pub closed spec fn write_io(self, address: u16, data: u8) -> PeripheralView {
        if address == 0xFF04 {
            PeripheralView { timer: Timer { divider: 0, ..self.timer }, ..self }
        } else if address == 0xFF05 {
            PeripheralView { timer: Timer { value: data, ..self.timer }, ..self }
        } else if address == 0xFF06 {
            PeripheralView { timer: Timer { modulo: data, ..self.timer }, ..self }
        } else if address == 0xFF07 {
            PeripheralView {
                timer: Timer {
                    enabled: (data / 4) % 2 == 1,
                    main_timer_frequency: tac_frequency(data),
                    ..self.timer
                },
                ..self
            }
        } else if address == 0xFF0F {
            PeripheralView { nvic: Nvic { interrupt_flag: data, ..self.nvic }, ..self }
        } else if address == 0xFF40 {
            PeripheralView { gpu: self.gpu.with_control(data), ..self }
        } else if address == 0xFF41 {
            PeripheralView { gpu: self.gpu.with_status(data), ..self }
        } else if address == 0xFF42 {
            PeripheralView { gpu: GpuView { viewport_y_offset: data, ..self.gpu }, ..self }
        } else if address == 0xFF43 {
            PeripheralView { gpu: GpuView { viewport_x_offset: data, ..self.gpu }, ..self }
        } else if address == 0xFF45 {
            PeripheralView { gpu: GpuView { compare_line: data, ..self.gpu }, ..self }
        } else if address == 0xFF46 {
            PeripheralView { dma_start_adress: (data * 256) as u16, dma_enabled: true, ..self }
        } else if address == 0xFF47 {
            PeripheralView {
                gpu: GpuView { background_palette: palette_from_byte(data), ..self.gpu },
                ..self
            }
        } else if address == 0xFF48 {
            PeripheralView {
                gpu: GpuView { object_palette_0: palette_from_byte(data), ..self.gpu },
                ..self
            }
        } else if address == 0xFF49 {
            PeripheralView {
                gpu: GpuView { object_palette_1: palette_from_byte(data), ..self.gpu },
                ..self
            }
        } else if address == 0xFF4A {
            PeripheralView { gpu: GpuView { window_y_offset: data, ..self.gpu }, ..self }
        } else if address == 0xFF4B {
            PeripheralView { gpu: GpuView { window_x_offset: data, ..self.gpu }, ..self }
        } else if address == 0xFF50 {
            PeripheralView { boot_rom: BootRomView { enabled: false, ..self.boot_rom }, ..self }
        } else {
            self
        }
    }

    /// The devices after the processor writes `data` at `address`, an address that takes
    /// a write (see `is_writable`; elsewhere the state is left as it is): bank 0 of the
    /// cartridge takes the byte; a write to the unused area is dropped.
    pub closed spec fn write(self, address: u16, data: u8) -> PeripheralView {
        if address <= ROM_BANK_0_END {
            PeripheralView { cartridge: self.cartridge.update(address as int, data), ..self }
        } else if address < VRAM_BEGIN {
            self
        } else if address <= VRAM_END {
            PeripheralView {
                gpu: GpuView { vram: self.gpu.vram.update(address - VRAM_BEGIN, data), ..self.gpu },
                ..self
            }
        } else if address <= EXTERNAL_RAM_END {
            PeripheralView {
                external_ram: self.external_ram.update(address - EXTERNAL_RAM_BEGIN, data),
                ..self
            }
        } else if address <= WORKING_RAM_END {
            PeripheralView {
                working_ram: self.working_ram.update(address - WORKING_RAM_BEGIN, data),
                ..self
            }
        } else if address <= ECHO_RAM_END {
            self
        } else if address <= OAM_END {
            PeripheralView {
                gpu: GpuView { oam: self.gpu.oam.update(address - OAM_BEGIN, data), ..self.gpu },
                ..self
            }
        } else if address <= UNUSED_END {
            self
        } else if address <= IO_REGISTERS_END {
            self.write_io(address, data)
        } else if address <= ZERO_PAGE_END {
            PeripheralView {
                zero_page: self.zero_page.update(address - ZERO_PAGE_BEGIN, data),
                ..self
            }
        } else {
            PeripheralView { nvic: Nvic { interrupt_enable: data, ..self.nvic }, ..self }
        }
    }

    /// Whether the OAM DMA can go on for `cycles` more ticks: the step stays inside the
    /// 160 bytes of OAM and reads only addresses that answer a read. Elsewhere the
    /// machine stops.
    pub open spec fn dma_ok(self, cycles: u8) -> bool {
        self.dma_enabled ==> {
            &&& self.dma_cycles + cycles <= OAM_SIZE
            &&& forall|k: int|
                self.dma_cycles <= k < self.dma_cycles + cycles ==> #[trigger] is_readable(
                    (self.dma_start_adress + k) as u16,
                )
        }
    }

    /// The first `count` bytes of this step of the OAM DMA: byte `k` of the step goes to
    /// OAM entry `dma_cycles + k`, read from `dma_start_adress` plus that entry (a step
    /// that `dma_ok` admits stays inside OAM).
    pub closed spec fn dma_copy(self, count: nat) -> PeripheralView
        decreases count,
    {
        if count == 0 {
            self
        } else {
            let p = self.dma_copy((count - 1) as nat);
            let index = self.dma_cycles + count - 1;
            if index < OAM_SIZE {
                PeripheralView {
                    gpu: GpuView {
                        oam: p.gpu.oam.update(index, p.read((p.dma_start_adress + index) as u16)),
                        ..p.gpu
                    },
                    ..p
                }
            } else {
                p
            }
        }
    }

    /// The DMA after `cycles` more ticks: it stops once the 160 bytes are copied.
    pub closed spec fn dma_advance(self, cycles: u8) -> PeripheralView {
        if self.dma_cycles + cycles >= OAM_SIZE {
            PeripheralView { dma_enabled: false, dma_cycles: 0, ..self }
        } else {
            PeripheralView { dma_cycles: (self.dma_cycles + cycles) as u8, ..self }
        }
    }

    /// The devices after `cycles` clock ticks: the timer, then the OAM DMA, then the
    /// picture processor.
    pub closed spec fn run(self, cycles: u8) -> PeripheralView {
        let (timer, nvic) = timer_run(self.timer, self.nvic, cycles);
        let p1 = PeripheralView { timer, nvic, ..self };
        let p2 = if p1.dma_enabled {
            p1.dma_copy(cycles as nat).dma_advance(cycles)
        } else {
            p1
        };
        let (gpu, nvic2) = p2.gpu.run(p2.nvic, cycles);
        PeripheralView { gpu, nvic: nvic2, ..p2 }
    }
}

pub open spec fn initial_peripheral() -> PeripheralView {
    PeripheralView {
        boot_rom: BootRomView { rom: Seq::new(BOOT_ROM_SIZE as nat, |i: int| 0xFFu8), enabled: false },
        cartridge: Seq::new(ROM_SIZE as nat, |i: int| 0xFFu8),
        external_ram: Seq::new(EXTERNAL_RAM_SIZE as nat, |i: int| 0xFFu8),
        working_ram: Seq::new(WORKING_RAM_SIZE as nat, |i: int| 0xFFu8),
        zero_page: Seq::new(ZERO_PAGE_SIZE as nat, |i: int| 0xFFu8),
        gpu: initial_gpu(),
        nvic: Nvic { interrupt_master_enable: false, interrupt_enable: 0, interrupt_flag: 0 },
        timer: Timer {
            main_timer_cycles: 0,
            divider_timer_cycles: 0,
            tima_overflow: false,
            divider: 0,
            value: 0,
            modulo: 0,
            main_timer_frequency: Frequency::F4096,
            divider_timer_frequency: Frequency::F16384,
            enabled: false,
        },
        keypad: Keypad {
            action_buttons: false,
            direction_buttons: false,
            start: false,
            select: false,
            b: false,
            a: false,
            down: false,
            up: false,
            left: false,
            right: false,
        },
        dma_cycles: 0,
        dma_start_adress: 0xFFFF,
        dma_enabled: false,
    }
}

impl Peripheral {
    /// A machine with an empty cartridge slot: every memory byte reads 0xFF.
    pub fn new() -> (peripheral: Peripheral)
        ensures
            peripheral@.wf(),
            peripheral@ == initial_peripheral(),
    {
        let external_ram = vec![0xFFu8; EXTERNAL_RAM_SIZE as usize];
        let working_ram = vec![0xFFu8; WORKING_RAM_SIZE as usize];
        let zero_page = vec![0xFFu8; ZERO_PAGE_SIZE as usize];
        assert(external_ram@ =~= Seq::new(EXTERNAL_RAM_SIZE as nat, |i: int| 0xFFu8));
        assert(working_ram@ =~= Seq::new(WORKING_RAM_SIZE as nat, |i: int| 0xFFu8));
        assert(zero_page@ =~= Seq::new(ZERO_PAGE_SIZE as nat, |i: int| 0xFFu8));
        let peripheral = Peripheral {
            boot_rom: BootRom::new(),
            cartridge: Cartridge::empty(),
            external_ram,
            working_ram,
            zero_page,
            gpu: Gpu::new(),
            nvic: Nvic::new(),
            timer: Timer::new(),
            keypad: Keypad::new(),
            dma_cycles: 0,
            dma_start_adress: 0xFFFF,
            dma_enabled: false,
        };
        assert(peripheral@ =~= initial_peripheral());
        peripheral
    }

    /// Maps the boot program over the start of the cartridge.
    pub fn load_bootrom(&mut self, boot_rom: &[u8])
        requires
            old(self)@.wf(),
            boot_rom@.len() == BOOT_ROM_SIZE,
        ensures
            final(self)@.wf(),
            final(self)@ == (PeripheralView {
                boot_rom: BootRomView { rom: boot_rom@, enabled: true },
                ..old(self)@
            }),
    {
        self.boot_rom.load(boot_rom);
    }

    /// Puts the two ROM banks of the image in the cartridge slot.
    pub fn load_rom(&mut self, rom: &[u8])
        requires
            old(self)@.wf(),
            rom@.len() >= ROM_SIZE,
        ensures
            final(self)@.wf(),
            final(self)@ == (PeripheralView {
                cartridge: rom@.subrange(0, ROM_SIZE as int),
                ..old(self)@
            }),
    {
        self.cartridge = Cartridge { mbc: Rom::new(rom) };
    }

    /// Puts a cartridge in the slot.
    pub fn insert_cartridge(&mut self, cartridge: Cartridge)
        requires
            old(self)@.wf(),
            cartridge.wf(),
        ensures
            final(self)@.wf(),
            final(self)@ == (PeripheralView { cartridge: cartridge@, ..old(self)@ }),
    {
        self.cartridge = cartridge;
    }

    fn read_io_register(&self, address: u16) -> (data: u8)
        requires
            self@.wf(),
            is_readable_io(address),
        ensures
            data == self@.read_io(address),
    {
        match address {
            0xFF00 => 0,
            0xFF01 => 0,
            0xFF02 => 0,
            0xFF04 => self.timer.get_divider(),
            0xFF05 => self.timer.get_value(),
            0xFF06 => self.timer.get_modulo(),
            0xFF0F => self.nvic.get_it_flag(),
            0xFF40 => self.gpu.control_to_byte(),
            0xFF41 => self.gpu.status_to_byte(),
            0xFF42 => self.gpu.get_scy(),
            0xFF43 => self.gpu.get_scx(),
            0xFF44 => self.gpu.get_current_line(),
            0xFF45 => self.gpu.get_compare_line(),
            _ => 0xFF,
        }
    }

    pub fn read(&self, address: u16) -> (data: u8)
        requires
            self@.wf(),
            is_readable(address),
        ensures
            data == self@.read(address),
    {
        if address <= BOOT_ROM_END && self.boot_rom.get_state() {
            self.boot_rom.read(address)
        } else if address <= ROM_BANK_0_END {
            self.cartridge.read_bank_0(address as usize)
        } else if address <= ROM_BANK_N_END {
            self.cartridge.read_bank_n(address as usize)
        } else if address <= VRAM_END {
            self.gpu.read_vram(address - VRAM_BEGIN)
        } else if address <= EXTERNAL_RAM_END {
            self.external_ram[(address - EXTERNAL_RAM_BEGIN) as usize]
        } else if address <= WORKING_RAM_END {
            self.working_ram[(address - WORKING_RAM_BEGIN) as usize]
        } else if address <= ECHO_RAM_END {
            self.working_ram[(address - ECHO_RAM_BEGIN) as usize]
        } else if address <= OAM_END {
            self.gpu.read_oam((address - OAM_BEGIN) as usize)
        } else if address <= UNUSED_END {
            0
        } else if address <= IO_REGISTERS_END {
            self.read_io_register(address)
        } else if address <= ZERO_PAGE_END {
            self.zero_page[(address - ZERO_PAGE_BEGIN) as usize]
        } else {
            self.nvic.get_it_enable()
        }
    }

    fn write_timer_register(&mut self, address: u16, data: u8)
        requires
            old(self)@.wf(),
            0xFF04 <= address <= 0xFF07,
        ensures
            final(self)@.wf(),
            final(self)@ == old(self)@.write_io(address, data),
    {
        if address == 0xFF04 {
            self.timer.set_divider();
        } else if address == 0xFF05 {
            self.timer.set_value(data);
        } else if address == 0xFF06 {
            self.timer.set_modulo(data);
        } else {
            self.timer.settings_from_byte(data);
        }
        assert(self@ =~= old(self)@.write_io(address, data));
    }

    /// LCD control (LCDC)
    fn write_lcd_control(&mut self, data: u8)
        requires
            old(self)@.wf(),
        ensures
            final(self)@.wf(),
            final(self)@ == old(self)@.write_io(0xFF40, data),
    {
        self.gpu.control_from_byte(data);
        assert(self@ =~= old(self)@.write_io(0xFF40, data));
    }

    /// LCD status (STAT)
    fn write_lcd_status(&mut self, data: u8)
        requires
            old(self)@.wf(),
        ensures
            final(self)@.wf(),
            final(self)@ == old(self)@.write_io(0xFF41, data),
    {
        self.gpu.status_from_byte(data);
        assert(self@ =~= old(self)@.write_io(0xFF41, data));
    }

    /// background scroll Y (SCY)
    fn write_scroll_y(&mut self, data: u8)
        requires
            old(self)@.wf(),
        ensures
            final(self)@.wf(),
            final(self)@ == old(self)@.write_io(0xFF42, data),
    {
        self.gpu.set_scy(data);
        assert(self@ =~= old(self)@.write_io(0xFF42, data));
    }

    /// background scroll X (SCX)
    fn write_scroll_x(&mut self, data: u8)
        requires
            old(self)@.wf(),
        ensures
            final(self)@.wf(),
            final(self)@ == old(self)@.write_io(0xFF43, data),
    {
        self.gpu.set_scx(data);
        assert(self@ =~= old(self)@.write_io(0xFF43, data));
    }

    /// line compare (LYC)
    fn write_line_compare(&mut self, data: u8)
        requires
            old(self)@.wf(),
        ensures
            final(self)@.wf(),
            final(self)@ == old(self)@.write_io(0xFF45, data),
    {
        self.gpu.set_compare_line(data);
        assert(self@ =~= old(self)@.write_io(0xFF45, data));
    }

    /// OAM DMA: the transfer of 160 bytes from `data * 256` starts
    fn start_dma(&mut self, data: u8)
        requires
            old(self)@.wf(),
        ensures
            final(self)@.wf(),
            final(self)@ == old(self)@.write_io(0xFF46, data),
    {
        self.dma_start_adress = (data as u16) * 256;
        self.dma_enabled = true;
        assert(self@ =~= old(self)@.write_io(0xFF46, data));
    }

    /// background palette (BGP)
    fn write_background_palette(&mut self, data: u8)
        requires
            old(self)@.wf(),
        ensures
            final(self)@.wf(),
            final(self)@ == old(self)@.write_io(0xFF47, data),
    {
        self.gpu.set_background_palette(data);
        assert(self@ =~= old(self)@.write_io(0xFF47, data));
    }

    /// object palette 0 (OBP0)
    fn write_object_palette_0(&mut self, data: u8)
        requires
            old(self)@.wf(),
        ensures
            final(self)@.wf(),
            final(self)@ == old(self)@.write_io(0xFF48, data),
    {
        self.gpu.set_object_palette_0(data);
        assert(self@ =~= old(self)@.write_io(0xFF48, data));
    }

    /// object palette 1 (OBP1)
    fn write_object_palette_1(&mut self, data: u8)
        requires
            old(self)@.wf(),
        ensures
            final(self)@.wf(),
            final(self)@ == old(self)@.write_io(0xFF49, data),
    {
        self.gpu.set_object_palette_1(data);
        assert(self@ =~= old(self)@.write_io(0xFF49, data));
    }

    /// window Y (WY)
    fn write_window_y(&mut self, data: u8)
        requires
            old(self)@.wf(),
        ensures
            final(self)@.wf(),
            final(self)@ == old(self)@.write_io(0xFF4A, data),
    {
        self.gpu.set_window_y(data);
        assert(self@ =~= old(self)@.write_io(0xFF4A, data));
    }

    /// window X (WX)
    fn write_window_x(&mut self, data: u8)
        requires
            old(self)@.wf(),
        ensures
            final(self)@.wf(),
            final(self)@ == old(self)@.write_io(0xFF4B, data),
    {
        self.gpu.set_window_x(data);
        assert(self@ =~= old(self)@.write_io(0xFF4B, data));
    }

    fn write_io_register(&mut self, address: u16, data: u8)
        requires
            old(self)@.wf(),
            is_writable_io(address),
        ensures
            final(self)@.wf(),
            final(self)@ == old(self)@.write_io(address, data),
    {
        match address {
            0xFF04 | 0xFF05 | 0xFF06 | 0xFF07 => self.write_timer_register(address, data),
            0xFF40 => self.write_lcd_control(data),
            0xFF41 => self.write_lcd_status(data),
            0xFF42 => self.write_scroll_y(data),
            0xFF43 => self.write_scroll_x(data),
            0xFF45 => self.write_line_compare(data),
            0xFF46 => self.start_dma(data),
            0xFF47 => self.write_background_palette(data),
            0xFF48 => self.write_object_palette_0(data),
            0xFF49 => self.write_object_palette_1(data),
            0xFF4A => self.write_window_y(data),
            0xFF4B => self.write_window_x(data),
            0xFF0F => {
                self.nvic.set_it_flag(data);
                assert(self@ =~= old(self)@.write_io(address, data));
            },
            0xFF50 => {
                self.boot_rom.set_state(false);
                assert(self@ =~= old(self)@.write_io(address, data));
            },
            _ => {
                assert(self@ =~= old(self)@.write_io(address, data));
            },
        }
    }

    /// Writes below OAM: bank 0 of the cartridge, video RAM, cartridge RAM and working RAM.
    #[verifier::spinoff_prover]
    #[verifier::rlimit(100)]
    fn write_memory(&mut self, address: u16, data: u8)
        requires
            old(self)@.wf(),
            address <= ECHO_RAM_END,
            is_writable(address),
        ensures
            final(self)@.wf(),
            final(self)@ == old(self)@.write(address, data),
    {
        if address <= ROM_BANK_0_END {
            self.cartridge.write_bank_0(address as usize, data);
        } else if address <= VRAM_END {
            self.gpu.write_vram(address - VRAM_BEGIN, data);
        } else if address <= EXTERNAL_RAM_END {
            self.external_ram.set((address - EXTERNAL_RAM_BEGIN) as usize, data);
        } else {
            self.working_ram.set((address - WORKING_RAM_BEGIN) as usize, data);
        }
        assert(self@ =~= old(self)@.write(address, data));
    }

    pub fn write(&mut self, address: u16, data: u8)
        requires
            old(self)@.wf(),
            is_writable(address),
        ensures
            final(self)@.wf(),
            final(self)@ == old(self)@.write(address, data),
    {
        if address <= ECHO_RAM_END {
            self.write_memory(address, data);
        } else if address <= OAM_END {
            self.gpu.write_oam((address - OAM_BEGIN) as usize, data);
            assert(self@ =~= old(self)@.write(address, data));
        } else if address <= UNUSED_END {
            assert(self@ =~= old(self)@.write(address, data));
        } else if address <= IO_REGISTERS_END {
            self.write_io_register(address, data);
            assert(self@ =~= old(self)@.write(address, data));
        } else if address <= ZERO_PAGE_END {
            self.zero_page.set((address - ZERO_PAGE_BEGIN) as usize, data);
            assert(self@ =~= old(self)@.write(address, data));
        } else {
            self.nvic.set_it_enable(data);
            assert(self@ =~= old(self)@.write(address, data));
        }
    }

    /// One step of the OAM DMA: copies the bytes of the next `cycles` entries.
    fn run_dma(&mut self, cycles: u8)
        requires
            old(self)@.wf(),
            old(self).dma_enabled,
            old(self)@.dma_ok(cycles),
        ensures
            final(self)@.wf(),
            final(self)@ == old(self)@.dma_copy(cycles as nat).dma_advance(cycles),
    {
        let ghost before = self@;
        let mut mem_index: u8 = 0;
        while mem_index < cycles
            invariant
                before.wf(),
                before.dma_enabled,
                before.dma_ok(cycles),
                self@.wf(),
                self@ == before.dma_copy(mem_index as nat),
                mem_index <= cycles,
            decreases cycles - mem_index,
        {
            proof {
                lemma_dma_copy_keeps(before, mem_index as nat);
            }
            let index: u16 = self.dma_cycles as u16 + mem_index as u16;
            assert(is_readable((before.dma_start_adress + index) as u16));
            let data = self.read(self.dma_start_adress + index);
            self.gpu.write_oam(index as usize, data);
            mem_index = mem_index + 1;
            assert(self@ =~= before.dma_copy(mem_index as nat));
        }
        proof {
            lemma_dma_copy_keeps(before, cycles as nat);
        }
        let total: u16 = self.dma_cycles as u16 + cycles as u16;
        if total >= OAM_SIZE {
            self.dma_enabled = false;
            self.dma_cycles = 0;
        } else {
            self.dma_cycles = total as u8;
        }
        assert(self@ =~= before.dma_copy(cycles as nat).dma_advance(cycles));
    }

    /// Runs the devices for `runned_cycles` clock ticks: the timer, then the OAM DMA,
    /// then the picture processor.
    #[verifier::spinoff_prover]
    pub fn run(&mut self, runned_cycles: u8)
        requires
            old(self)@.wf(),
            old(self)@.dma_ok(runned_cycles),
        ensures
            final(self)@.wf(),
            final(self)@ == old(self)@.run(runned_cycles),
    {
        self.timer.run(runned_cycles, &mut self.nvic);
        let ghost p1 = self@;
        assert(p1 =~= PeripheralView {
            timer: timer_run(old(self).timer, old(self).nvic, runned_cycles).0,
            nvic: timer_run(old(self).timer, old(self).nvic, runned_cycles).1,
            ..old(self)@
        });
        if self.dma_enabled {
            self.run_dma(runned_cycles);
        }
        let ghost p2 = self@;
        assert(p2 == if p1.dma_enabled {
            p1.dma_copy(runned_cycles as nat).dma_advance(runned_cycles)
        } else {
            p1
        });
        self.gpu.run(runned_cycles, &mut self.nvic);
        assert(self@ =~= PeripheralView {
            gpu: p2.gpu.run(p2.nvic, runned_cycles).0,
            nvic: p2.gpu.run(p2.nvic, runned_cycles).1,
            ..p2
        });
    }
}

/// A copy step moves neither the DMA registers nor anything but OAM, and keeps the
/// devices well formed.
proof fn lemma_dma_copy_keeps(p: PeripheralView, count: nat)
    requires
        p.wf(),
    ensures
        p.dma_copy(count).wf(),
        p.dma_copy(count).dma_cycles == p.dma_cycles,
        p.dma_copy(count).dma_start_adress == p.dma_start_adress,
        p.dma_copy(count).dma_enabled == p.dma_enabled,
    decreases count,
{
    if count > 0 {
        lemma_dma_copy_keeps(p, (count - 1) as nat);
    }
}

/// A byte written to plain memory reads back.
#[verifier::spinoff_prover]
#[verifier::rlimit(30)]
pub proof fn lemma_write_then_read(p: PeripheralView, address: u16, data: u8)
    requires
        p.wf(),
        is_plain_memory(address),
    ensures
        p.write(address, data).read(address) == data,
{
}

/// A write to plain memory leaves every other plain memory address as it was.
#[verifier::spinoff_prover]
#[verifier::rlimit(30)]
pub proof fn lemma_write_keeps_other(p: PeripheralView, address: u16, other: u16, data: u8)
    requires
        p.wf(),
        is_plain_memory(address),
        is_plain_memory(other),
        address != other,
    ensures
        p.write(address, data).read(other) == p.read(other),
{
}

/// The addresses that store what is written there: bank 0 of the cartridge, video RAM,
/// cartridge RAM, working RAM, OAM and the zero page.
pub open spec fn is_storage(address: u16) -> bool {
    ||| address <= ROM_BANK_0_END
    ||| VRAM_BEGIN <= address <= WORKING_RAM_END
    ||| OAM_BEGIN <= address <= OAM_END
    ||| ZERO_PAGE_BEGIN <= address <= ZERO_PAGE_END
}

/// The cell that a read at `address` shows: an echo address shows the working RAM
/// address 0x2000 below it.
pub open spec fn read_cell(address: u16) -> int {
    if ECHO_RAM_BEGIN <= address <= ECHO_RAM_END {
        address - 0x2000
    } else {
        address as int
    }
}

/// A byte written anywhere in storage reads back, unless the boot program is mapped over
/// that byte of the cartridge.
#[verifier::spinoff_prover]
#[verifier::rlimit(30)]
pub proof fn lemma_write_then_read_any(p: PeripheralView, address: u16, data: u8)
    requires
        p.wf(),
        is_storage(address),
        !(address <= BOOT_ROM_END && p.boot_rom.enabled),
    ensures
        p.write(address, data).read(address) == data,
{
}

/// A write to storage leaves every address that shows another cell reading as it did.
#[verifier::spinoff_prover]
#[verifier::rlimit(30)]
pub proof fn lemma_write_keeps_other_any(p: PeripheralView, address: u16, other: u16, data: u8)
    requires
        p.wf(),
        is_storage(address),
        read_cell(other) != address,
    ensures
        p.write(address, data).read(other) == p.read(other),
{
}

/// A write outside storage (the unused area, the I/O registers, IE) leaves every storage
/// address reading as it did, but for 0xFF50, which unmaps the boot program.
#[verifier::spinoff_prover]
#[verifier::rlimit(30)]
pub proof fn lemma_register_write_keeps_storage(p: PeripheralView, address: u16, other: u16, data: u8)
    requires
        p.wf(),
        is_writable(address),
        !is_storage(address),
        address != 0xFF50,
        is_storage(other),
    ensures
        p.write(address, data).read(other) == p.read(other),
{
}

/// The echo area mirrors working RAM: a byte written to working RAM reads back through
/// the echo address 0x2000 above it.
#[verifier::spinoff_prover]
#[verifier::rlimit(30)]
pub proof fn lemma_echo_mirrors_working_ram(p: PeripheralView, offset: u16, data: u8)
    requires
        p.wf(),
        offset <= ECHO_RAM_END - ECHO_RAM_BEGIN,
    ensures
        p.write((WORKING_RAM_BEGIN + offset) as u16, data).read((ECHO_RAM_BEGIN + offset) as u16) == data,
{
}

/// A write changes only what its address names. The boot program and its switch change
/// only through 0xFF50; the interrupt controller only through IF and IE, and never its
/// master enable; the timer only through 0xFF04 to 0xFF07; the OAM DMA only through
/// 0xFF46, which starts it from the page written; the keypad never; each memory only
/// through its own range; the picture processor only through video RAM, OAM and 0xFF40
/// to 0xFF4B.
#[verifier::spinoff_prover]
#[verifier::rlimit(30)]
pub proof fn lemma_write_frame(p: PeripheralView, address: u16, data: u8)
    requires
        p.wf(),
        is_writable(address),
    ensures
        ({
            let q = p.write(address, data);
            &&& q.boot_rom.rom == p.boot_rom.rom
            &&& address != 0xFF50 ==> q.boot_rom == p.boot_rom
            &&& q.nvic.interrupt_master_enable == p.nvic.interrupt_master_enable
            &&& address != 0xFF0F ==> q.nvic.interrupt_flag == p.nvic.interrupt_flag
            &&& address != INTERRUPT_ENABLE_REGISTER ==> q.nvic.interrupt_enable == p.nvic.interrupt_enable
            &&& !(0xFF04 <= address <= 0xFF07) ==> q.timer == p.timer
            &&& q.keypad == p.keypad
            &&& q.dma_cycles == p.dma_cycles
            &&& address != 0xFF46 ==> q.dma_enabled == p.dma_enabled && q.dma_start_adress
                == p.dma_start_adress
            &&& address == 0xFF46 ==> q.dma_enabled && q.dma_start_adress == data * 256
            &&& address > ROM_BANK_0_END ==> q.cartridge == p.cartridge
            &&& !(EXTERNAL_RAM_BEGIN <= address <= EXTERNAL_RAM_END) ==> q.external_ram == p.external_ram
            &&& !(WORKING_RAM_BEGIN <= address <= WORKING_RAM_END) ==> q.working_ram == p.working_ram
            &&& !(ZERO_PAGE_BEGIN <= address <= ZERO_PAGE_END) ==> q.zero_page == p.zero_page
            &&& !(VRAM_BEGIN <= address <= VRAM_END) ==> q.gpu.vram == p.gpu.vram
            &&& !(OAM_BEGIN <= address <= OAM_END) ==> q.gpu.oam == p.gpu.oam
            &&& !(VRAM_BEGIN <= address <= VRAM_END) && !(OAM_BEGIN <= address <= OAM_END) && !(0xFF40
                <= address <= 0xFF4B) ==> q.gpu == p.gpu
        }),
{
}

/// What a write does to the OAM DMA registers: 0xFF46 starts a transfer from the page
/// written, from where the count stands; any other address leaves them.
#[verifier::spinoff_prover]
#[verifier::rlimit(30)]
pub proof fn lemma_write_dma_registers(p: PeripheralView, address: u16, data: u8)
    ensures
        ({
            let q = p.write(address, data);
            &&& q.dma_cycles == p.dma_cycles
            &&& address == 0xFF46 ==> q.dma_enabled && q.dma_start_adress == data * 256
            &&& address != 0xFF46 ==> q.dma_enabled == p.dma_enabled && q.dma_start_adress
                == p.dma_start_adress
        }),
{
}

/// A write keeps the devices well formed.
#[verifier::spinoff_prover]
#[verifier::rlimit(30)]
pub proof fn lemma_write_keeps_wf(p: PeripheralView, address: u16, data: u8)
    requires
        p.wf(),
    ensures
        p.write(address, data).wf(),
{
}


/// The registers that read back what is written: TIMA, TMA, LCDC, SCY, SCX and LYC. IF
/// and IE read back with their three unused bits set, and DIV reads 0 after any write.
#[verifier::spinoff_prover]
#[verifier::rlimit(30)]
pub proof fn lemma_register_readback(p: PeripheralView, data: u8)
    requires
        p.wf(),
    ensures
        p.write(0xFF05, data).read(0xFF05) == data,
        p.write(0xFF06, data).read(0xFF06) == data,
        p.write(0xFF40, data).read(0xFF40) == data,
        p.write(0xFF42, data).read(0xFF42) == data,
        p.write(0xFF43, data).read(0xFF43) == data,
        p.write(0xFF45, data).read(0xFF45) == data,
        p.write(0xFF04, data).read(0xFF04) == 0,
        p.write(0xFF0F, data).read(0xFF0F) == 0xE0 | data,
        p.write(0xFFFF, data).read(0xFFFF) == 0xE0 | data,
{
    lemma_control_roundtrip(p.gpu, data);
}

/// Once 0xFF50 is written, the first 256 bytes read from the cartridge again.
#[verifier::spinoff_prover]
#[verifier::rlimit(30)]
pub proof fn lemma_boot_rom_unmapped(p: PeripheralView, data: u8, address: u16)
    requires
        p.wf(),
        address <= BOOT_ROM_END,
    ensures
        p.write(0xFF50, data).read(address) == p.cartridge[address as int],
{
}

/// The devices after running a step of each number of clock ticks in turn.
pub open spec fn run_steps(p: PeripheralView, steps: Seq<u8>) -> PeripheralView
    decreases steps.len(),
{
    if steps.len() == 0 {
        p
    } else {
        run_steps(p, steps.drop_last()).run(steps.last())
    }
}

/// The clock ticks of all the steps.
pub open spec fn total_ticks(steps: Seq<u8>) -> int
    decreases steps.len(),
{
    if steps.len() == 0 {
        0
    } else {
        total_ticks(steps.drop_last()) + steps.last()
    }
}

/// The source address of byte `i` of an OAM DMA from `page`.
pub open spec fn dma_source(page: u8, i: int) -> u16 {
    (page * 256 + i) as u16
}

/// Two states whose memory below OAM reads the same: same boot program, cartridge,
/// video RAM, cartridge RAM and working RAM.
pub open spec fn same_low_memory(a: PeripheralView, b: PeripheralView) -> bool {
    &&& a.boot_rom == b.boot_rom
    &&& a.cartridge == b.cartridge
    &&& a.gpu.vram == b.gpu.vram
    &&& a.external_ram == b.external_ram
    &&& a.working_ram == b.working_ram
}

proof fn lemma_low_memory_reads(a: PeripheralView, b: PeripheralView, address: u16)
    requires
        same_low_memory(a, b),
        address < OAM_BEGIN,
    ensures
        a.read(address) == b.read(address),
{
}

/// A copy step changes only OAM: entries `dma_cycles` to `dma_cycles + count - 1` (those
/// inside OAM) get the source bytes as they stood before the step, the others stay. The
/// source is a page below OAM or OAM itself.
#[verifier::spinoff_prover]
proof fn lemma_dma_copy_effect(q: PeripheralView, count: nat)
    requires
        q.gpu.oam.len() == OAM_SIZE,
        q.dma_start_adress <= 0xFD00 || q.dma_start_adress == OAM_BEGIN,
    ensures
        ({
            let r = q.dma_copy(count);
            &&& same_low_memory(r, q)
            &&& r.dma_start_adress == q.dma_start_adress
            &&& r.dma_cycles == q.dma_cycles
            &&& r.dma_enabled == q.dma_enabled
            &&& r.gpu.oam.len() == OAM_SIZE
            &&& forall|i: int|
                0 <= i < OAM_SIZE ==> #[trigger] r.gpu.oam[i] == if q.dma_cycles <= i < q.dma_cycles
                    + count {
                    q.read((q.dma_start_adress + i) as u16)
                } else {
                    q.gpu.oam[i]
                }
        }),
    decreases count,
{
    if count > 0 {
        lemma_dma_copy_effect(q, (count - 1) as nat);
        let r0 = q.dma_copy((count - 1) as nat);
        let index = q.dma_cycles + count - 1;
        let r = q.dma_copy(count);
        if index < OAM_SIZE {
            let address = (r0.dma_start_adress + index) as u16;
            if q.dma_start_adress <= 0xFD00 {
                lemma_low_memory_reads(r0, q, address);
            } else {
                assert(r0.gpu.oam[index] == q.gpu.oam[index]);
            }
            let value = r0.read(address);
            assert(value == q.read(address));
            assert(r.gpu.oam == r0.gpu.oam.update(index, value));
            assert forall|i: int| 0 <= i < OAM_SIZE implies #[trigger] r.gpu.oam[i] == if q.dma_cycles
                <= i < q.dma_cycles + count {
                q.read((q.dma_start_adress + i) as u16)
            } else {
                q.gpu.oam[i]
            } by {
                if i != index {
                    assert(r.gpu.oam[i] == r0.gpu.oam[i]);
                }
            }
        } else {
            assert(r == r0);
            assert forall|i: int| 0 <= i < OAM_SIZE implies #[trigger] r.gpu.oam[i] == if q.dma_cycles
                <= i < q.dma_cycles + count {
                q.read((q.dma_start_adress + i) as u16)
            } else {
                q.gpu.oam[i]
            } by {
                assert(r.gpu.oam[i] == r0.gpu.oam[i]);
            }
        }
    }
}

/// The entries of OAM that a DMA from where `p` stands has copied after `ticks` more
/// clock ticks: from `dma_cycles` on, at most up to the end of OAM.
pub open spec fn dma_copied_end(p: PeripheralView, ticks: int) -> int {
    if p.dma_cycles + ticks < OAM_SIZE {
        p.dma_cycles + ticks
    } else {
        OAM_SIZE as int
    }
}

/// Where a DMA from `page`, started (or restarted) in state `p`, stands after steps of
/// `ticks` clock ticks in all: the entries from `p.dma_cycles` on that it has reached
/// hold the source bytes as they stood in `p`, the other entries are as in `p`, the memory
/// below OAM is as it was, and the transfer goes on until the end of OAM.
pub open spec fn dma_after(p: PeripheralView, page: u8, q: PeripheralView, ticks: int) -> bool {
    let first = p.dma_cycles as int;
    let end = dma_copied_end(p, ticks);
    &&& q.gpu.oam.len() == OAM_SIZE
    &&& q.dma_start_adress == page * 256
    &&& first + ticks < OAM_SIZE ==> q.dma_enabled && q.dma_cycles == first + ticks
    &&& first + ticks >= OAM_SIZE ==> !q.dma_enabled
    &&& forall|i: int| first <= i < end ==> #[trigger] q.gpu.oam[i] == p.read(dma_source(page, i))
    &&& forall|i: int| 0 <= i < first || end <= i < OAM_SIZE ==> #[trigger] q.gpu.oam[i] == p.gpu.oam[i]
    &&& same_low_memory(q, p)
}

/// Where a DMA stands after any steps: see `dma_after`.
#[verifier::spinoff_prover]
#[verifier::rlimit(100)]
pub proof fn lemma_dma_progress(p: PeripheralView, page: u8, steps: Seq<u8>)
    requires
        p.wf(),
        page <= 0xFE,
    ensures
        total_ticks(steps) >= 0,
        dma_after(p, page, run_steps(p.write(0xFF46, page), steps), total_ticks(steps)),
    decreases steps.len(),
{
    let s = p.write(0xFF46, page);
    if steps.len() == 0 {
        assert(same_low_memory(s, p));
    } else {
        let rest = steps.drop_last();
        let c = steps.last();
        lemma_dma_progress(p, page, rest);
        let q0 = run_steps(s, rest);
        let k = total_ticks(rest);
        let first = p.dma_cycles as int;
        let (timer, nvic) = timer_run(q0.timer, q0.nvic, c);
        let p1 = PeripheralView { timer, nvic, ..q0 };
        let p2 = if p1.dma_enabled {
            p1.dma_copy(c as nat).dma_advance(c)
        } else {
            p1
        };
        if p1.dma_enabled {
            lemma_dma_copy_effect(p1, c as nat);
            assert forall|i: int|
                0 <= i < OAM_SIZE && first + k <= i < first + k + c implies #[trigger] p1.read(
                (p1.dma_start_adress + i) as u16,
            ) == p.read(dma_source(page, i)) by {
                if page <= 0xFD {
                    lemma_low_memory_reads(p1, p, dma_source(page, i));
                } else {
                    assert(p1.gpu.oam[i] == p.gpu.oam[i]);
                }
            }
        }
        lemma_run_keeps_settings(p2.gpu, p2.nvic, c);
        let q = run_steps(s, steps);
        assert(q == q0.run(c));
        let (gpu, nvic2) = p2.gpu.run(p2.nvic, c);
        assert(q == PeripheralView { gpu, nvic: nvic2, ..p2 });
        assert(q.gpu.oam == p2.gpu.oam);
        assert(total_ticks(steps) == k + c);
        let end0 = dma_copied_end(p, k);
        let end = dma_copied_end(p, k + c);
        assert forall|i: int| first <= i < end implies #[trigger] q.gpu.oam[i] == p.read(
            dma_source(page, i),
        ) by {
            if i >= end0 {
                assert(p1.dma_enabled);
            }
        }
        assert forall|i: int| 0 <= i < first || end <= i < OAM_SIZE implies #[trigger] q.gpu.oam[i]
            == p.gpu.oam[i] by {
            assert(q0.gpu.oam[i] == p.gpu.oam[i]);
        }
    }
}

/// OAM DMA: once 0xFF46 is written with a page below OAM (the cartridge, video RAM,
/// cartridge RAM or working RAM) or with OAM's own page, the devices run in steps of any
/// sizes; once the transfer has gone through the end of OAM, the entries from where its
/// count stood hold the bytes of the page, in order, the entries before it are as they
/// were, and the transfer is over. A transfer started afresh starts from entry 0, so it
/// copies the 160 bytes of the page; one started while another runs goes on from where
/// that one stood.
pub proof fn lemma_dma_copies_page(p: PeripheralView, page: u8, steps: Seq<u8>)
    requires
        p.wf(),
        page <= 0xFE,
        p.dma_cycles + total_ticks(steps) >= OAM_SIZE,
    ensures
        ({
            let q = run_steps(p.write(0xFF46, page), steps);
            &&& !q.dma_enabled
            &&& forall|i: int| p.dma_cycles <= i < OAM_SIZE ==> #[trigger] q.gpu.oam[i] == p.read(dma_source(page, i))
            &&& forall|i: int| 0 <= i < p.dma_cycles ==> #[trigger] q.gpu.oam[i] == p.gpu.oam[i]
            &&& !p.dma_enabled ==> p.dma_cycles == 0
        }),
{
    lemma_dma_progress(p, page, steps);
}

} // verus!
