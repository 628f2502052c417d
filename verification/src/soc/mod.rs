//! The system on chip: the processor and the devices, run in step.
pub mod cpu;
pub mod peripheral;

use vstd::prelude::*;
use crate::cartridge::Cartridge;
use crate::soc::cpu::{Cpu, can_run_spec, initial_cpu, lemma_execute_cycles, run_spec, CpuMode, decode_spec, effective_mode};
use crate::soc::peripheral::{
    Peripheral, PeripheralView, OAM_SIZE, dma_sources_readable, initial_peripheral,
};
use crate::soc::peripheral::bootrom::BootRomView;
use crate::soc::peripheral::gpu::FRAME_BUFFER_SIZE;
pub use crate::soc::peripheral::keypad::GameBoyKey;

verus! {

/// Clock ticks in one machine cycle.
pub const CLOCK_TICK_PER_MACHINE_CYCLE: u8 = 4;

pub struct Soc {
    pub cpu: Cpu,
    pub peripheral: Peripheral,
}

pub ghost struct SocView {
    pub cpu: Cpu,
    pub peripheral: PeripheralView,
}

impl View for Soc {
    type V = SocView;

    open spec fn view(&self) -> SocView {
        SocView { cpu: self.cpu, peripheral: self.peripheral@ }
    }
}

impl SocView {
    pub open spec fn wf(self) -> bool {
        self.peripheral.wf()
    }

    /// Whether a step can be taken: the processor can run its step (see `can_run_spec`),
    /// and then the OAM DMA can go on for the clock ticks of that step (see `dma_ok`).
    pub closed spec fn can_run(self) -> bool {
        &&& can_run_spec(self.cpu, self.peripheral)
        &&& {
            let (cpu, peripheral, cycles) = run_spec(self.cpu, self.peripheral);
            peripheral.dma_ok((cycles * 4) as u8)
        }
    }

    /// One step of the machine: the processor runs one step, then the devices run for
    /// as many clock ticks (4 per machine cycle), which are returned.
    pub closed spec fn run(self) -> (SocView, u8) {
        let (cpu, peripheral, cycles) = run_spec(self.cpu, self.peripheral);
        let ticks = (cycles * 4) as u8;
        (SocView { cpu, peripheral: peripheral.run(ticks) }, ticks)
    }
}

/// What a step of the machine is: the processor's step `run_spec`, then the devices for
/// 4 clock ticks per machine cycle, at most 24; and when it can be taken.
pub proof fn lemma_soc_step(s: SocView)
    ensures
        ({
            let (cpu, peripheral, cycles) = run_spec(s.cpu, s.peripheral);
            &&& cycles <= 6
            &&& s.run() == (SocView { cpu, peripheral: peripheral.run((cycles * 4) as u8) }, (cycles * 4) as u8)
            &&& s.run().1 <= 24
        }),
        s.can_run() == (can_run_spec(s.cpu, s.peripheral) && ({
            let (cpu, peripheral, cycles) = run_spec(s.cpu, s.peripheral);
            peripheral.dma_ok((cycles * 4) as u8)
        })),
{
    let c0 = Cpu { mode: effective_mode(s.cpu, s.peripheral), ..s.cpu };
    if c0.mode == CpuMode::RUN {
        let instruction = decode_spec(c0, s.peripheral, s.peripheral.read(c0.pc)).unwrap();
        lemma_execute_cycles(c0, s.peripheral, instruction);
    }
}

impl Soc {
    /// A machine with the boot program mapped and the cartridge in its slot.
    pub fn new(boot_rom: &[u8], cartridge: Cartridge) -> (soc: Soc)
        requires
            boot_rom@.len() == 256,
            cartridge.wf(),
        ensures
            soc@.wf(),
            soc@ == (SocView {
                cpu: initial_cpu(),
                peripheral: PeripheralView {
                    boot_rom: BootRomView { rom: boot_rom@, enabled: true },
                    cartridge: cartridge@,
                    ..initial_peripheral()
                },
            }),
    {
        let mut peripheral = Peripheral::new();
        peripheral.insert_cartridge(cartridge);
        peripheral.load_bootrom(boot_rom);
        Soc { cpu: Cpu::new(), peripheral }
    }

    /// Whether `run` can take a step: the processor can run its step, and the OAM DMA,
    /// if the step leaves one running, stays inside OAM and reads only what answers.
    pub fn can_run(&self) -> (runnable: bool)
        requires
            self@.wf(),
        ensures
            runnable == self@.can_run(),
    {
        if !self.cpu.can_run(&self.peripheral) {
            return false;
        }
        proof {
            lemma_soc_step(self@);
        }
        let (cycles, page) = self.cpu.step_outline(&self.peripheral);
        let ghost after = run_spec(self.cpu, self.peripheral@).1;
        let ticks: u8 = cycles * CLOCK_TICK_PER_MACHINE_CYCLE;
        let (enabled, start): (bool, u16) = match page {
            Some(page) => (true, page as u16 * 256),
            None => (self.peripheral.dma_enabled, self.peripheral.dma_start_adress),
        };
        assert(enabled == after.dma_enabled && start == after.dma_start_adress);
        if !enabled {
            return true;
        }
        assert(start <= 0xFF00);
        let first: u16 = self.peripheral.dma_cycles as u16;
        let end: u16 = first + ticks as u16;
        if end > OAM_SIZE {
            return false;
        }
        dma_sources_readable(start, first, end)
    }

    /// Runs one step; returns the clock ticks it took.
    pub fn run(&mut self) -> (cycles: u8)
        requires
            old(self)@.wf(),
            old(self)@.can_run(),
        ensures
            final(self)@.wf(),
            (final(self)@, cycles) == old(self)@.run(),
            cycles <= 24,
    {
        let cycles = self.cpu.run(&mut self.peripheral) * CLOCK_TICK_PER_MACHINE_CYCLE;
        self.peripheral.run(cycles);
        cycles
    }

    /// The grey level of a pixel of the screen, row by row.
    pub fn get_frame_buffer(&self, pixel_index: usize) -> (level: u8)
        requires
            self@.wf(),
            pixel_index < FRAME_BUFFER_SIZE,
        ensures
            level == self@.peripheral.gpu.frame_buffer[pixel_index as int],
    {
        self.peripheral.gpu.frame_buffer[pixel_index]
    }

    /// Presses or releases a key.
    pub fn set_key(&mut self, key: GameBoyKey, value: bool)
        ensures
            final(self)@ == (SocView {
                peripheral: PeripheralView { keypad: old(self)@.peripheral.keypad.with_key(key, value), ..old(self)@.peripheral },
                ..old(self)@
            }),
    {
        self.peripheral.keypad.set(key, value);
    }
}

} // verus!
