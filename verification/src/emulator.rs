//! The emulator's frame loop: run the machine for a frame's worth of cycles, wait until
//! the frame's time has passed, show the frame, and start again.
use vstd::prelude::*;
use crate::cartridge::{Cartridge, is_supported};
use crate::debug::{DebuggerCommand, DebuggerState, debug_step, run_debug_mode};
use crate::soc::{GameBoyKey, Soc, SocView};
use crate::soc::cpu::initial_cpu;
use crate::soc::peripheral::{PeripheralView, initial_peripheral};
use crate::soc::peripheral::bootrom::BootRomView;
use crate::soc::peripheral::gpu::FRAME_BUFFER_SIZE;

verus! {

pub const SCREEN_HEIGHT: usize = 144;
pub const SCREEN_WIDTH: usize = 160;

/// The main clock: 4.194304 MHz.
pub const ONE_SECOND_IN_CYCLES: usize = 4194304;
pub const ONE_FRAME_IN_CYCLES: usize = 70224;
/// ONE_FRAME_IN_CYCLES clock ticks in nanoseconds (70224 * 10^9 / 4194304, rounded
/// down): about 16.74 ms.
pub const ONE_FRAME_IN_NS: u64 = 16742706;

#[derive(Copy, Clone, Debug, PartialEq, Eq, Structural)]
pub enum EmulatorState {
    GetTime,
    RunMachine,
    WaitNextFrame,
    DisplayFrame,
}

pub struct Emulator {
    // gameboy emulated hardware
    pub soc: Soc,
    // emulator internal parameters
    pub state: EmulatorState,
    pub cycles_elapsed_in_frame: usize,
    // debugger parameters
    pub debug_on: bool,
    pub debugger_state: DebuggerState,
    pub display_cpu_reg: bool,
    pub breakpoint: Option<u16>,
}

pub ghost struct EmulatorView {
    pub soc: SocView,
    pub state: EmulatorState,
    pub cycles_elapsed_in_frame: usize,
    pub debug_on: bool,
    pub debugger_state: DebuggerState,
    pub display_cpu_reg: bool,
    pub breakpoint: Option<u16>,
}

impl View for Emulator {
    type V = EmulatorView;

    open spec fn view(&self) -> EmulatorView {
        EmulatorView {
            soc: self.soc@,
            state: self.state,
            cycles_elapsed_in_frame: self.cycles_elapsed_in_frame,
            debug_on: self.debug_on,
            debugger_state: self.debugger_state,
            display_cpu_reg: self.display_cpu_reg,
            breakpoint: self.breakpoint,
        }
    }
}

impl EmulatorView {
    pub open spec fn wf(self) -> bool {
        &&& self.soc.wf()
        &&& self.cycles_elapsed_in_frame < ONE_FRAME_IN_CYCLES
    }

    /// Whether the next call of `run` runs a step of the machine: in the run state, unless
    /// the debugger holds it halted.
    pub open spec fn steps_machine(self) -> bool {
        self.state == EmulatorState::RunMachine && !(self.debug_on && self.debugger_state
            == DebuggerState::HALT)
    }

    /// One step of the machine, its ticks counted in the frame; once a frame's worth has
    /// run, the count restarts and the emulator waits for the frame's time to pass.
    pub open spec fn machine_step(self) -> EmulatorView {
        let (soc, ticks) = self.soc.run();
        let elapsed = self.cycles_elapsed_in_frame + ticks;
        if elapsed >= ONE_FRAME_IN_CYCLES {
            EmulatorView { soc, cycles_elapsed_in_frame: 0, state: EmulatorState::WaitNextFrame, ..self }
        } else {
            EmulatorView { soc, cycles_elapsed_in_frame: elapsed as usize, ..self }
        }
    }

    /// The frame loop, `frame_elapsed_ns` being the time since the frame started.
    pub open spec fn normal_step(self, frame_elapsed_ns: u64) -> EmulatorView {
        match self.state {
            EmulatorState::GetTime => EmulatorView { state: EmulatorState::RunMachine, ..self },
            EmulatorState::RunMachine => self.machine_step(),
            EmulatorState::WaitNextFrame => if frame_elapsed_ns >= ONE_FRAME_IN_NS {
                EmulatorView { state: EmulatorState::DisplayFrame, ..self }
            } else {
                self
            },
            EmulatorState::DisplayFrame => EmulatorView { state: EmulatorState::GetTime, ..self },
        }
    }

    /// One call of `run`: the emulator afterwards, the debugger commands left, and
    /// whether the registers are to be shown.
    pub open spec fn run(self, frame_elapsed_ns: u64, commands: Seq<DebuggerCommand>) -> (EmulatorView, Seq<DebuggerCommand>, bool) {
        if self.debug_on {
            debug_step(self, frame_elapsed_ns, commands)
        } else {
            (self.normal_step(frame_elapsed_ns), commands, false)
        }
    }
}

impl Emulator {
    /// An emulator for a boot program and a supported game image; with `debug_on`, the
    /// debugger starts with the machine halted.
    pub fn new(boot_rom: &[u8], rom: &[u8], debug_on: bool) -> (emulator: Emulator)
        requires
            boot_rom@.len() == 256,
            is_supported(rom@),
        ensures
            emulator@.wf(),
            emulator@ == (EmulatorView {
                soc: SocView {
                    cpu: initial_cpu(),
                    peripheral: PeripheralView {
                        boot_rom: BootRomView { rom: boot_rom@, enabled: true },
                        cartridge: rom@.subrange(0, 0x8000),
                        ..initial_peripheral()
                    },
                },
                state: EmulatorState::GetTime,
                cycles_elapsed_in_frame: 0,
                debug_on,
                debugger_state: DebuggerState::HALT,
                display_cpu_reg: true,
                breakpoint: None,
            }),
    {
        let cartridge = Cartridge::new(rom);
        let soc = Soc::new(boot_rom, cartridge);
        Emulator {
            soc,
            state: EmulatorState::GetTime,
            cycles_elapsed_in_frame: 0,
            debug_on,
            debugger_state: DebuggerState::HALT,
            display_cpu_reg: true,
            breakpoint: None,
        }
    }

    /// Whether the next call of `run` runs a step of the machine.
    pub fn steps_machine(&self) -> (steps: bool)
        ensures
            steps == self@.steps_machine(),
    {
        self.state == EmulatorState::RunMachine && !(self.debug_on && self.debugger_state
            == DebuggerState::HALT)
    }

    /// Runs one step of the machine and counts its ticks in the frame.
    pub fn step(&mut self)
        requires
            old(self)@.wf(),
            old(self)@.soc.can_run(),
        ensures
            final(self)@.wf(),
            final(self)@ == old(self)@.machine_step(),
    {
        let ghost before = self@;
        let cycles = self.soc.run();
        let ghost ran = before.soc.run();
        assert(self.soc@ == ran.0 && cycles == ran.1);
        let elapsed = self.cycles_elapsed_in_frame + cycles as usize;
        if elapsed >= ONE_FRAME_IN_CYCLES {
            self.cycles_elapsed_in_frame = 0;
            self.state = EmulatorState::WaitNextFrame;
        } else {
            self.cycles_elapsed_in_frame = elapsed;
        }
        assert(self@ == before.machine_step());
    }

    /// Advances the emulator; `frame_elapsed_ns` is the time since the current frame
    /// started (the caller restarts that clock when the state is `GetTime`), and
    /// `dbg_cmd` the debugger commands not yet taken, the next one last. Returns whether
    /// the processor's registers are to be shown.
    pub fn run(&mut self, frame_elapsed_ns: u64, dbg_cmd: &mut Vec<DebuggerCommand>) -> (show_registers: bool)
        requires
            old(self)@.wf(),
            old(self)@.steps_machine() ==> old(self)@.soc.can_run(),
        ensures
            final(self)@.wf(),
            (final(self)@, final(dbg_cmd)@, show_registers) == old(self)@.run(frame_elapsed_ns, old(dbg_cmd)@),
    {
        if self.debug_on {
            run_debug_mode(self, frame_elapsed_ns, dbg_cmd)
        } else {
            run_normal_mode(self, frame_elapsed_ns);
            false
        }
    }

    /// Whether a frame is ready to be shown.
    pub fn frame_ready(&self) -> (ready: bool)
        ensures
            ready == (self.state == EmulatorState::DisplayFrame),
    {
        self.state == EmulatorState::DisplayFrame
    }

    /// The grey level of a pixel of the screen, row by row.
    pub fn get_frame_buffer(&self, pixel_index: usize) -> (level: u8)
        requires
            self@.wf(),
            pixel_index < FRAME_BUFFER_SIZE,
        ensures
            level == self@.soc.peripheral.gpu.frame_buffer[pixel_index as int],
    {
        self.soc.get_frame_buffer(pixel_index)
    }

    /// Presses or releases a key.
    pub fn set_key(&mut self, key: GameBoyKey, value: bool)
        ensures
            final(self)@ == (EmulatorView {
                soc: SocView {
                    peripheral: PeripheralView {
                        keypad: old(self)@.soc.peripheral.keypad.with_key(key, value),
                        ..old(self)@.soc.peripheral
                    },
                    ..old(self)@.soc
                },
                ..old(self)@
            }),
    {
        self.soc.set_key(key, value);
    }
}

fn run_normal_mode(emulator: &mut Emulator, frame_elapsed_ns: u64)
    requires
        old(emulator)@.wf(),
        !old(emulator).debug_on,
        old(emulator)@.steps_machine() ==> old(emulator)@.soc.can_run(),
    ensures
        final(emulator)@.wf(),
        final(emulator)@ == old(emulator)@.normal_step(frame_elapsed_ns),
{
    if emulator.state == EmulatorState::RunMachine {
        emulator.step();
    } else {
        emulator.state = next_frame_state(emulator.state, frame_elapsed_ns);
    }
}

/// The frame loop's state after GetTime, WaitNextFrame or DisplayFrame.
fn next_frame_state(state: EmulatorState, frame_elapsed_ns: u64) -> (next: EmulatorState)
    requires
        state != EmulatorState::RunMachine,
    ensures
        next == match state {
            EmulatorState::GetTime => EmulatorState::RunMachine,
            EmulatorState::WaitNextFrame => if frame_elapsed_ns >= ONE_FRAME_IN_NS {
                EmulatorState::DisplayFrame
            } else {
                EmulatorState::WaitNextFrame
            },
            _ => EmulatorState::GetTime,
        },
{
    match state {
        EmulatorState::GetTime => EmulatorState::RunMachine,
        EmulatorState::WaitNextFrame => {
            // check if 16.742706 ms have passed during this frame
            if frame_elapsed_ns >= ONE_FRAME_IN_NS {
                EmulatorState::DisplayFrame
            } else {
                EmulatorState::WaitNextFrame
            }
        },
        _ => EmulatorState::GetTime,
    }
}

} // verus!
