//! The debugger's control of the frame loop: halt, run, or step one instruction, and
//! stop at a breakpoint.
pub mod command;

use vstd::prelude::*;
use crate::emulator::{Emulator, EmulatorState, EmulatorView, ONE_FRAME_IN_NS};

verus! {

#[allow(non_camel_case_types)]
#[derive(Copy, Clone, Debug, PartialEq, Eq, Structural)]
pub enum DebuggerCommand {
    HALT,
    RUN,
    STEP,
    BREAK_SET(u16),
    BREAK_RESET,
}

#[allow(non_camel_case_types)]
#[derive(Copy, Clone, Debug, PartialEq, Eq, Structural)]
pub enum DebuggerState {
    HALT,
    RUN,
    STEP,
}

/// The next command, taken from the end of the queue.
pub open spec fn next_command(commands: Seq<DebuggerCommand>) -> (Option<DebuggerCommand>, Seq<DebuggerCommand>) {
    if commands.len() == 0 {
        (None, commands)
    } else {
        (Some(commands.last()), commands.drop_last())
    }
}

/// The breakpoint after a command: BREAK_SET sets the only breakpoint, BREAK_RESET
/// clears it, the other commands keep it.
pub open spec fn breakpoint_after(breakpoint: Option<u16>, command: Option<DebuggerCommand>) -> Option<u16> {
    match command {
        Some(DebuggerCommand::BREAK_SET(address)) => Some(address),
        Some(DebuggerCommand::BREAK_RESET) => None,
        _ => breakpoint,
    }
}

/// The debugger halted, with the registers to show.
pub open spec fn halted(e: EmulatorView) -> EmulatorView {
    EmulatorView { display_cpu_reg: true, debugger_state: DebuggerState::HALT, ..e }
}

/// The debugger's step of the frame loop. Halted, the machine does not run: the
/// registers are shown once, RUN or STEP starts it, and the breakpoint commands are
/// taken. Running, it steps; it halts when PC reaches the breakpoint, else a HALT
/// taken from the queue stops it (a breakpoint command taken is applied, the others
/// are dropped). Stepping, it runs one step and halts. The other states go as in the
/// frame loop.
pub open spec fn debug_step(e: EmulatorView, frame_elapsed_ns: u64, commands: Seq<DebuggerCommand>) -> (EmulatorView, Seq<DebuggerCommand>, bool) {
    match e.state {
        EmulatorState::RunMachine => match e.debugger_state {
            DebuggerState::HALT => {
                let (command, rest) = next_command(commands);
                let shown = EmulatorView {
                    display_cpu_reg: false,
                    breakpoint: breakpoint_after(e.breakpoint, command),
                    ..e
                };
                let next = match command {
                    Some(DebuggerCommand::RUN) => EmulatorView {
                        display_cpu_reg: true,
                        debugger_state: DebuggerState::RUN,
                        ..shown
                    },
                    Some(DebuggerCommand::STEP) => EmulatorView {
                        display_cpu_reg: true,
                        debugger_state: DebuggerState::STEP,
                        ..shown
                    },
                    _ => shown,
                };
                (next, rest, e.display_cpu_reg)
            },
            DebuggerState::RUN => {
                let stepped = e.machine_step();
                if e.breakpoint == Some(stepped.soc.cpu.pc) {
                    (halted(stepped), commands, false)
                } else {
                    let (command, rest) = next_command(commands);
                    let kept = EmulatorView { breakpoint: breakpoint_after(e.breakpoint, command), ..stepped };
                    if command == Some(DebuggerCommand::HALT) {
                        (halted(kept), rest, false)
                    } else {
                        (kept, rest, false)
                    }
                }
            },
            DebuggerState::STEP => (
                EmulatorView { debugger_state: DebuggerState::HALT, ..e.machine_step() },
                commands,
                false,
            ),
        },
        _ => (e.normal_step(frame_elapsed_ns), commands, false),
    }
}

/// Applies a breakpoint command.
fn apply_breakpoint_command(emulator: &mut Emulator, command: Option<DebuggerCommand>)
    ensures
        final(emulator)@ == (EmulatorView {
            breakpoint: breakpoint_after(old(emulator).breakpoint, command),
            ..old(emulator)@
        }),
{
    match command {
        Some(DebuggerCommand::BREAK_SET(address)) => emulator.breakpoint = Some(address),
        Some(DebuggerCommand::BREAK_RESET) => emulator.breakpoint = None,
        _ => {},
    }
}

/// Runs the frame loop under the debugger; returns whether the registers are to be
/// shown.
pub fn run_debug_mode(emulator: &mut Emulator, frame_elapsed_ns: u64, dbg_cmd: &mut Vec<DebuggerCommand>) -> (show_registers: bool)
    requires
        old(emulator)@.wf(),
        old(emulator)@.steps_machine() ==> old(emulator)@.soc.can_run(),
        old(emulator).debug_on,
    ensures
        final(emulator)@.wf(),
        (final(emulator)@, final(dbg_cmd)@, show_registers) == debug_step(old(emulator)@, frame_elapsed_ns, old(dbg_cmd)@),
{
    match emulator.state {
        EmulatorState::GetTime => {
            emulator.state = EmulatorState::RunMachine;
            false
        },
        EmulatorState::RunMachine => {
            match emulator.debugger_state {
                DebuggerState::HALT => {
                    // show the registers once
                    let show_registers = emulator.display_cpu_reg;
                    emulator.display_cpu_reg = false;
                    // wait until a new debug command is entered
                    let cmd = dbg_cmd.pop();
                    apply_breakpoint_command(emulator, cmd);
                    match cmd {
                        Some(DebuggerCommand::RUN) => {
                            emulator.display_cpu_reg = true;
                            emulator.debugger_state = DebuggerState::RUN;
                        },
                        Some(DebuggerCommand::STEP) => {
                            emulator.display_cpu_reg = true;
                            emulator.debugger_state = DebuggerState::STEP;
                        },
                        _ => {},
                    }
                    show_registers
                },
                DebuggerState::RUN => {
                    // run the emulator as in normal mode
                    emulator.step();
                    if emulator.breakpoint == Some(emulator.soc.cpu.pc) {
                        // the breakpoint is reached
                        emulator.display_cpu_reg = true;
                        emulator.debugger_state = DebuggerState::HALT;
                    } else {
                        // stop when a halt command is entered
                        let cmd = dbg_cmd.pop();
                        apply_breakpoint_command(emulator, cmd);
                        if cmd == Some(DebuggerCommand::HALT) {
                            emulator.display_cpu_reg = true;
                            emulator.debugger_state = DebuggerState::HALT;
                        }
                    }
                    false
                },
                DebuggerState::STEP => {
                    // run the emulator once then go to halt state
                    emulator.step();
                    emulator.debugger_state = DebuggerState::HALT;
                    false
                },
            }
        },
        EmulatorState::WaitNextFrame => {
            // check if 16.742706 ms have passed during this frame
            if frame_elapsed_ns >= ONE_FRAME_IN_NS {
                emulator.state = EmulatorState::DisplayFrame;
            }
            false
        },
        EmulatorState::DisplayFrame => {
            emulator.state = EmulatorState::GetTime;
            false
        },
    }
}

} // verus!
