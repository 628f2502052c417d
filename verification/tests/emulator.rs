use qoboy::debug::command::parse_command;
use qoboy::debug::{run_debug_mode, DebuggerCommand, DebuggerState};
use qoboy::emulator::{Emulator, EmulatorState, ONE_FRAME_IN_CYCLES, ONE_FRAME_IN_NS};
use qoboy::soc::{GameBoyKey, Soc};
use qoboy::cartridge::Cartridge;

/// A boot program that loops on itself (JR -2) and a blank ROM-only game.
fn machine(debug_on: bool) -> Emulator {
    let mut boot = vec![0u8; 256];
    boot[0] = 0x18;
    boot[1] = 0xFE;
    let mut rom = vec![0u8; 0x8000];
    rom[0x147] = 0x00;
    Emulator::new(&boot, &rom, debug_on)
}

#[test]
fn frame_loop_runs_a_frame_then_waits_then_displays() {
    let mut emulator = machine(false);
    let mut commands = Vec::new();
    assert_eq!(emulator.state, EmulatorState::GetTime);
    emulator.run(0, &mut commands);
    assert_eq!(emulator.state, EmulatorState::RunMachine);
    // JR takes 3 machine cycles, 12 clock ticks
    emulator.run(0, &mut commands);
    assert_eq!(emulator.cycles_elapsed_in_frame, 12);
    assert_eq!(emulator.soc.cpu.pc, 0);
    let mut steps = 1;
    while emulator.state == EmulatorState::RunMachine {
        assert!(emulator.soc.can_run());
        emulator.run(0, &mut commands);
        steps += 1;
    }
    assert_eq!(steps, (ONE_FRAME_IN_CYCLES + 11) / 12);
    assert_eq!(emulator.state, EmulatorState::WaitNextFrame);
    assert_eq!(emulator.cycles_elapsed_in_frame, 0);
    // not yet the frame's time
    emulator.run(ONE_FRAME_IN_NS - 1, &mut commands);
    assert_eq!(emulator.state, EmulatorState::WaitNextFrame);
    assert!(!emulator.frame_ready());
    emulator.run(ONE_FRAME_IN_NS, &mut commands);
    assert!(emulator.frame_ready());
    emulator.run(0, &mut commands);
    assert_eq!(emulator.state, EmulatorState::GetTime);
}

#[test]
fn debugger_halts_steps_and_runs() {
    let mut emulator = machine(true);
    let mut commands = Vec::new();
    emulator.run(0, &mut commands);
    assert_eq!(emulator.state, EmulatorState::RunMachine);
    // halted: the registers are shown once and the machine does not move
    assert!(emulator.run(0, &mut commands));
    assert!(!emulator.run(0, &mut commands));
    assert_eq!(emulator.cycles_elapsed_in_frame, 0);
    // one step, then halted again, with the registers to show
    commands.push(DebuggerCommand::STEP);
    emulator.run(0, &mut commands);
    assert_eq!(emulator.debugger_state, DebuggerState::STEP);
    emulator.run(0, &mut commands);
    assert_eq!(emulator.debugger_state, DebuggerState::HALT);
    assert_eq!(emulator.cycles_elapsed_in_frame, 12);
    assert!(emulator.run(0, &mut commands));
    // run until a HALT command comes
    commands.push(DebuggerCommand::RUN);
    emulator.run(0, &mut commands);
    assert_eq!(emulator.debugger_state, DebuggerState::RUN);
    emulator.run(0, &mut commands);
    emulator.run(0, &mut commands);
    assert_eq!(emulator.cycles_elapsed_in_frame, 36);
    commands.push(DebuggerCommand::HALT);
    emulator.run(0, &mut commands);
    assert_eq!(emulator.debugger_state, DebuggerState::HALT);
    assert_eq!(emulator.cycles_elapsed_in_frame, 48);
    assert!(commands.is_empty());
    assert!(run_debug_mode(&mut emulator, 0, &mut commands));
}

#[test]
fn keys_reach_the_keypad() {
    let mut emulator = machine(false);
    emulator.set_key(GameBoyKey::START, true);
    assert!(emulator.soc.peripheral.keypad.start);
    emulator.set_key(GameBoyKey::START, false);
    assert!(!emulator.soc.peripheral.keypad.start);
}

#[test]
fn soc_starts_in_the_boot_program() {
    let mut boot = vec![0u8; 256];
    boot[0] = 0x3E; // LD A, 0x42
    boot[1] = 0x42;
    let mut rom = vec![0xC3u8; 0x8000];
    rom[0x147] = 0x00;
    rom[0x148] = 0x00;
    rom[0x149] = 0x00;
    let mut soc = Soc::new(&boot, Cartridge::new(&rom));
    assert_eq!(soc.peripheral.read(0x0000), 0x3E);
    assert_eq!(soc.peripheral.read(0x0100), 0xC3);
    // LD A, d8: 2 machine cycles, 8 clock ticks
    assert_eq!(soc.run(), 8);
    assert_eq!(soc.cpu.registers.a, 0x42);
    assert_eq!(soc.cpu.pc, 2);
    // unmapping the boot program shows the cartridge
    soc.peripheral.write(0xFF50, 0x01);
    assert_eq!(soc.peripheral.read(0x0000), 0xC3);
    assert_eq!(soc.get_frame_buffer(0), 0);
}

#[test]
fn debugger_stops_at_the_breakpoint() {
    let mut emulator = machine(true);
    let mut commands = Vec::new();
    emulator.run(0, &mut commands);
    // break on the loop's own address, then run
    commands.push(DebuggerCommand::BREAK_SET(0x0000));
    emulator.run(0, &mut commands);
    assert_eq!(emulator.breakpoint, Some(0x0000));
    commands.push(DebuggerCommand::RUN);
    emulator.run(0, &mut commands);
    assert_eq!(emulator.debugger_state, DebuggerState::RUN);
    emulator.run(0, &mut commands);
    assert_eq!(emulator.debugger_state, DebuggerState::HALT);
    assert!(emulator.display_cpu_reg);
    commands.push(DebuggerCommand::BREAK_RESET);
    emulator.run(0, &mut commands);
    assert_eq!(emulator.breakpoint, None);
}

#[test]
fn console_commands_parse() {
    assert_eq!(parse_command(b"run"), Some(DebuggerCommand::RUN));
    assert_eq!(parse_command(b"halt"), Some(DebuggerCommand::HALT));
    assert_eq!(parse_command(b"step"), Some(DebuggerCommand::STEP));
    assert_eq!(parse_command(b"break_reset"), Some(DebuggerCommand::BREAK_RESET));
    assert_eq!(parse_command(b"break_set C012"), Some(DebuggerCommand::BREAK_SET(0xC012)));
    assert_eq!(parse_command(b"break_set ff"), Some(DebuggerCommand::BREAK_SET(0x00FF)));
    assert_eq!(parse_command(b"break_set"), None);
    assert_eq!(parse_command(b"break_set 12345"), None);
    assert_eq!(parse_command(b"break_set 12G4"), None);
    assert_eq!(parse_command(b"jump"), None);
    assert_eq!(parse_command(b""), None);
}

/// A machine whose boot program is `program` followed by NOPs.
fn soc_with_program(program: &[u8]) -> Soc {
    let mut boot = vec![0u8; 256];
    boot[..program.len()].copy_from_slice(program);
    let rom = vec![0u8; 0x8000];
    Soc::new(&boot, Cartridge::new(&rom))
}

#[test]
fn a_step_that_would_carry_the_dma_past_oam_cannot_be_taken() {
    // NOP: 4 clock ticks bring a transfer at entry 156 exactly to its end
    let mut soc = soc_with_program(&[0x00]);
    soc.peripheral.write(0xFF46, 0xC0);
    soc.peripheral.dma_cycles = 156;
    assert!(soc.can_run());
    assert_eq!(soc.run(), 4);
    assert!(!soc.peripheral.dma_enabled);
    // LD BC, d16: 12 clock ticks would reach entry 168
    let mut soc = soc_with_program(&[0x01, 0x34, 0x12]);
    soc.peripheral.write(0xFF46, 0xC0);
    soc.peripheral.dma_cycles = 156;
    assert!(!soc.can_run());
    soc.peripheral.dma_cycles = 148;
    assert!(soc.can_run());
}

#[test]
fn a_dma_from_the_register_page_cannot_be_taken() {
    // LDH (0x46), A with A = 0xFF starts a transfer from 0xFF00, whose fourth byte
    // answers no read
    let mut soc = soc_with_program(&[0xE0, 0x46]);
    soc.cpu.registers.a = 0xFF;
    assert!(!soc.can_run());
    soc.cpu.registers.a = 0xC0;
    assert!(soc.can_run());
    assert_eq!(soc.run(), 12);
    assert!(soc.peripheral.dma_enabled);
    assert_eq!(soc.peripheral.dma_start_adress, 0xC000);
}

#[test]
fn an_opcode_on_an_unread_register_cannot_be_run() {
    let mut soc = soc_with_program(&[0xC3, 0x03, 0xFF]);
    // JP 0xFF03 runs; the next fetch would read 0xFF03
    assert!(soc.can_run());
    assert_eq!(soc.run(), 16);
    assert_eq!(soc.cpu.pc, 0xFF03);
    assert!(!soc.can_run());
}
