# qoboy

A Game Boy (DMG) emulator whose machine is a verified library: every function of
`src/` carries a contract that Verus proves, stated over mathematical models of the
processor, the memory map and the devices.

## Layout

- `src/lib.rs` — a register file that keeps F as a plain byte.
- `src/cartridge/` — the cartridge header (controller type, ROM and RAM sizes) and the
  ROM-only cartridge.
- `src/soc/cpu/` — the LR35902 processor: opcode decoding (`instruction.rs`), the
  register file (`register.rs`), the arithmetic and bit operations with their flags
  (`alu.rs`), and fetch/execute/interrupts (`mod.rs`, with `execute_spec` and
  `run_spec` as the model of one instruction and one step).
- `src/soc/peripheral/` — the memory map (`mod.rs`: `PeripheralView::read`, `write`,
  `run`), the picture processor (`gpu.rs`: the line renderer and the mode state
  machine), the interrupt controller, the timer, the keypad and the boot ROM.
- `src/soc/mod.rs` — the machine: one processor step, then the devices for as many
  clock ticks.

The machine stops on a read of an I/O register that answers none, on a write to bank N
of the cartridge, to the echo area or to an I/O register that takes none, and on an OAM
DMA step that would run past the end of OAM. The library's contracts leave those inputs
out (`is_readable`, `is_writable`, `PeripheralView::dma_ok`, `can_run_spec`,
`SocView::can_run`), and `Soc::can_run` tells before a step whether it can be taken.
- `src/emulator.rs`, `src/debug.rs` — the frame loop and the debugger (halt, run,
  step, one breakpoint) as state machines; `src/debug/command.rs` parses the console
  commands.
- `app/main.rs` — the window, the keyboard, the files, the clock and the console.
- `tests/` — the unit tests of each part, and tests of the laws on concrete values.

Run it with a boot ROM and a game image:

```shell
qoboy <boot_rom_path> <game_rom_path> [--debug]
```
