//! The LR35902 processor: fetch, decode and execution of its instructions, and its
//! response to interrupts.
pub mod alu;
pub mod instruction;
pub mod register;

use vstd::prelude::*;
use crate::soc::cpu::alu::{
    add16_spec, add_spec, addc_spec, and_spec, complement_bit_spec, cp_spec, dec_spec,
    decimal_adjust_spec, inc_spec, or_spec, rotate_spec, rotate_through_carry_spec, set_bit_spec,
    shift_left_and_reset_spec, shift_right_and_reset_spec, shift_right_spec, sub_spec, subc_spec,
    swap_spec, xor_spec,
};
use crate::soc::cpu::instruction::{
    ArithmeticTarget, BitTarget, Direction, IncDecTarget, Instruction, JumpTarget, Load16Target,
    PopPushTarget, RamTarget, ResetTarget, SPTarget, U16Target, LONG_INSTRUCTION_PREFIX, decode,
    decode_long, operand_code, register_code,
};
use crate::soc::cpu::register::{FlagRegister, Registers, pair, high_byte, low_byte};
use crate::soc::peripheral::{
    Peripheral, PeripheralView, VBLANK_VECTOR, LCDSTAT_VECTOR, TIMER_VECTOR, is_plain_memory,
    INTERRUPT_ENABLE_REGISTER, is_readable, is_writable, lemma_write_dma_registers,
    lemma_write_keeps_other_any, read_cell,
    lemma_write_frame, lemma_write_keeps_other, lemma_write_keeps_wf, lemma_write_then_read,
    readable, writable,
};
use crate::soc::peripheral::nvic::{InterruptSources, Nvic};

verus! {

pub const RUN_0_CYCLE: u8 = 0;
pub const RUN_1_CYCLE: u8 = 1;
pub const RUN_2_CYCLES: u8 = 2;
pub const RUN_3_CYCLES: u8 = 3;
pub const RUN_4_CYCLES: u8 = 4;
pub const RUN_5_CYCLES: u8 = 5;
pub const RUN_6_CYCLES: u8 = 6;

#[derive(Copy, Clone, Debug, PartialEq, Eq, Structural)]
pub enum CpuMode {
    RUN,
    INTERRUPT,
    STOP,
    HALT,
}

#[derive(Copy, Clone, Debug, PartialEq, Eq, Structural)]
pub enum CarryOp {
    SET,
    FLIP,
}

pub struct Cpu {
    pub registers: Registers,
    pub pc: u16,
    pub sp: u16,
    pub mode: CpuMode,
}

/// What an instruction leaves: the processor, the devices, the address of the next
/// instruction and the machine cycles it took.
pub type Effect = (Cpu, PeripheralView, u16, u8);

/// A 16-bit address or register value, wrapping around.
pub open spec fn wrap16(value: int) -> u16 {
    (value % 0x10000) as u16
}

/// The offset byte of a relative jump, read as a signed number.
pub open spec fn signed_offset(byte: u8) -> int {
    if byte < 128 {
        byte as int
    } else {
        byte - 256
    }
}

/// An 8-bit register.
pub open spec fn reg8(r: Registers, target: IncDecTarget) -> u8 {
    match target {
        IncDecTarget::A => r.a,
        IncDecTarget::B => r.b,
        IncDecTarget::C => r.c,
        IncDecTarget::D => r.d,
        IncDecTarget::E => r.e,
        IncDecTarget::H => r.h,
        IncDecTarget::L => r.l,
        IncDecTarget::HL => 0,
    }
}

pub open spec fn with_reg8(r: Registers, target: IncDecTarget, value: u8) -> Registers {
    match target {
        IncDecTarget::A => Registers { a: value, ..r },
        IncDecTarget::B => Registers { b: value, ..r },
        IncDecTarget::C => Registers { c: value, ..r },
        IncDecTarget::D => Registers { d: value, ..r },
        IncDecTarget::E => Registers { e: value, ..r },
        IncDecTarget::H => Registers { h: value, ..r },
        IncDecTarget::L => Registers { l: value, ..r },
        IncDecTarget::HL => r,
    }
}

/// An 8-bit register named as an operand.
pub open spec fn source8(r: Registers, target: ArithmeticTarget) -> u8 {
    match target {
        ArithmeticTarget::A => r.a,
        ArithmeticTarget::B => r.b,
        ArithmeticTarget::C => r.c,
        ArithmeticTarget::D => r.d,
        ArithmeticTarget::E => r.e,
        ArithmeticTarget::H => r.h,
        ArithmeticTarget::L => r.l,
        _ => 0,
    }
}

/// Whether a conditional jump, call or return is taken.
pub open spec fn condition(f: FlagRegister, target: JumpTarget) -> bool {
    match target {
        JumpTarget::IMMEDIATE => true,
        JumpTarget::NZ => !f.zero,
        JumpTarget::NC => !f.carry,
        JumpTarget::Z => f.zero,
        JumpTarget::C => f.carry,
    }
}

pub open spec fn reset_vector(target: ResetTarget) -> u16 {
    match target {
        ResetTarget::FLASH_0 => 0x00,
        ResetTarget::FLASH_1 => 0x08,
        ResetTarget::FLASH_2 => 0x10,
        ResetTarget::FLASH_3 => 0x18,
        ResetTarget::FLASH_4 => 0x20,
        ResetTarget::FLASH_5 => 0x28,
        ResetTarget::FLASH_6 => 0x30,
        ResetTarget::FLASH_7 => 0x38,
    }
}

pub open spec fn bit_index(target: BitTarget) -> u8 {
    match target {
        BitTarget::BIT_0 => 0,
        BitTarget::BIT_1 => 1,
        BitTarget::BIT_2 => 2,
        BitTarget::BIT_3 => 3,
        BitTarget::BIT_4 => 4,
        BitTarget::BIT_5 => 5,
        BitTarget::BIT_6 => 6,
        BitTarget::BIT_7 => 7,
    }
}

impl Cpu {
    pub open spec fn with_registers(self, registers: Registers) -> Cpu {
        Cpu { registers, ..self }
    }

    /// The address `k` bytes after the current instruction.
    pub open spec fn after(self, k: int) -> u16 {
        wrap16(self.pc + k)
    }

    /// A 16-bit register pair, or SP.
    pub open spec fn pair_value(self, target: U16Target) -> u16 {
        match target {
            U16Target::BC => self.registers.bc(),
            U16Target::DE => self.registers.de(),
            U16Target::HL => self.registers.hl(),
            U16Target::SP => self.sp,
        }
    }

    pub open spec fn with_pair(self, target: U16Target, value: u16) -> Cpu {
        match target {
            U16Target::BC => self.with_registers(self.registers.with_bc(value)),
            U16Target::DE => self.with_registers(self.registers.with_de(value)),
            U16Target::HL => self.with_registers(self.registers.with_hl(value)),
            U16Target::SP => Cpu { sp: value, ..self },
        }
    }

    /// The register pair that PUSH saves.
    pub open spec fn stack_value(self, target: PopPushTarget) -> u16 {
        match target {
            PopPushTarget::BC => self.registers.bc(),
            PopPushTarget::DE => self.registers.de(),
            PopPushTarget::HL => self.registers.hl(),
            PopPushTarget::AF => self.registers.af(),
        }
    }

    /// The register pair that POP restores.
    pub open spec fn with_stack_value(self, target: PopPushTarget, value: u16) -> Cpu {
        match target {
            PopPushTarget::BC => self.with_registers(self.registers.with_bc(value)),
            PopPushTarget::DE => self.with_registers(self.registers.with_de(value)),
            PopPushTarget::HL => self.with_registers(self.registers.with_hl(value)),
            PopPushTarget::AF => self.with_registers(self.registers.with_af(value)),
        }
    }
}

/// PUSH: the high byte goes to SP - 1, the low byte to SP - 2, and SP moves down by 2.
pub open spec fn push_spec(cpu: Cpu, p: PeripheralView, value: u16) -> (Cpu, PeripheralView) {
    let p1 = p.write(wrap16(cpu.sp - 1), high_byte(value));
    let p2 = p1.write(wrap16(cpu.sp - 2), low_byte(value));
    (Cpu { sp: wrap16(cpu.sp - 2), ..cpu }, p2)
}

/// POP: the low byte from SP, the high byte from SP + 1, and SP moves up by 2.
pub open spec fn pop_spec(cpu: Cpu, p: PeripheralView) -> (Cpu, u16) {
    let low = p.read(cpu.sp);
    let high = p.read(wrap16(cpu.sp + 1));
    (Cpu { sp: wrap16(cpu.sp + 2), ..cpu }, pair(high, low))
}

/// The 16-bit little-endian immediate after the opcode.
pub open spec fn immediate16(cpu: Cpu, p: PeripheralView) -> u16 {
    pair(p.read(cpu.after(2)), p.read(cpu.after(1)))
}

/// The value of an 8-bit operand, the address of the next instruction and the cycles.
pub open spec fn operand_spec(cpu: Cpu, p: PeripheralView, target: ArithmeticTarget) -> (u8, u16, u8) {
    match target {
        ArithmeticTarget::HL => (p.read(cpu.registers.hl()), cpu.after(1), 2),
        ArithmeticTarget::D8 => (p.read(cpu.after(1)), cpu.after(2), 2),
        _ => (source8(cpu.registers, target), cpu.after(1), 1),
    }
}

/// The result and flags of the 8-bit operation of an instruction on A and a value.
pub open spec fn alu_result(instruction: Instruction, a: u8, f: FlagRegister, value: u8) -> (u8, FlagRegister) {
    match instruction {
        Instruction::ADD(_) => add_spec(a, value),
        Instruction::ADDC(_) => addc_spec(a, f, value),
        Instruction::SUB(_) => sub_spec(a, value),
        Instruction::SBC(_) => subc_spec(a, f, value),
        Instruction::AND(_) => and_spec(a, value),
        Instruction::XOR(_) => xor_spec(a, value),
        Instruction::OR(_) => or_spec(a, value),
        _ => cp_spec(a, value),
    }
}

/// ADD, ADC, SUB, SBC, AND, XOR, OR, CP: A and the flags from A and the operand.
pub open spec fn alu8_spec(cpu: Cpu, p: PeripheralView, instruction: Instruction, target: ArithmeticTarget) -> Effect {
    let (value, next_pc, cycles) = operand_spec(cpu, p, target);
    let (result, f) = alu_result(instruction, cpu.registers.a, cpu.registers.f, value);
    (cpu.with_registers(Registers { a: result, f, ..cpu.registers }), p, next_pc, cycles)
}

/// The result and flags of a one-operand operation on a register or memory byte.
/// Rotations through the 0xCB prefix clear N and H, and set Z from the result only
/// for the byte at (HL).
pub open spec fn unary_result(instruction: Instruction, f: FlagRegister, value: u8, on_memory: bool) -> (u8, FlagRegister) {
    let cleared = FlagRegister { substraction: false, half_carry: false, ..f };
    match instruction {
        Instruction::INC(_) => inc_spec(f, value),
        Instruction::DEC(_) => dec_spec(f, value),
        Instruction::RC(direction, _) => rotate_spec(cleared, value, direction, on_memory),
        Instruction::R(direction, _) => rotate_through_carry_spec(cleared, value, direction, on_memory),
        Instruction::SLA(_) => shift_left_and_reset_spec(value),
        Instruction::SRA(_) => shift_right_spec(value),
        Instruction::SRL(_) => shift_right_and_reset_spec(value),
        Instruction::SWAP(_) => swap_spec(value),
        Instruction::RESET_BIT(bit, _) => (set_bit_spec(false, bit_index(bit), value), f),
        Instruction::SET_BIT(bit, _) => (set_bit_spec(true, bit_index(bit), value), f),
        _ => (value, f),
    }
}

/// The length and the cycles (on a register, on (HL)) of a one-operand instruction:
/// INC and DEC take one byte, the 0xCB instructions two.
pub open spec fn unary_steps(instruction: Instruction) -> (int, u8, u8) {
    match instruction {
        Instruction::INC(_) | Instruction::DEC(_) => (1, 1, 3),
        _ => (2, 2, 4),
    }
}

/// INC, DEC, and the rotate, shift, swap, set and reset instructions of the 0xCB prefix:
/// the operand is read, changed and written back.
pub open spec fn unary_spec(cpu: Cpu, p: PeripheralView, instruction: Instruction, target: IncDecTarget) -> Effect {
    let (length, register_cycles, memory_cycles) = unary_steps(instruction);
    if target == IncDecTarget::HL {
        let address = cpu.registers.hl();
        let (result, f) = unary_result(instruction, cpu.registers.f, p.read(address), true);
        (cpu.with_flags(f), p.write(address, result), cpu.after(length), memory_cycles)
    } else {
        let (result, f) = unary_result(instruction, cpu.registers.f, reg8(cpu.registers, target), false);
        (
            cpu.with_registers(Registers { f, ..with_reg8(cpu.registers, target, result) }),
            p,
            cpu.after(length),
            register_cycles,
        )
    }
}

/// BIT: Z tells whether the bit of the operand is clear.
pub open spec fn bit_spec(cpu: Cpu, p: PeripheralView, bit: BitTarget, target: IncDecTarget) -> Effect {
    if target == IncDecTarget::HL {
        let value = p.read(cpu.registers.hl());
        (cpu.with_flags(complement_bit_spec(cpu.registers.f, bit_index(bit), value)), p, cpu.after(2), 4)
    } else {
        let value = reg8(cpu.registers, target);
        (cpu.with_flags(complement_bit_spec(cpu.registers.f, bit_index(bit), value)), p, cpu.after(2), 2)
    }
}

/// RLCA, RRCA, RLA, RRA: A rotated, Z, N and H cleared.
pub open spec fn rotate_a_spec(cpu: Cpu, direction: Direction, through_carry: bool) -> (Cpu, u16, u8) {
    let cleared = FlagRegister { substraction: false, half_carry: false, ..cpu.registers.f };
    let (result, f) = if through_carry {
        rotate_through_carry_spec(cleared, cpu.registers.a, direction, false)
    } else {
        rotate_spec(cleared, cpu.registers.a, direction, false)
    };
    (cpu.with_registers(Registers { a: result, f, ..cpu.registers }), cpu.after(1), 1)
}

/// LD r, r' / LD r, (HL) / LD r, d8 / LD (HL), r / LD (HL), d8. The pair (HL), (HL)
/// is HALT's opcode and does nothing here, with a next address of 0.
pub open spec fn load_spec(cpu: Cpu, p: PeripheralView, main: IncDecTarget, input: ArithmeticTarget) -> Effect {
    if main != IncDecTarget::HL {
        let (value, next_pc, cycles) = operand_spec(cpu, p, input);
        (cpu.with_registers(with_reg8(cpu.registers, main, value)), p, next_pc, cycles)
    } else {
        match input {
            ArithmeticTarget::HL => (cpu, p, 0, 0),
            ArithmeticTarget::D8 => {
                let value = p.read(cpu.after(1));
                (cpu, p.write(cpu.registers.hl(), value), cpu.after(2), 3)
            },
            _ => (cpu, p.write(cpu.registers.hl(), source8(cpu.registers, input)), cpu.after(1), 2),
        }
    }
}

/// The address that LD A, (rr) and LD (rr), A use.
pub open spec fn indirect_address(r: Registers, target: Load16Target) -> u16 {
    match target {
        Load16Target::BC => r.bc(),
        Load16Target::DE => r.de(),
        _ => r.hl(),
    }
}

/// HL after LD A, (HL+) / LD A, (HL-) and their stores.
pub open spec fn indirect_hl_after(r: Registers, target: Load16Target) -> Registers {
    match target {
        Load16Target::HL_plus => r.with_hl(wrap16(r.hl() + 1)),
        Load16Target::HL_minus => r.with_hl(wrap16(r.hl() - 1)),
        _ => r,
    }
}

pub open spec fn load_indirect_spec(cpu: Cpu, p: PeripheralView, target: Load16Target) -> Effect {
    let value = p.read(indirect_address(cpu.registers, target));
    (
        cpu.with_registers(indirect_hl_after(Registers { a: value, ..cpu.registers }, target)),
        p,
        cpu.after(1),
        2,
    )
}

pub open spec fn store_indirect_spec(cpu: Cpu, p: PeripheralView, target: Load16Target) -> Effect {
    (
        cpu.with_registers(indirect_hl_after(cpu.registers, target)),
        p.write(indirect_address(cpu.registers, target), cpu.registers.a),
        cpu.after(1),
        2,
    )
}

/// LD (a16), SP / LD HL, SP + r8 / LD SP, HL (which here moves PC to HL, and the next
/// instruction is the byte after it).
pub open spec fn load_sp_spec(cpu: Cpu, p: PeripheralView, target: SPTarget) -> Effect {
    match target {
        SPTarget::FROM_SP => {
            let address = immediate16(cpu, p);
            let p1 = p.write(address, low_byte(cpu.sp));
            (cpu, p1.write(wrap16(address + 1), high_byte(cpu.sp)), cpu.after(3), 4)
        },
        SPTarget::TO_HL => {
            let offset = p.read(cpu.after(1));
            let f = FlagRegister {
                zero: false,
                substraction: false,
                half_carry: cpu.sp % 16 + offset % 16 > 15,
                carry: cpu.sp % 256 + offset > 255,
            };
            let registers = cpu.registers.with_hl(wrap16(cpu.sp + signed_offset(offset)));
            (cpu.with_registers(Registers { f, ..registers }), p, cpu.after(2), 3)
        },
        SPTarget::TO_SP => {
            let hl = cpu.registers.hl();
            (Cpu { pc: hl, ..cpu }, p, wrap16(hl + 1), 2)
        },
    }
}

/// The address of LDH (a8) / LD (C) / LD (a16), the next address and the cycles.
pub open spec fn ram_address_spec(cpu: Cpu, p: PeripheralView, target: RamTarget) -> (u16, u16, u8) {
    match target {
        RamTarget::OneByteAddress => ((0xFF00 + p.read(cpu.after(1))) as u16, cpu.after(2), 3),
        RamTarget::AddressFromRegister => ((0xFF00 + cpu.registers.c) as u16, cpu.after(1), 2),
        RamTarget::TwoBytesAddress => (immediate16(cpu, p), cpu.after(3), 4),
    }
}

/// LD A, (address) when loading, LD (address), A when storing.
pub open spec fn load_store_ram_spec(cpu: Cpu, p: PeripheralView, target: RamTarget, load: bool) -> Effect {
    let (address, next_pc, cycles) = ram_address_spec(cpu, p, target);
    if load {
        (cpu.with_registers(Registers { a: p.read(address), ..cpu.registers }), p, next_pc, cycles)
    } else {
        (cpu, p.write(address, cpu.registers.a), next_pc, cycles)
    }
}

pub open spec fn jump_relative_spec(cpu: Cpu, p: PeripheralView, flag: bool) -> Effect {
    if flag {
        (cpu, p, wrap16(cpu.pc + 2 + signed_offset(p.read(cpu.after(1)))), 3)
    } else {
        (cpu, p, cpu.after(2), 2)
    }
}

pub open spec fn jump_immediate_spec(cpu: Cpu, p: PeripheralView, flag: bool) -> Effect {
    if flag {
        (cpu, p, immediate16(cpu, p), 4)
    } else {
        (cpu, p, cpu.after(3), 3)
    }
}

/// CALL: the address after the instruction is pushed, then the target is read.
pub open spec fn call_spec(cpu: Cpu, p: PeripheralView, flag: bool) -> Effect {
    if flag {
        let (c1, p1) = push_spec(cpu, p, cpu.after(3));
        (c1, p1, pair(p1.read(cpu.after(2)), p1.read(cpu.after(1))), 6)
    } else {
        (cpu, p, cpu.after(3), 3)
    }
}

pub open spec fn return_spec(cpu: Cpu, p: PeripheralView, target: JumpTarget) -> Effect {
    let (c1, address) = pop_spec(cpu, p);
    if target == JumpTarget::IMMEDIATE {
        (c1, p, address, 4)
    } else if condition(cpu.registers.f, target) {
        (c1, p, address, 5)
    } else {
        (cpu, p, cpu.after(1), 2)
    }
}

pub open spec fn reset_spec(cpu: Cpu, p: PeripheralView, target: ResetTarget) -> Effect {
    let (c1, p1) = push_spec(cpu, p, cpu.after(1));
    (c1, p1, reset_vector(target), 4)
}

/// RETI: interrupts enabled again, then the return address popped.
pub open spec fn reti_spec(cpu: Cpu, p: PeripheralView) -> Effect {
    let p1 = PeripheralView { nvic: Nvic { interrupt_master_enable: true, ..p.nvic }, ..p };
    let (c1, address) = pop_spec(cpu, p1);
    (c1, p1, address, 4)
}

/// ADD SP, r8. H and C are computed from the new SP.
pub open spec fn add_sp_spec(cpu: Cpu, p: PeripheralView) -> Effect {
    let offset = p.read(cpu.after(1));
    let value: u16 = if offset < 128 {
        offset as u16
    } else {
        (offset + 0xFF00) as u16
    };
    let sp = wrap16(cpu.sp + value);
    let f = FlagRegister {
        zero: false,
        substraction: false,
        half_carry: sp % 16 + value % 16 > 15,
        carry: sp % 256 + value % 256 > 255,
    };
    (Cpu { sp, ..cpu.with_flags(f) }, p, cpu.after(2), 4)
}

/// The family of an instruction, in the order in which execution tells them apart:
/// arithmetic, load and store, control flow, then rotate, shift and bit instructions.
pub open spec fn family(instruction: Instruction) -> int {
    match instruction {
        Instruction::ADD(_) | Instruction::ADD16(_) | Instruction::ADDC(_) | Instruction::SUB(_)
        | Instruction::SBC(_) | Instruction::AND(_) | Instruction::XOR(_) | Instruction::OR(_)
        | Instruction::CP(_) | Instruction::AddSp | Instruction::INC(_) | Instruction::INC16(_)
        | Instruction::DEC(_) | Instruction::DEC16(_) => 0,
        Instruction::LOAD(_, _) | Instruction::LOAD_INDIRECT(_) | Instruction::LOAD_IMMEDIATE(_)
        | Instruction::STORE_INDIRECT(_) | Instruction::LOAD_SP(_) | Instruction::LOAD_RAM(_)
        | Instruction::STORE_RAM(_) => 1,
        Instruction::RCA(_) | Instruction::RA(_) | Instruction::RC(_, _) | Instruction::R(_, _)
        | Instruction::SLA(_) | Instruction::SRA(_) | Instruction::SRL(_) | Instruction::SWAP(_)
        | Instruction::BIT(_, _) | Instruction::RESET_BIT(_, _) | Instruction::SET_BIT(_, _) => 3,
        _ => 2,
    }
}

/// What executing an instruction does.
pub open spec fn execute_spec(cpu: Cpu, p: PeripheralView, instruction: Instruction) -> Effect {
    match instruction {
        Instruction::ADD(target) => alu8_spec(cpu, p, instruction, target),
        Instruction::ADDC(target) => alu8_spec(cpu, p, instruction, target),
        Instruction::SUB(target) => alu8_spec(cpu, p, instruction, target),
        Instruction::SBC(target) => alu8_spec(cpu, p, instruction, target),
        Instruction::AND(target) => alu8_spec(cpu, p, instruction, target),
        Instruction::OR(target) => alu8_spec(cpu, p, instruction, target),
        Instruction::XOR(target) => alu8_spec(cpu, p, instruction, target),
        Instruction::CP(target) => alu8_spec(cpu, p, instruction, target),
        Instruction::ADD16(target) => {
            let (result, f) = add16_spec(cpu.registers.hl(), cpu.registers.f, cpu.pair_value(target));
            (cpu.with_registers(Registers { f, ..cpu.registers }.with_hl(result)), p, cpu.after(1), 2)
        },
        Instruction::INC(target) => unary_spec(cpu, p, instruction, target),
        Instruction::DEC(target) => unary_spec(cpu, p, instruction, target),
        Instruction::INC16(target) => (
            cpu.with_pair(target, wrap16(cpu.pair_value(target) + 1)),
            p,
            cpu.after(1),
            2,
        ),
        Instruction::DEC16(target) => (
            cpu.with_pair(target, wrap16(cpu.pair_value(target) - 1)),
            p,
            cpu.after(1),
            2,
        ),
        Instruction::LOAD(main, input) => load_spec(cpu, p, main, input),
        Instruction::LOAD_INDIRECT(target) => load_indirect_spec(cpu, p, target),
        Instruction::LOAD_IMMEDIATE(target) => (
            cpu.with_pair(target, immediate16(cpu, p)),
            p,
            cpu.after(3),
            3,
        ),
        Instruction::STORE_INDIRECT(target) => store_indirect_spec(cpu, p, target),
        Instruction::LOAD_SP(target) => load_sp_spec(cpu, p, target),
        Instruction::LOAD_RAM(target) => load_store_ram_spec(cpu, p, target, true),
        Instruction::STORE_RAM(target) => load_store_ram_spec(cpu, p, target, false),
        Instruction::JUMP_RELATIVE(target) => jump_relative_spec(cpu, p, condition(cpu.registers.f, target)),
        Instruction::JUMP_IMMEDIATE(target) => jump_immediate_spec(cpu, p, condition(cpu.registers.f, target)),
        Instruction::JUMP_INDIRECT => (cpu, p, cpu.registers.hl(), 1),
        Instruction::RETURN(target) => return_spec(cpu, p, target),
        Instruction::RESET(target) => reset_spec(cpu, p, target),
        Instruction::CALL(target) => call_spec(cpu, p, condition(cpu.registers.f, target)),
        Instruction::RETI => reti_spec(cpu, p),
        Instruction::POP(target) => {
            let (c1, value) = pop_spec(cpu, p);
            (c1.with_stack_value(target, value), p, cpu.after(1), 3)
        },
        Instruction::PUSH(target) => {
            let (c1, p1) = push_spec(cpu, p, cpu.stack_value(target));
            (c1, p1, cpu.after(1), 4)
        },
        Instruction::AddSp => add_sp_spec(cpu, p),
        Instruction::DI => (
            cpu,
            PeripheralView { nvic: Nvic { interrupt_master_enable: false, ..p.nvic }, ..p },
            cpu.after(1),
            1,
        ),
        Instruction::EI => (
            cpu,
            PeripheralView { nvic: Nvic { interrupt_master_enable: true, ..p.nvic }, ..p },
            cpu.after(1),
            1,
        ),
        Instruction::NOP => (cpu, p, cpu.after(1), 1),
        Instruction::STOP => (Cpu { mode: CpuMode::STOP, ..cpu }, p, cpu.after(1), 1),
        Instruction::HALT => (Cpu { mode: CpuMode::HALT, ..cpu }, p, cpu.after(1), 1),
        Instruction::DAA => {
            let (a, carry) = decimal_adjust_spec(cpu.registers.a, cpu.registers.f);
            let f = FlagRegister { zero: a == 0, half_carry: false, carry, ..cpu.registers.f };
            (cpu.with_registers(Registers { a, f, ..cpu.registers }), p, cpu.after(1), 1)
        },
        Instruction::SCF => (
            cpu.with_flags(FlagRegister { zero: false, half_carry: false, carry: true, ..cpu.registers.f }),
            p,
            cpu.after(1),
            1,
        ),
        Instruction::CCF => (
            cpu.with_flags(
                FlagRegister { zero: false, half_carry: false, carry: !cpu.registers.f.carry, ..cpu.registers.f },
            ),
            p,
            cpu.after(1),
            1,
        ),
        Instruction::CPL => (
            cpu.with_registers(
                Registers {
                    a: !cpu.registers.a,
                    f: FlagRegister { substraction: true, half_carry: true, ..cpu.registers.f },
                    ..cpu.registers
                },
            ),
            p,
            cpu.after(1),
            1,
        ),
        Instruction::RCA(direction) => {
            let (c1, next_pc, cycles) = rotate_a_spec(cpu, direction, false);
            (c1, p, next_pc, cycles)
        },
        Instruction::RA(direction) => {
            let (c1, next_pc, cycles) = rotate_a_spec(cpu, direction, true);
            (c1, p, next_pc, cycles)
        },
        Instruction::RC(_, target) => unary_spec(cpu, p, instruction, target),
        Instruction::R(_, target) => unary_spec(cpu, p, instruction, target),
        Instruction::SLA(target) => unary_spec(cpu, p, instruction, target),
        Instruction::SRA(target) => unary_spec(cpu, p, instruction, target),
        Instruction::SRL(target) => unary_spec(cpu, p, instruction, target),
        Instruction::SWAP(target) => unary_spec(cpu, p, instruction, target),
        Instruction::BIT(bit, target) => bit_spec(cpu, p, bit, target),
        Instruction::RESET_BIT(_, target) => unary_spec(cpu, p, instruction, target),
        Instruction::SET_BIT(_, target) => unary_spec(cpu, p, instruction, target),
    }
}


/// The two stack bytes below SP, which a push writes, take a write.
pub open spec fn push_ok(cpu: Cpu) -> bool {
    is_writable(wrap16(cpu.sp - 1)) && is_writable(wrap16(cpu.sp - 2))
}

/// The two stack bytes at SP, which a pop reads, answer a read.
pub open spec fn pop_ok(cpu: Cpu) -> bool {
    is_readable(cpu.sp) && is_readable(wrap16(cpu.sp + 1))
}

/// The two bytes after the opcode answer a read.
pub open spec fn immediate_ok(cpu: Cpu) -> bool {
    is_readable(cpu.after(1)) && is_readable(cpu.after(2))
}

/// The memory operand of an 8-bit operation, if any, answers a read.
pub open spec fn operand_ok(cpu: Cpu, target: ArithmeticTarget) -> bool {
    match target {
        ArithmeticTarget::HL => is_readable(cpu.registers.hl()),
        ArithmeticTarget::D8 => is_readable(cpu.after(1)),
        _ => true,
    }
}

/// The byte at (HL), when it is the operand of a one-operand operation, answers a read
/// and takes the write back.
pub open spec fn unary_ok(cpu: Cpu, target: IncDecTarget) -> bool {
    target == IncDecTarget::HL ==> is_readable(cpu.registers.hl()) && is_writable(cpu.registers.hl())
}

/// The memory accesses of LD r, r' and its forms with (HL) and d8 are served.
pub open spec fn load_ok(cpu: Cpu, main: IncDecTarget, input: ArithmeticTarget) -> bool {
    if main != IncDecTarget::HL {
        operand_ok(cpu, input)
    } else {
        match input {
            ArithmeticTarget::HL => true,
            ArithmeticTarget::D8 => is_readable(cpu.after(1)) && is_writable(cpu.registers.hl()),
            _ => is_writable(cpu.registers.hl()),
        }
    }
}

/// The memory accesses of LDH (a8) / LD (C) / LD (a16), loading or storing, are served.
pub open spec fn ram_ok(cpu: Cpu, p: PeripheralView, target: RamTarget, load: bool) -> bool {
    let address = ram_address_spec(cpu, p, target).0;
    &&& match target {
        RamTarget::OneByteAddress => is_readable(cpu.after(1)),
        RamTarget::AddressFromRegister => true,
        RamTarget::TwoBytesAddress => immediate_ok(cpu),
    }
    &&& if load {
        is_readable(address)
    } else {
        is_writable(address)
    }
}

/// The memory accesses of LD (a16), SP / LD HL, SP + r8 / LD SP, HL are served.
pub open spec fn load_sp_ok(cpu: Cpu, p: PeripheralView, target: SPTarget) -> bool {
    match target {
        SPTarget::FROM_SP => immediate_ok(cpu) && is_writable(immediate16(cpu, p)) && is_writable(
            wrap16(immediate16(cpu, p) + 1),
        ),
        SPTarget::TO_HL => is_readable(cpu.after(1)),
        SPTarget::TO_SP => true,
    }
}

/// Every memory access that executing an instruction makes is served: its reads answer,
/// its writes are taken. Elsewhere the machine stops.
pub open spec fn execute_ok(cpu: Cpu, p: PeripheralView, instruction: Instruction) -> bool {
    match instruction {
        Instruction::ADD(target) => operand_ok(cpu, target),
        Instruction::ADDC(target) => operand_ok(cpu, target),
        Instruction::SUB(target) => operand_ok(cpu, target),
        Instruction::SBC(target) => operand_ok(cpu, target),
        Instruction::AND(target) => operand_ok(cpu, target),
        Instruction::OR(target) => operand_ok(cpu, target),
        Instruction::XOR(target) => operand_ok(cpu, target),
        Instruction::CP(target) => operand_ok(cpu, target),
        Instruction::INC(target) => unary_ok(cpu, target),
        Instruction::DEC(target) => unary_ok(cpu, target),
        Instruction::RC(_, target) => unary_ok(cpu, target),
        Instruction::R(_, target) => unary_ok(cpu, target),
        Instruction::SLA(target) => unary_ok(cpu, target),
        Instruction::SRA(target) => unary_ok(cpu, target),
        Instruction::SRL(target) => unary_ok(cpu, target),
        Instruction::SWAP(target) => unary_ok(cpu, target),
        Instruction::RESET_BIT(_, target) => unary_ok(cpu, target),
        Instruction::SET_BIT(_, target) => unary_ok(cpu, target),
        Instruction::BIT(_, target) => target == IncDecTarget::HL ==> is_readable(cpu.registers.hl()),
        Instruction::LOAD(main, input) => load_ok(cpu, main, input),
        Instruction::LOAD_INDIRECT(target) => is_readable(indirect_address(cpu.registers, target)),
        Instruction::LOAD_IMMEDIATE(_) => immediate_ok(cpu),
        Instruction::STORE_INDIRECT(target) => is_writable(indirect_address(cpu.registers, target)),
        Instruction::LOAD_SP(target) => load_sp_ok(cpu, p, target),
        Instruction::LOAD_RAM(target) => ram_ok(cpu, p, target, true),
        Instruction::STORE_RAM(target) => ram_ok(cpu, p, target, false),
        Instruction::JUMP_RELATIVE(_) => is_readable(cpu.after(1)),
        Instruction::JUMP_IMMEDIATE(_) => immediate_ok(cpu),
        Instruction::RETURN(target) => condition(cpu.registers.f, target) ==> pop_ok(cpu),
        Instruction::RESET(_) => push_ok(cpu),
        Instruction::CALL(target) => condition(cpu.registers.f, target) ==> push_ok(cpu) && immediate_ok(cpu),
        Instruction::RETI => pop_ok(cpu),
        Instruction::POP(_) => pop_ok(cpu),
        Instruction::PUSH(_) => push_ok(cpu),
        Instruction::AddSp => is_readable(cpu.after(1)),
        _ => true,
    }
}

/// The instruction at PC whose first byte is `byte`: after the prefix 0xCB, the next
/// byte tells the instruction.
pub open spec fn decode_spec(cpu: Cpu, p: PeripheralView, byte: u8) -> Option<Instruction> {
    if byte == LONG_INSTRUCTION_PREFIX {
        Some(decode_long(p.read(cpu.after(1))))
    } else {
        decode(byte)
    }
}

/// The mode that a step runs in: an interrupt is taken as soon as one is requested,
/// enabled and the master enable is set, whatever the mode.
pub open spec fn effective_mode(cpu: Cpu, p: PeripheralView) -> CpuMode {
    if p.nvic.interrupt_master_enable && p.nvic.pending() {
        CpuMode::INTERRUPT
    } else {
        cpu.mode
    }
}

/// Whether a step can be run: when running, the opcode at PC (and the byte after the
/// prefix 0xCB) answer a read, the processor knows the instruction and its memory
/// accesses are served; when taking an interrupt, one of the five sources is requested
/// and enabled and the stack takes the pushed address.
pub open spec fn can_run_spec(cpu: Cpu, p: PeripheralView) -> bool {
    match effective_mode(cpu, p) {
        CpuMode::RUN => {
            &&& is_readable(cpu.pc)
            &&& p.read(cpu.pc) == LONG_INSTRUCTION_PREFIX ==> is_readable(cpu.after(1))
            &&& decode_spec(cpu, p, p.read(cpu.pc)) matches Some(instruction) && execute_ok(
                cpu,
                p,
                instruction,
            )
        },
        CpuMode::INTERRUPT => p.nvic.next_interrupt() is Some && push_ok(cpu),
        _ => true,
    }
}

/// The jump to an interrupt routine: PC is pushed and moves to the vector of the source
/// (VBLANK, STAT and TIMER have one here; the others leave PC where it is).
pub open spec fn interrupt_spec(cpu: Cpu, p: PeripheralView, source: InterruptSources) -> (Cpu, PeripheralView) {
    let (c1, p1) = push_spec(cpu, p, cpu.pc);
    match source {
        InterruptSources::VBLANK => (Cpu { pc: VBLANK_VECTOR, ..c1 }, p1),
        InterruptSources::STAT => (Cpu { pc: LCDSTAT_VECTOR, ..c1 }, p1),
        InterruptSources::TIMER => (Cpu { pc: TIMER_VECTOR, ..c1 }, p1),
        _ => (c1, p1),
    }
}

/// One step of the processor and the machine cycles it took. Running, it executes the
/// instruction at PC; taking an interrupt, it acknowledges the source, disables
/// interrupts and jumps to the routine (5 cycles); halted, it wakes up on a pending
/// interrupt (1 cycle); stopped, nothing moves.
pub open spec fn run_spec(cpu: Cpu, p: PeripheralView) -> (Cpu, PeripheralView, u8) {
    let mode = effective_mode(cpu, p);
    let c0 = Cpu { mode, ..cpu };
    match mode {
        CpuMode::RUN => {
            let instruction = decode_spec(c0, p, p.read(c0.pc)).unwrap();
            let (c1, p1, next_pc, cycles) = execute_spec(c0, p, instruction);
            (Cpu { pc: next_pc, ..c1 }, p1, cycles)
        },
        CpuMode::INTERRUPT => {
            let source = p.nvic.next_interrupt().unwrap();
            let p1 = PeripheralView {
                nvic: Nvic { interrupt_master_enable: false, ..p.nvic.after_acknowledge() },
                ..p
            };
            let (c1, p2) = interrupt_spec(Cpu { mode: CpuMode::RUN, ..c0 }, p1, source);
            (c1, p2, 5)
        },
        CpuMode::HALT => (
            if p.nvic.pending() {
                Cpu { mode: CpuMode::RUN, ..c0 }
            } else {
                c0
            },
            p,
            1,
        ),
        CpuMode::STOP => (c0, p, 0),
    }
}

/// The OAM DMA page that a step writes to 0xFF46 last, if it writes there: the DMA
/// registers after the step are those of a transfer from that page, or are unchanged.
pub open spec fn dma_page_effect(before: PeripheralView, after: PeripheralView, page: Option<u8>) -> bool {
    &&& after.dma_cycles == before.dma_cycles
    &&& match page {
        Some(page) => after.dma_enabled && after.dma_start_adress == page * 256,
        None => after.dma_enabled == before.dma_enabled && after.dma_start_adress
            == before.dma_start_adress,
    }
}

/// The page that a push leaves in 0xFF46: the low byte when SP - 2 is 0xFF46, the high
/// byte when SP - 1 is.
pub open spec fn push_dma_page(cpu: Cpu, value: u16) -> Option<u8> {
    if wrap16(cpu.sp - 2) == 0xFF46 {
        Some(low_byte(value))
    } else if wrap16(cpu.sp - 1) == 0xFF46 {
        Some(high_byte(value))
    } else {
        None
    }
}

proof fn lemma_push_dma(cpu: Cpu, p: PeripheralView, value: u16)
    ensures
        dma_page_effect(p, push_spec(cpu, p, value).1, push_dma_page(cpu, value)),
{
    let p1 = p.write(wrap16(cpu.sp - 1), high_byte(value));
    lemma_write_dma_registers(p, wrap16(cpu.sp - 1), high_byte(value));
    lemma_write_dma_registers(p1, wrap16(cpu.sp - 2), low_byte(value));
}

/// The page that a single write leaves in 0xFF46.
pub open spec fn write_dma_page(address: u16, data: u8) -> Option<u8> {
    if address == 0xFF46 {
        Some(data)
    } else {
        None
    }
}

/// Taking an interrupt: the step takes 5 machine cycles, clears the master enable, leaves
/// the processor running at the routine of the source with the address it left pushed,
/// and acknowledges the source in IF. IF and IE keep what the step gives them unless the
/// pushed bytes land on them.
pub proof fn lemma_interrupt_dispatch(cpu: Cpu, p: PeripheralView)
    requires
        p.wf(),
        effective_mode(cpu, p) == CpuMode::INTERRUPT,
        can_run_spec(cpu, p),
    ensures
        ({
            let (c1, p1, cycles) = run_spec(cpu, p);
            let high = wrap16(cpu.sp - 1);
            let low = wrap16(cpu.sp - 2);
            &&& cycles == 5
            &&& !p1.nvic.interrupt_master_enable
            &&& c1.mode == CpuMode::RUN
            &&& c1.sp == low
            &&& c1.registers == cpu.registers
            &&& p.nvic.next_interrupt() == Some(InterruptSources::VBLANK) ==> c1.pc == VBLANK_VECTOR
            &&& p.nvic.next_interrupt() == Some(InterruptSources::STAT) ==> c1.pc == LCDSTAT_VECTOR
            &&& p.nvic.next_interrupt() == Some(InterruptSources::TIMER) ==> c1.pc == TIMER_VECTOR
            &&& high != 0xFF0F && low != 0xFF0F ==> p1.nvic.interrupt_flag
                == p.nvic.after_acknowledge().interrupt_flag
            &&& high != INTERRUPT_ENABLE_REGISTER && low != INTERRUPT_ENABLE_REGISTER
                ==> p1.nvic.interrupt_enable == p.nvic.interrupt_enable
        }),
{
    let source = p.nvic.next_interrupt().unwrap();
    let p0 = PeripheralView {
        nvic: Nvic { interrupt_master_enable: false, ..p.nvic.after_acknowledge() },
        ..p
    };
    let high = wrap16(cpu.sp - 1);
    let low = wrap16(cpu.sp - 2);
    let value = cpu.pc;
    lemma_write_frame(p0, high, high_byte(value));
    let pa = p0.write(high, high_byte(value));
    lemma_write_keeps_wf(p0, high, high_byte(value));
    lemma_write_frame(pa, low, low_byte(value));
    assert(p.nvic.after_acknowledge().interrupt_enable == p.nvic.interrupt_enable);
}

/// The machine cycles of an instruction on the LR35902 as this processor counts them: one
/// per byte of the instruction, one per memory byte read or written, and the internal
/// cycles of 16-bit arithmetic, of taken jumps, calls and returns and of the stack.
/// (LD (a16), SP and BIT on (HL) are counted 4, LD (HL), (HL) is HALT's opcode and takes
/// none here.)
pub open spec fn machine_cycles(cpu: Cpu, instruction: Instruction) -> int {
    match instruction {
        Instruction::ADD(t) | Instruction::ADDC(t) | Instruction::SUB(t) | Instruction::SBC(t)
        | Instruction::AND(t) | Instruction::OR(t) | Instruction::XOR(t) | Instruction::CP(t) => if t
            == ArithmeticTarget::HL || t == ArithmeticTarget::D8 {
            2
        } else {
            1
        },
        Instruction::INC(t) | Instruction::DEC(t) => if t == IncDecTarget::HL {
            3
        } else {
            1
        },
        Instruction::RC(_, t) | Instruction::R(_, t) | Instruction::SLA(t) | Instruction::SRA(t)
        | Instruction::SRL(t) | Instruction::SWAP(t) | Instruction::RESET_BIT(_, t)
        | Instruction::SET_BIT(_, t) | Instruction::BIT(_, t) => if t == IncDecTarget::HL {
            4
        } else {
            2
        },
        Instruction::LOAD(main, input) => if main == IncDecTarget::HL && input == ArithmeticTarget::HL {
            0
        } else if input == ArithmeticTarget::D8 {
            if main == IncDecTarget::HL {
                3
            } else {
                2
            }
        } else if main == IncDecTarget::HL || input == ArithmeticTarget::HL {
            2
        } else {
            1
        },
        Instruction::ADD16(_) | Instruction::INC16(_) | Instruction::DEC16(_) => 2,
        Instruction::LOAD_INDIRECT(_) | Instruction::STORE_INDIRECT(_) => 2,
        Instruction::LOAD_IMMEDIATE(_) => 3,
        Instruction::LOAD_SP(SPTarget::FROM_SP) => 4,
        Instruction::LOAD_SP(SPTarget::TO_HL) => 3,
        Instruction::LOAD_SP(SPTarget::TO_SP) => 2,
        Instruction::LOAD_RAM(t) | Instruction::STORE_RAM(t) => match t {
            RamTarget::OneByteAddress => 3,
            RamTarget::AddressFromRegister => 2,
            RamTarget::TwoBytesAddress => 4,
        },
        Instruction::JUMP_RELATIVE(c) => if condition(cpu.registers.f, c) {
            3
        } else {
            2
        },
        Instruction::JUMP_IMMEDIATE(c) => if condition(cpu.registers.f, c) {
            4
        } else {
            3
        },
        Instruction::JUMP_INDIRECT => 1,
        Instruction::CALL(c) => if condition(cpu.registers.f, c) {
            6
        } else {
            3
        },
        Instruction::RETURN(c) => if c == JumpTarget::IMMEDIATE {
            4
        } else if condition(cpu.registers.f, c) {
            5
        } else {
            2
        },
        Instruction::RESET(_) | Instruction::RETI | Instruction::PUSH(_) | Instruction::AddSp => 4,
        Instruction::POP(_) => 3,
        _ => 1,
    }
}

/// The machine cycles that executing an instruction takes are those of `machine_cycles`.
#[verifier::spinoff_prover]
#[verifier::rlimit(60)]
pub proof fn lemma_instruction_cycles(cpu: Cpu, p: PeripheralView, instruction: Instruction)
    ensures
        execute_spec(cpu, p, instruction).3 == machine_cycles(cpu, instruction),
{
    if family(instruction) == 0 {
        lemma_arithmetic_cycles(cpu, p, instruction);
    } else if family(instruction) == 1 {
        lemma_load_cycles(cpu, p, instruction);
    } else if family(instruction) == 2 {
        lemma_control_cycles(cpu, p, instruction);
    } else {
        lemma_bit_cycles(cpu, p, instruction);
    }
}

#[verifier::spinoff_prover]
proof fn lemma_arithmetic_cycles(cpu: Cpu, p: PeripheralView, instruction: Instruction)
    requires
        family(instruction) == 0,
    ensures
        execute_spec(cpu, p, instruction).3 == machine_cycles(cpu, instruction),
{
}

#[verifier::spinoff_prover]
proof fn lemma_load_cycles(cpu: Cpu, p: PeripheralView, instruction: Instruction)
    requires
        family(instruction) == 1,
    ensures
        execute_spec(cpu, p, instruction).3 == machine_cycles(cpu, instruction),
{
}

#[verifier::spinoff_prover]
proof fn lemma_control_cycles(cpu: Cpu, p: PeripheralView, instruction: Instruction)
    requires
        family(instruction) == 2,
    ensures
        execute_spec(cpu, p, instruction).3 == machine_cycles(cpu, instruction),
{
}

#[verifier::spinoff_prover]
proof fn lemma_bit_cycles(cpu: Cpu, p: PeripheralView, instruction: Instruction)
    requires
        family(instruction) == 3,
    ensures
        execute_spec(cpu, p, instruction).3 == machine_cycles(cpu, instruction),
{
}

/// CALL and RET: with the two stack bytes below SP in plain memory and away from the
/// address bytes of the call, CALL jumps to its 16-bit operand with SP two lower, and the
/// RET that follows comes back to the byte after the call with SP where it was.
pub proof fn lemma_call_then_return(cpu: Cpu, p: PeripheralView)
    requires
        p.wf(),
        is_plain_memory(wrap16(cpu.sp - 1)),
        is_plain_memory(wrap16(cpu.sp - 2)),
        read_cell(cpu.after(1)) != wrap16(cpu.sp - 1),
        read_cell(cpu.after(1)) != wrap16(cpu.sp - 2),
        read_cell(cpu.after(2)) != wrap16(cpu.sp - 1),
        read_cell(cpu.after(2)) != wrap16(cpu.sp - 2),
    ensures
        ({
            let (c1, p1, target, cycles) = execute_spec(cpu, p, Instruction::CALL(JumpTarget::IMMEDIATE));
            let called = Cpu { pc: target, ..c1 };
            let (c2, p2, back, _) = execute_spec(called, p1, Instruction::RETURN(JumpTarget::IMMEDIATE));
            &&& target == immediate16(cpu, p)
            &&& c1.sp == wrap16(cpu.sp - 2)
            &&& back == cpu.after(3)
            &&& c2.sp == cpu.sp
            &&& p2 == p1
        }),
{
    let high = wrap16(cpu.sp - 1);
    let low = wrap16(cpu.sp - 2);
    let value = cpu.after(3);
    let (c1, p1) = push_spec(cpu, p, value);
    lemma_push_then_pop(cpu, p, value);
    let pa = p.write(high, high_byte(value));
    lemma_write_keeps_wf(p, high, high_byte(value));
    lemma_write_keeps_other_any(p, high, cpu.after(1), high_byte(value));
    lemma_write_keeps_other_any(p, high, cpu.after(2), high_byte(value));
    lemma_write_keeps_other_any(pa, low, cpu.after(1), low_byte(value));
    lemma_write_keeps_other_any(pa, low, cpu.after(2), low_byte(value));
    assert(p1.read(cpu.after(1)) == p.read(cpu.after(1)));
    assert(p1.read(cpu.after(2)) == p.read(cpu.after(2)));
    assert(execute_spec(cpu, p, Instruction::CALL(JumpTarget::IMMEDIATE)) == call_spec(cpu, p, true));
    let target = pair(p1.read(cpu.after(2)), p1.read(cpu.after(1)));
    let called = Cpu { pc: target, ..c1 };
    assert(pop_spec(called, p1).1 == pop_spec(c1, p1).1);
    assert(execute_spec(called, p1, Instruction::RETURN(JumpTarget::IMMEDIATE)) == return_spec(
        called,
        p1,
        JumpTarget::IMMEDIATE,
    ));
}

/// The register that code `k` of an opcode names: B, C, D, E, H, L, (none), A for 0 to 7.
pub open spec fn register_by_code(r: Registers, k: int) -> u8 {
    if k == 0 {
        r.b
    } else if k == 1 {
        r.c
    } else if k == 2 {
        r.d
    } else if k == 3 {
        r.e
    } else if k == 4 {
        r.h
    } else if k == 5 {
        r.l
    } else if k == 7 {
        r.a
    } else {
        0
    }
}

/// LD between registers, from (HL) and from d8: the register that the target names takes
/// the value of the register that the source names, the byte at HL, or the byte after the
/// opcode; every other register, the flags, SP and the devices are kept.
pub proof fn lemma_load_into_register(cpu: Cpu, p: PeripheralView, main: IncDecTarget, input: ArithmeticTarget, k: int)
    requires
        main != IncDecTarget::HL,
        0 <= k < 8,
        k != 6,
        k != register_code(main),
    ensures
        ({
            let (c1, p1, next, cycles) = execute_spec(cpu, p, Instruction::LOAD(main, input));
            let value = if input == ArithmeticTarget::HL {
                p.read(cpu.registers.hl())
            } else if input == ArithmeticTarget::D8 {
                p.read(cpu.after(1))
            } else {
                register_by_code(cpu.registers, operand_code(input))
            };
            &&& register_by_code(c1.registers, register_code(main)) == value
            &&& register_by_code(c1.registers, k) == register_by_code(cpu.registers, k)
            &&& c1.registers.f == cpu.registers.f
            &&& c1.sp == cpu.sp
            &&& p1 == p
            &&& next == if input == ArithmeticTarget::D8 { cpu.after(2) } else { cpu.after(1) }
        }),
{
}

/// LD (HL), r and LD (HL), d8 write the register, or the byte after the opcode, at HL and
/// keep the registers.
pub proof fn lemma_store_at_hl(cpu: Cpu, p: PeripheralView, input: ArithmeticTarget)
    requires
        input != ArithmeticTarget::HL,
    ensures
        ({
            let (c1, p1, next, cycles) = execute_spec(cpu, p, Instruction::LOAD(IncDecTarget::HL, input));
            let value = if input == ArithmeticTarget::D8 {
                p.read(cpu.after(1))
            } else {
                register_by_code(cpu.registers, operand_code(input))
            };
            &&& p1 == p.write(cpu.registers.hl(), value)
            &&& c1 == cpu
        }),
{
}

#[verifier::spinoff_prover]
/// LD A, (HL+) / LD A, (HL-) read the byte at HL into A and then move HL one up or one
/// down, wrapping; LD (HL+), A / LD (HL-), A write A there and move HL the same way.
pub proof fn lemma_load_through_hl(cpu: Cpu, p: PeripheralView, up: bool)
    ensures
        ({
            let target = if up { Load16Target::HL_plus } else { Load16Target::HL_minus };
            let hl = cpu.registers.hl();
            let moved = if up { wrap16(hl + 1) } else { wrap16(hl - 1) };
            let (c1, p1, _, _) = execute_spec(cpu, p, Instruction::LOAD_INDIRECT(target));
            let (c2, p2, _, _) = execute_spec(cpu, p, Instruction::STORE_INDIRECT(target));
            &&& c1.registers.a == p.read(hl)
            &&& c1.registers.hl() == moved
            &&& p1 == p
            &&& p2 == p.write(hl, cpu.registers.a)
            &&& c2.registers.hl() == moved
            &&& c2.registers.a == cpu.registers.a
        }),
{
    let hl = cpu.registers.hl();
    let moved = if up { wrap16(hl + 1) } else { wrap16(hl - 1) };
    let target = if up { Load16Target::HL_plus } else { Load16Target::HL_minus };
    let loaded = Registers { a: p.read(hl), ..cpu.registers };
    crate::soc::cpu::register::lemma_pair_roundtrip(cpu.registers, moved);
    crate::soc::cpu::register::lemma_pair_roundtrip(loaded, moved);
    assert(indirect_hl_after(loaded, target) == loaded.with_hl(moved));
    assert(indirect_hl_after(cpu.registers, target) == cpu.registers.with_hl(moved));
    assert(execute_spec(cpu, p, Instruction::LOAD_INDIRECT(target)) == load_indirect_spec(cpu, p, target));
    assert(execute_spec(cpu, p, Instruction::STORE_INDIRECT(target)) == store_indirect_spec(cpu, p, target));
}

/// JR: taken, the next instruction is at the address after the two bytes of JR moved by
/// the offset byte read as a signed number (-128 to 127); not taken, it is right after.
pub proof fn lemma_relative_jump(cpu: Cpu, p: PeripheralView, target: JumpTarget)
    ensures
        ({
            let next = execute_spec(cpu, p, Instruction::JUMP_RELATIVE(target)).2;
            let offset = p.read(cpu.after(1));
            let d = signed_offset(offset);
            &&& -128 <= d <= 127
            &&& (d - offset) % 256 == 0
            &&& condition(cpu.registers.f, target) ==> next == (cpu.pc + 2 + d) % 0x10000
            &&& !condition(cpu.registers.f, target) ==> next == (cpu.pc + 2) % 0x10000
        }),
{
}

/// No instruction takes more than 6 machine cycles.
pub proof fn lemma_execute_cycles(cpu: Cpu, p: PeripheralView, instruction: Instruction)
    ensures
        execute_spec(cpu, p, instruction).3 <= 6,
{
}

/// What PUSH saves, POP gives back: with the two bytes below SP in plain memory, a pop
/// right after a push returns the pushed value and puts SP back.
pub proof fn lemma_push_then_pop(cpu: Cpu, p: PeripheralView, value: u16)
    requires
        p.wf(),
        is_plain_memory(wrap16(cpu.sp - 1)),
        is_plain_memory(wrap16(cpu.sp - 2)),
    ensures
        ({
            let (c1, p1) = push_spec(cpu, p, value);
            pop_spec(c1, p1) == (cpu, value)
        }),
{
    let high = wrap16(cpu.sp - 1);
    let low = wrap16(cpu.sp - 2);
    let p1 = p.write(high, high_byte(value));
    lemma_write_keeps_wf(p, high, high_byte(value));
    lemma_write_then_read(p, high, high_byte(value));
    lemma_write_then_read(p1, low, low_byte(value));
    lemma_write_keeps_other(p1, low, high, low_byte(value));
    assert(wrap16(low + 1) == high);
    assert(wrap16(low + 2) == cpu.sp);
    assert(pair(high_byte(value), low_byte(value)) == value);
}

/// The processor at power-up: every register at 0, running.
pub open spec fn initial_cpu() -> Cpu {
    Cpu {
        registers: Registers {
            a: 0,
            b: 0,
            c: 0,
            d: 0,
            e: 0,
            f: FlagRegister { zero: false, substraction: false, half_carry: false, carry: false },
            h: 0,
            l: 0,
        },
        pc: 0,
        sp: 0,
        mode: CpuMode::RUN,
    }
}

impl Cpu {
    pub fn new() -> (cpu: Cpu)
        ensures
            cpu == initial_cpu(),
    {
        Cpu { registers: Registers::new(), pc: 0x0000, sp: 0x0000, mode: CpuMode::RUN }
    }

    fn read_register(&self, target: IncDecTarget) -> (value: u8)
        ensures
            value == reg8(self.registers, target),
    {
        match target {
            IncDecTarget::A => self.registers.a,
            IncDecTarget::B => self.registers.b,
            IncDecTarget::C => self.registers.c,
            IncDecTarget::D => self.registers.d,
            IncDecTarget::E => self.registers.e,
            IncDecTarget::H => self.registers.h,
            IncDecTarget::L => self.registers.l,
            IncDecTarget::HL => 0,
        }
    }

    fn write_register(&mut self, target: IncDecTarget, value: u8)
        ensures
            *final(self) == old(self).with_registers(with_reg8(old(self).registers, target, value)),
    {
        match target {
            IncDecTarget::A => self.registers.a = value,
            IncDecTarget::B => self.registers.b = value,
            IncDecTarget::C => self.registers.c = value,
            IncDecTarget::D => self.registers.d = value,
            IncDecTarget::E => self.registers.e = value,
            IncDecTarget::H => self.registers.h = value,
            IncDecTarget::L => self.registers.l = value,
            IncDecTarget::HL => {},
        }
    }

    fn read_source(&self, target: ArithmeticTarget) -> (value: u8)
        ensures
            value == source8(self.registers, target),
    {
        match target {
            ArithmeticTarget::A => self.registers.a,
            ArithmeticTarget::B => self.registers.b,
            ArithmeticTarget::C => self.registers.c,
            ArithmeticTarget::D => self.registers.d,
            ArithmeticTarget::E => self.registers.e,
            ArithmeticTarget::H => self.registers.h,
            ArithmeticTarget::L => self.registers.l,
            _ => 0,
        }
    }

    fn read_pair(&self, target: U16Target) -> (value: u16)
        ensures
            value == self.pair_value(target),
    {
        match target {
            U16Target::BC => self.registers.read_bc(),
            U16Target::DE => self.registers.read_de(),
            U16Target::HL => self.registers.read_hl(),
            U16Target::SP => self.sp,
        }
    }

    fn write_pair(&mut self, target: U16Target, value: u16)
        ensures
            *final(self) == old(self).with_pair(target, value),
    {
        match target {
            U16Target::BC => self.registers.write_bc(value),
            U16Target::DE => self.registers.write_de(value),
            U16Target::HL => self.registers.write_hl(value),
            U16Target::SP => self.sp = value,
        }
    }

    /// The address `k` bytes after the current instruction.
    fn next_pc(&self, k: u16) -> (address: u16)
        requires
            k <= 3,
        ensures
            address == self.after(k as int),
    {
        self.pc.wrapping_add(k)
    }

    /// The 16-bit little-endian immediate after the opcode.
    fn read_immediate16(&self, peripheral: &Peripheral) -> (value: u16)
        requires
            immediate_ok(*self),
            peripheral@.wf(),
        ensures
            value == immediate16(*self, peripheral@),
    {
        let low = peripheral.read(self.next_pc(1));
        let high = peripheral.read(self.next_pc(2));
        (high as u16) * 256 + (low as u16)
    }

    fn push(&mut self, push_data: u16, peripheral: &mut Peripheral)
        requires
            push_ok(*old(self)),
            old(peripheral)@.wf(),
        ensures
            final(peripheral)@.wf(),
            (*final(self), final(peripheral)@) == push_spec(*old(self), old(peripheral)@, push_data),
    {
        let high_byte = (push_data / 256) as u8;
        let low_byte = (push_data % 256) as u8;
        let high_stack_address = self.sp.wrapping_sub(1);
        let low_stack_address = self.sp.wrapping_sub(2);
        peripheral.write(high_stack_address, high_byte);
        peripheral.write(low_stack_address, low_byte);
        self.sp = self.sp.wrapping_sub(2);
    }

    fn pop(&mut self, peripheral: &Peripheral) -> (value: u16)
        requires
            pop_ok(*old(self)),
            peripheral@.wf(),
        ensures
            (*final(self), value) == pop_spec(*old(self), peripheral@),
    {
        let low_stack_address = self.sp;
        let high_stack_address = self.sp.wrapping_add(1);
        self.sp = self.sp.wrapping_add(2);
        let low_byte = peripheral.read(low_stack_address);
        let high_byte = peripheral.read(high_stack_address);
        (high_byte as u16) * 256 + (low_byte as u16)
    }

    fn fetch_operand(&self, target: ArithmeticTarget, peripheral: &Peripheral) -> (operand: (u8, u16, u8))
        requires
            operand_ok(*self, target),
            peripheral@.wf(),
        ensures
            operand == operand_spec(*self, peripheral@, target),
    {
        match target {
            ArithmeticTarget::HL => (peripheral.read(self.registers.read_hl()), self.next_pc(1), RUN_2_CYCLES),
            ArithmeticTarget::D8 => (peripheral.read(self.next_pc(1)), self.next_pc(2), RUN_2_CYCLES),
            _ => (self.read_source(target), self.next_pc(1), RUN_1_CYCLE),
        }
    }

    /// ADD, ADC, SUB, SBC, AND, XOR, OR and CP on A.
    fn arithmetic(&mut self, instruction: Instruction, target: ArithmeticTarget, peripheral: &Peripheral) -> (result: (u16, u8))
        requires
            operand_ok(*old(self), target),
            peripheral@.wf(),
        ensures
            (*final(self), peripheral@, result.0, result.1) == alu8_spec(*old(self), peripheral@, instruction, target),
    {
        let (value, next_pc, cycles) = self.fetch_operand(target, peripheral);
        let new_value = match instruction {
            Instruction::ADD(_) => self.add(value),
            Instruction::ADDC(_) => self.addc(value),
            Instruction::SUB(_) => self.sub(value),
            Instruction::SBC(_) => self.subc(value),
            Instruction::AND(_) => self.and(value),
            Instruction::XOR(_) => self.xor(value),
            Instruction::OR(_) => self.or(value),
            _ => self.cp(value),
        };
        self.registers.a = new_value;
        (next_pc, cycles)
    }

    /// The one-operand operation of an instruction on a value.
    fn unary_operation(&mut self, instruction: Instruction, value: u8, on_memory: bool) -> (new_value: u8)
        ensures
            (new_value, final(self).registers.f) == unary_result(instruction, old(self).registers.f, value, on_memory),
            *final(self) == old(self).with_flags(final(self).registers.f),
    {
        match instruction {
            Instruction::INC(_) => self.inc(value),
            Instruction::DEC(_) => self.dec(value),
            Instruction::RC(direction, _) => {
                self.registers.f.substraction = false;
                self.registers.f.half_carry = false;
                self.rotate(value, direction, on_memory)
            },
            Instruction::R(direction, _) => {
                self.registers.f.substraction = false;
                self.registers.f.half_carry = false;
                self.rotate_through_carry(value, direction, on_memory)
            },
            Instruction::SLA(_) => self.shift_left_and_reset(value),
            Instruction::SRA(_) => self.shift_right(value),
            Instruction::SRL(_) => self.shift_right_and_reset(value),
            Instruction::SWAP(_) => self.swap(value),
            Instruction::RESET_BIT(bit, _) => self.set_bit(false, bit_number(bit), value),
            Instruction::SET_BIT(bit, _) => self.set_bit(true, bit_number(bit), value),
            _ => value,
        }
    }

    /// INC, DEC and the rotate, shift, swap, set and reset instructions on a register
    /// or on the byte at (HL).
    fn unary(&mut self, instruction: Instruction, target: IncDecTarget, peripheral: &mut Peripheral) -> (result: (u16, u8))
        requires
            unary_ok(*old(self), target),
            old(peripheral)@.wf(),
        ensures
            final(peripheral)@.wf(),
            (*final(self), final(peripheral)@, result.0, result.1) == unary_spec(*old(self), old(peripheral)@, instruction, target),
    {
        let (length, register_cycles, memory_cycles): (u16, u8, u8) = match instruction {
            Instruction::INC(_) | Instruction::DEC(_) => (1, RUN_1_CYCLE, RUN_3_CYCLES),
            _ => (2, RUN_2_CYCLES, RUN_4_CYCLES),
        };
        let next_pc = self.next_pc(length);
        if target == IncDecTarget::HL {
            let address = self.registers.read_hl();
            let value = peripheral.read(address);
            let new_value = self.unary_operation(instruction, value, true);
            peripheral.write(address, new_value);
            (next_pc, memory_cycles)
        } else {
            let value = self.read_register(target);
            let new_value = self.unary_operation(instruction, value, false);
            self.write_register(target, new_value);
            (next_pc, register_cycles)
        }
    }

    /// BIT on a register or on the byte at (HL).
    fn test_bit(&mut self, bit: BitTarget, target: IncDecTarget, peripheral: &Peripheral) -> (result: (u16, u8))
        requires
            target == IncDecTarget::HL ==> is_readable(old(self).registers.hl()),
            peripheral@.wf(),
        ensures
            (*final(self), peripheral@, result.0, result.1) == bit_spec(*old(self), peripheral@, bit, target),
    {
        if target == IncDecTarget::HL {
            let value = peripheral.read(self.registers.read_hl());
            (self.complement_bit(bit_number(bit), value), RUN_4_CYCLES)
        } else {
            let value = self.read_register(target);
            (self.complement_bit(bit_number(bit), value), RUN_2_CYCLES)
        }
    }

    /// RLCA, RRCA, RLA and RRA.
    fn rotate_a(&mut self, direction: Direction, through_carry: bool) -> (result: (u16, u8))
        ensures
            (*final(self), result.0, result.1) == rotate_a_spec(*old(self), direction, through_carry),
    {
        self.registers.f.substraction = false;
        self.registers.f.half_carry = false;
        let a = self.registers.a;
        let new_value = if through_carry {
            self.rotate_through_carry(a, direction, false)
        } else {
            self.rotate(a, direction, false)
        };
        self.registers.a = new_value;
        (self.next_pc(1), RUN_1_CYCLE)
    }
}

impl Cpu {
    /// LD between registers, memory at (HL) and immediates.
    fn load(&mut self, input_register: ArithmeticTarget, main_register: IncDecTarget, peripheral: &mut Peripheral) -> (result: (u16, u8))
        requires
            load_ok(*old(self), main_register, input_register),
            old(peripheral)@.wf(),
        ensures
            final(peripheral)@.wf(),
            (*final(self), final(peripheral)@, result.0, result.1) == load_spec(*old(self), old(peripheral)@, main_register, input_register),
    {
        if main_register != IncDecTarget::HL {
            let (value, next_pc, cycles) = self.fetch_operand(input_register, peripheral);
            self.write_register(main_register, value);
            (next_pc, cycles)
        } else {
            match input_register {
                ArithmeticTarget::HL => (0, RUN_0_CYCLE),
                ArithmeticTarget::D8 => {
                    let value = peripheral.read(self.next_pc(1));
                    let mem_address = self.registers.read_hl();
                    peripheral.write(mem_address, value);
                    (self.next_pc(2), RUN_3_CYCLES)
                },
                _ => {
                    let address = self.registers.read_hl();
                    let value = self.read_source(input_register);
                    peripheral.write(address, value);
                    (self.next_pc(1), RUN_2_CYCLES)
                },
            }
        }
    }

    fn indirect_address(&self, target: Load16Target) -> (address: u16)
        ensures
            address == indirect_address(self.registers, target),
    {
        match target {
            Load16Target::BC => self.registers.read_bc(),
            Load16Target::DE => self.registers.read_de(),
            _ => self.registers.read_hl(),
        }
    }

    /// HL moved on after an access through (HL+) or (HL-).
    fn update_indirect_hl(&mut self, target: Load16Target)
        ensures
            *final(self) == old(self).with_registers(indirect_hl_after(old(self).registers, target)),
    {
        match target {
            Load16Target::HL_plus => {
                let address = self.registers.read_hl();
                self.registers.write_hl(address.wrapping_add(1));
            },
            Load16Target::HL_minus => {
                let address = self.registers.read_hl();
                self.registers.write_hl(address.wrapping_sub(1));
            },
            _ => {},
        }
    }

    fn load_indirect(&mut self, target: Load16Target, peripheral: &Peripheral) -> (result: (u16, u8))
        requires
            is_readable(indirect_address(old(self).registers, target)),
            peripheral@.wf(),
        ensures
            (*final(self), peripheral@, result.0, result.1) == load_indirect_spec(*old(self), peripheral@, target),
    {
        let address = self.indirect_address(target);
        self.registers.a = peripheral.read(address);
        self.update_indirect_hl(target);
        (self.next_pc(1), RUN_2_CYCLES)
    }

    fn store_indirect(&mut self, target: Load16Target, peripheral: &mut Peripheral) -> (result: (u16, u8))
        requires
            is_writable(indirect_address(old(self).registers, target)),
            old(peripheral)@.wf(),
        ensures
            final(peripheral)@.wf(),
            (*final(self), final(peripheral)@, result.0, result.1) == store_indirect_spec(*old(self), old(peripheral)@, target),
    {
        let address = self.indirect_address(target);
        peripheral.write(address, self.registers.a);
        self.update_indirect_hl(target);
        (self.next_pc(1), RUN_2_CYCLES)
    }

    fn load_immediate(&mut self, target: U16Target, peripheral: &Peripheral) -> (result: (u16, u8))
        requires
            immediate_ok(*old(self)),
            peripheral@.wf(),
        ensures
            (*final(self), result.0, result.1) == (old(self).with_pair(target, immediate16(*old(self), peripheral@)), old(self).after(3), 3u8),
    {
        let value = self.read_immediate16(peripheral);
        let next_pc = self.next_pc(3);
        self.write_pair(target, value);
        (next_pc, RUN_3_CYCLES)
    }

    /// LD (a16), SP.
    fn store_sp(&mut self, peripheral: &mut Peripheral) -> (result: (u16, u8))
        requires
            load_sp_ok(*old(self), old(peripheral)@, SPTarget::FROM_SP),
            old(peripheral)@.wf(),
        ensures
            final(peripheral)@.wf(),
            (*final(self), final(peripheral)@, result.0, result.1) == load_sp_spec(*old(self), old(peripheral)@, SPTarget::FROM_SP),
    {
        let address = self.read_immediate16(peripheral);
        peripheral.write(address, (self.sp % 256) as u8);
        peripheral.write(address.wrapping_add(1), (self.sp / 256) as u8);
        (self.next_pc(3), RUN_4_CYCLES)
    }

    /// LD HL, SP + r8.
    fn load_hl_from_sp(&mut self, peripheral: &Peripheral) -> (result: (u16, u8))
        requires
            is_readable(old(self).after(1)),
            peripheral@.wf(),
        ensures
            (*final(self), peripheral@, result.0, result.1) == load_sp_spec(*old(self), peripheral@, SPTarget::TO_HL),
    {
        let immediate = peripheral.read(self.next_pc(1));
        let stack_addr = if immediate < 128 {
            self.sp.wrapping_add(immediate as u16)
        } else {
            self.sp.wrapping_sub(256 - immediate as u16)
        };
        assert(stack_addr == wrap16(self.sp + signed_offset(immediate)));
        let f = FlagRegister {
            zero: false,
            substraction: false,
            half_carry: self.sp % 16 + (immediate % 16) as u16 > 15,
            carry: self.sp % 256 + immediate as u16 > 255,
        };
        self.registers.write_hl(stack_addr);
        self.registers.f = f;
        (self.next_pc(2), RUN_3_CYCLES)
    }

    fn load_sp(&mut self, target: SPTarget, peripheral: &mut Peripheral) -> (result: (u16, u8))
        requires
            load_sp_ok(*old(self), old(peripheral)@, target),
            old(peripheral)@.wf(),
        ensures
            final(peripheral)@.wf(),
            (*final(self), final(peripheral)@, result.0, result.1) == load_sp_spec(*old(self), old(peripheral)@, target),
    {
        match target {
            SPTarget::FROM_SP => self.store_sp(peripheral),
            SPTarget::TO_HL => self.load_hl_from_sp(peripheral),
            SPTarget::TO_SP => {
                self.pc = self.registers.read_hl();
                (self.next_pc(1), RUN_2_CYCLES)
            },
        }
    }

    fn load_store_ram(&mut self, target: RamTarget, load: bool, peripheral: &mut Peripheral) -> (result: (u16, u8))
        requires
            ram_ok(*old(self), old(peripheral)@, target, load),
            old(peripheral)@.wf(),
        ensures
            final(peripheral)@.wf(),
            (*final(self), final(peripheral)@, result.0, result.1) == load_store_ram_spec(*old(self), old(peripheral)@, target, load),
    {
        let (address, next_pc, cycles): (u16, u16, u8) = match target {
            RamTarget::OneByteAddress => {
                let ram_offset = peripheral.read(self.next_pc(1)) as u16;
                (0xFF00 + ram_offset, self.next_pc(2), RUN_3_CYCLES)
            },
            RamTarget::AddressFromRegister => (0xFF00 + self.registers.c as u16, self.next_pc(1), RUN_2_CYCLES),
            RamTarget::TwoBytesAddress => (self.read_immediate16(peripheral), self.next_pc(3), RUN_4_CYCLES),
        };
        if load {
            self.registers.a = peripheral.read(address);
        } else {
            peripheral.write(address, self.registers.a);
        }
        (next_pc, cycles)
    }

    /// Whether a condition holds on the flags.
    fn condition(&self, target: JumpTarget) -> (taken: bool)
        ensures
            taken == condition(self.registers.f, target),
    {
        match target {
            JumpTarget::IMMEDIATE => true,
            JumpTarget::NZ => !self.registers.f.zero,
            JumpTarget::NC => !self.registers.f.carry,
            JumpTarget::Z => self.registers.f.zero,
            JumpTarget::C => self.registers.f.carry,
        }
    }

    fn jump_relative(&self, flag: bool, peripheral: &Peripheral) -> (result: (u16, u8))
        requires
            is_readable(self.after(1)),
            peripheral@.wf(),
        ensures
            (*self, peripheral@, result.0, result.1) == jump_relative_spec(*self, peripheral@, flag),
    {
        let immediate = peripheral.read(self.next_pc(1));
        if flag {
            if immediate < 128 {
                (self.next_pc(2).wrapping_add(immediate as u16), RUN_3_CYCLES)
            } else {
                (self.next_pc(2).wrapping_sub(256 - immediate as u16), RUN_3_CYCLES)
            }
        } else {
            (self.next_pc(2), RUN_2_CYCLES)
        }
    }

    fn jump_immediate(&self, flag: bool, peripheral: &Peripheral) -> (result: (u16, u8))
        requires
            immediate_ok(*self),
            peripheral@.wf(),
        ensures
            (*self, peripheral@, result.0, result.1) == jump_immediate_spec(*self, peripheral@, flag),
    {
        let immediate = self.read_immediate16(peripheral);
        if flag {
            (immediate, RUN_4_CYCLES)
        } else {
            (self.next_pc(3), RUN_3_CYCLES)
        }
    }

    fn call(&mut self, flag: bool, peripheral: &mut Peripheral) -> (result: (u16, u8))
        requires
            flag ==> push_ok(*old(self)) && immediate_ok(*old(self)),
            old(peripheral)@.wf(),
        ensures
            final(peripheral)@.wf(),
            (*final(self), final(peripheral)@, result.0, result.1) == call_spec(*old(self), old(peripheral)@, flag),
    {
        if flag {
            let return_address = self.next_pc(3);
            self.push(return_address, peripheral);
            let call_address = self.read_immediate16(peripheral);
            (call_address, RUN_6_CYCLES)
        } else {
            (self.next_pc(3), RUN_3_CYCLES)
        }
    }

    fn ret(&mut self, target: JumpTarget, peripheral: &Peripheral) -> (result: (u16, u8))
        requires
            condition(old(self).registers.f, target) ==> pop_ok(*old(self)),
            peripheral@.wf(),
        ensures
            (*final(self), peripheral@, result.0, result.1) == return_spec(*old(self), peripheral@, target),
    {
        if target == JumpTarget::IMMEDIATE {
            (self.pop(peripheral), RUN_4_CYCLES)
        } else if self.condition(target) {
            (self.pop(peripheral), RUN_5_CYCLES)
        } else {
            (self.next_pc(1), RUN_2_CYCLES)
        }
    }

    fn reset(&mut self, target: ResetTarget, peripheral: &mut Peripheral) -> (result: (u16, u8))
        requires
            push_ok(*old(self)),
            old(peripheral)@.wf(),
        ensures
            final(peripheral)@.wf(),
            (*final(self), final(peripheral)@, result.0, result.1) == reset_spec(*old(self), old(peripheral)@, target),
    {
        let return_address = self.next_pc(1);
        self.push(return_address, peripheral);
        let addr_to_reset: u16 = match target {
            ResetTarget::FLASH_0 => 0x00,
            ResetTarget::FLASH_1 => 0x08,
            ResetTarget::FLASH_2 => 0x10,
            ResetTarget::FLASH_3 => 0x18,
            ResetTarget::FLASH_4 => 0x20,
            ResetTarget::FLASH_5 => 0x28,
            ResetTarget::FLASH_6 => 0x30,
            ResetTarget::FLASH_7 => 0x38,
        };
        (addr_to_reset, RUN_4_CYCLES)
    }

    fn reti(&mut self, peripheral: &mut Peripheral) -> (result: (u16, u8))
        requires
            pop_ok(*old(self)),
            old(peripheral)@.wf(),
        ensures
            final(peripheral)@.wf(),
            (*final(self), final(peripheral)@, result.0, result.1) == reti_spec(*old(self), old(peripheral)@),
    {
        peripheral.nvic.master_enable(true);
        (self.pop(peripheral), RUN_4_CYCLES)
    }

    fn add_sp(&mut self, peripheral: &Peripheral) -> (result: (u16, u8))
        requires
            is_readable(old(self).after(1)),
            peripheral@.wf(),
        ensures
            (*final(self), peripheral@, result.0, result.1) == add_sp_spec(*old(self), peripheral@),
    {
        let offset = peripheral.read(self.next_pc(1));
        let value: u16 = if offset < 128 {
            offset as u16
        } else {
            offset as u16 + 0xFF00
        };
        self.sp = self.sp.wrapping_add(value);
        self.registers.f.zero = false;
        self.registers.f.substraction = false;
        self.registers.f.half_carry = self.sp % 16 + value % 16 > 15;
        self.registers.f.carry = self.sp % 256 + value % 256 > 255;
        (self.next_pc(2), RUN_4_CYCLES)
    }

    fn set_cpu_mode(&mut self, mode: CpuMode) -> (next_pc: u16)
        ensures
            *final(self) == (Cpu { mode, ..*old(self) }),
            next_pc == old(self).after(1),
    {
        self.mode = mode;
        self.next_pc(1)
    }
}

impl Cpu {
    /// ADD HL, rr.
    fn add16_instruction(&mut self, target: U16Target) -> (result: (u16, u8))
        ensures
            (*final(self), result.0, result.1) == ({
                let (value, f) = add16_spec(old(self).registers.hl(), old(self).registers.f, old(self).pair_value(target));
                (old(self).with_registers(Registers { f, ..old(self).registers }.with_hl(value)), old(self).after(1), 2u8)
            }),
    {
        let value = self.read_pair(target);
        let new_value = self.add16(value);
        self.registers.write_hl(new_value);
        (self.next_pc(1), RUN_2_CYCLES)
    }

    /// INC rr / DEC rr.
    fn inc_dec16(&mut self, target: U16Target, increment: bool) -> (result: (u16, u8))
        ensures
            (*final(self), result.0, result.1) == (
                old(self).with_pair(target, wrap16(old(self).pair_value(target) + if increment { 1int } else { -1int })),
                old(self).after(1),
                2u8,
            ),
    {
        let value = self.read_pair(target);
        let new_value = if increment {
            self.inc16(value)
        } else {
            self.dec16(value)
        };
        let next_pc = self.next_pc(1);
        self.write_pair(target, new_value);
        (next_pc, RUN_2_CYCLES)
    }

    fn pop_instruction(&mut self, target: PopPushTarget, peripheral: &Peripheral) -> (result: (u16, u8))
        requires
            pop_ok(*old(self)),
            peripheral@.wf(),
        ensures
            (*final(self), result.0, result.1) == ({
                let (c1, value) = pop_spec(*old(self), peripheral@);
                (c1.with_stack_value(target, value), old(self).after(1), 3u8)
            }),
    {
        let next_pc = self.next_pc(1);
        let pop_data = self.pop(peripheral);
        match target {
            PopPushTarget::BC => self.registers.write_bc(pop_data),
            PopPushTarget::DE => self.registers.write_de(pop_data),
            PopPushTarget::HL => self.registers.write_hl(pop_data),
            PopPushTarget::AF => self.registers.write_af(pop_data),
        }
        (next_pc, RUN_3_CYCLES)
    }

    fn push_instruction(&mut self, target: PopPushTarget, peripheral: &mut Peripheral) -> (result: (u16, u8))
        requires
            push_ok(*old(self)),
            old(peripheral)@.wf(),
        ensures
            final(peripheral)@.wf(),
            (*final(self), final(peripheral)@, result.0, result.1) == ({
                let (c1, p1) = push_spec(*old(self), old(peripheral)@, old(self).stack_value(target));
                (c1, p1, old(self).after(1), 4u8)
            }),
    {
        let next_pc = self.next_pc(1);
        let push_data = match target {
            PopPushTarget::BC => self.registers.read_bc(),
            PopPushTarget::DE => self.registers.read_de(),
            PopPushTarget::HL => self.registers.read_hl(),
            PopPushTarget::AF => self.registers.read_af(),
        };
        self.push(push_data, peripheral);
        (next_pc, RUN_4_CYCLES)
    }

    /// EI / DI.
    fn interrupt_enable(&self, enable: bool, peripheral: &mut Peripheral) -> (result: (u16, u8))
        requires
            old(peripheral)@.wf(),
        ensures
            final(peripheral)@.wf(),
            final(peripheral)@ == (PeripheralView {
                nvic: Nvic { interrupt_master_enable: enable, ..old(peripheral)@.nvic },
                ..old(peripheral)@
            }),
            result == (self.after(1), 1u8),
    {
        peripheral.nvic.master_enable(enable);
        assert(peripheral@ =~= PeripheralView {
            nvic: Nvic { interrupt_master_enable: enable, ..old(peripheral)@.nvic },
            ..old(peripheral)@
        });
        (self.next_pc(1), RUN_1_CYCLE)
    }

    /// Executes the arithmetic, increment and decrement instructions; hands the others on.
    #[verifier::spinoff_prover]
    fn execute_arithmetic(&mut self, instruction: Instruction, peripheral: &mut Peripheral) -> (result: (u16, u8))
        requires
            execute_ok(*old(self), old(peripheral)@, instruction),
            old(peripheral)@.wf(),
            family(instruction) >= 0,
        ensures
            final(peripheral)@.wf(),
            (*final(self), final(peripheral)@, result.0, result.1) == execute_spec(*old(self), old(peripheral)@, instruction),
    {
        match instruction {
            // Arithmetic instructions
            Instruction::ADD(target) => self.arithmetic(instruction, target, peripheral),
            Instruction::ADD16(target) => self.add16_instruction(target),
            Instruction::ADDC(target) => self.arithmetic(instruction, target, peripheral),
            Instruction::SUB(target) => self.arithmetic(instruction, target, peripheral),
            Instruction::SBC(target) => self.arithmetic(instruction, target, peripheral),
            Instruction::AND(target) => self.arithmetic(instruction, target, peripheral),
            Instruction::XOR(target) => self.arithmetic(instruction, target, peripheral),
            Instruction::OR(target) => self.arithmetic(instruction, target, peripheral),
            Instruction::CP(target) => self.arithmetic(instruction, target, peripheral),
            Instruction::AddSp => self.add_sp(peripheral),
            // Increment & decrement instructions
            Instruction::INC(target) => self.unary(instruction, target, peripheral),
            Instruction::INC16(target) => self.inc_dec16(target, true),
            Instruction::DEC(target) => self.unary(instruction, target, peripheral),
            Instruction::DEC16(target) => self.inc_dec16(target, false),
            _ => self.execute_load(instruction, peripheral),
        }
    }

    /// Executes the load and store instructions; hands the others on.
    #[verifier::spinoff_prover]
    fn execute_load(&mut self, instruction: Instruction, peripheral: &mut Peripheral) -> (result: (u16, u8))
        requires
            execute_ok(*old(self), old(peripheral)@, instruction),
            old(peripheral)@.wf(),
            family(instruction) >= 1,
        ensures
            final(peripheral)@.wf(),
            (*final(self), final(peripheral)@, result.0, result.1) == execute_spec(*old(self), old(peripheral)@, instruction),
    {
        match instruction {
            // Load & Store instructions
            Instruction::LOAD(main_reg, input_reg) => self.load(input_reg, main_reg, peripheral),
            Instruction::LOAD_INDIRECT(target) => self.load_indirect(target, peripheral),
            Instruction::LOAD_IMMEDIATE(target) => self.load_immediate(target, peripheral),
            Instruction::STORE_INDIRECT(target) => self.store_indirect(target, peripheral),
            Instruction::LOAD_SP(target) => self.load_sp(target, peripheral),
            Instruction::LOAD_RAM(target) => self.load_store_ram(target, true, peripheral),
            Instruction::STORE_RAM(target) => self.load_store_ram(target, false, peripheral),
            _ => self.execute_control(instruction, peripheral),
        }
    }

    /// Executes the jump, call, return, stack, interrupt and control instructions; hands the others on.
    #[verifier::spinoff_prover]
    fn execute_control(&mut self, instruction: Instruction, peripheral: &mut Peripheral) -> (result: (u16, u8))
        requires
            execute_ok(*old(self), old(peripheral)@, instruction),
            old(peripheral)@.wf(),
            family(instruction) >= 2,
        ensures
            final(peripheral)@.wf(),
            (*final(self), final(peripheral)@, result.0, result.1) == execute_spec(*old(self), old(peripheral)@, instruction),
    {
        match instruction {
            // JUMP / CALL / RETURN / RESET instructions
            Instruction::JUMP_RELATIVE(target) => {
                let flag = self.condition(target);
                self.jump_relative(flag, peripheral)
            },
            Instruction::JUMP_IMMEDIATE(target) => {
                let flag = self.condition(target);
                self.jump_immediate(flag, peripheral)
            },
            Instruction::JUMP_INDIRECT => (self.registers.read_hl(), RUN_1_CYCLE),
            Instruction::RETURN(target) => self.ret(target, peripheral),
            Instruction::RESET(target) => self.reset(target, peripheral),
            Instruction::CALL(target) => {
                let flag = self.condition(target);
                self.call(flag, peripheral)
            },
            Instruction::RETI => self.reti(peripheral),
            // Pop & Push instructions
            Instruction::POP(target) => self.pop_instruction(target, peripheral),
            Instruction::PUSH(target) => self.push_instruction(target, peripheral),
            // Interrupt instructions
            Instruction::DI => self.interrupt_enable(false, peripheral),
            Instruction::EI => self.interrupt_enable(true, peripheral),
            // Control instructions
            Instruction::NOP => (self.next_pc(1), RUN_1_CYCLE),
            Instruction::STOP => (self.set_cpu_mode(CpuMode::STOP), RUN_1_CYCLE),
            Instruction::HALT => (self.set_cpu_mode(CpuMode::HALT), RUN_1_CYCLE),
            Instruction::DAA => (self.decimal_adjust(), RUN_1_CYCLE),
            Instruction::SCF => (self.set_carry(CarryOp::SET), RUN_1_CYCLE),
            Instruction::CPL => (self.flip_register_a(), RUN_1_CYCLE),
            Instruction::CCF => (self.set_carry(CarryOp::FLIP), RUN_1_CYCLE),
            _ => self.execute_bits(instruction, peripheral),
        }
    }

    /// Executes the rotate, shift, swap and bit instructions; hands the others on.
    #[verifier::spinoff_prover]
    fn execute_bits(&mut self, instruction: Instruction, peripheral: &mut Peripheral) -> (result: (u16, u8))
        requires
            execute_ok(*old(self), old(peripheral)@, instruction),
            old(peripheral)@.wf(),
            family(instruction) >= 3,
        ensures
            final(peripheral)@.wf(),
            (*final(self), final(peripheral)@, result.0, result.1) == execute_spec(*old(self), old(peripheral)@, instruction),
    {
        match instruction {
            // Rotate, Shift & Swap instructions
            Instruction::RCA(direction) => self.rotate_a(direction, false),
            Instruction::RA(direction) => self.rotate_a(direction, true),
            Instruction::RC(_, target) => self.unary(instruction, target, peripheral),
            Instruction::R(_, target) => self.unary(instruction, target, peripheral),
            Instruction::SLA(target) => self.unary(instruction, target, peripheral),
            Instruction::SRA(target) => self.unary(instruction, target, peripheral),
            Instruction::SRL(target) => self.unary(instruction, target, peripheral),
            Instruction::SWAP(target) => self.unary(instruction, target, peripheral),
            // Bit instructions
            Instruction::BIT(bit, target) => self.test_bit(bit, target, peripheral),
            Instruction::RESET_BIT(_, target) => self.unary(instruction, target, peripheral),
            Instruction::SET_BIT(_, target) => self.unary(instruction, target, peripheral),
            _ => (self.pc, RUN_0_CYCLE),
        }
    }

    /// Executes an instruction; returns the address of the next instruction and the
    /// machine cycles it took.
    pub fn execute(&mut self, instruction: Instruction, peripheral: &mut Peripheral) -> (result: (u16, u8))
        requires
            execute_ok(*old(self), old(peripheral)@, instruction),
            old(peripheral)@.wf(),
        ensures
            final(peripheral)@.wf(),
            (*final(self), final(peripheral)@, result.0, result.1) == execute_spec(*old(self), old(peripheral)@, instruction),
    {
        self.execute_arithmetic(instruction, peripheral)
    }
}

impl Cpu {
    /// The instruction whose first byte is `instruction_byte`, at PC.
    pub fn decode(&self, instruction_byte: u8, peripheral: &Peripheral) -> (instruction: Option<Instruction>)
        requires
            instruction_byte == LONG_INSTRUCTION_PREFIX ==> is_readable(self.after(1)),
            peripheral@.wf(),
        ensures
            instruction == decode_spec(*self, peripheral@, instruction_byte),
    {
        if Instruction::is_long_instruction(instruction_byte) {
            let long_instruction_byte = peripheral.read(self.next_pc(1));
            Instruction::from_long_byte(long_instruction_byte)
        } else {
            Instruction::from_byte(instruction_byte)
        }
    }

    /// Whether `run` can take a step: an unknown opcode at PC, or an interrupt taken
    /// with none of the five sources requested and enabled, stops the machine.
    pub fn can_run(&self, peripheral: &Peripheral) -> (runnable: bool)
        requires
            peripheral@.wf(),
        ensures
            runnable == can_run_spec(*self, peripheral@),
    {
        let mode = if peripheral.nvic.is_an_interrupt_to_run() {
            CpuMode::INTERRUPT
        } else {
            self.mode
        };
        match mode {
            CpuMode::RUN => {
                if !readable(self.pc) {
                    return false;
                }
                let instruction_byte = peripheral.read(self.pc);
                if Instruction::is_long_instruction(instruction_byte) && !readable(self.next_pc(1)) {
                    return false;
                }
                match self.decode(instruction_byte, peripheral) {
                    Some(instruction) => self.accesses_ok(instruction, peripheral),
                    None => false,
                }
            },
            CpuMode::INTERRUPT => {
                let mut nvic = peripheral.nvic;
                nvic.get_interrupt().is_some() && self.push_served()
            },
            _ => true,
        }
    }

    /// Whether the two stack bytes below SP take a write.
    fn push_served(&self) -> (served: bool)
        ensures
            served == push_ok(*self),
    {
        writable(self.sp.wrapping_sub(1)) && writable(self.sp.wrapping_sub(2))
    }

    /// Whether the two stack bytes at SP answer a read.
    fn pop_served(&self) -> (served: bool)
        ensures
            served == pop_ok(*self),
    {
        readable(self.sp) && readable(self.sp.wrapping_add(1))
    }

    /// Whether the two bytes after the opcode answer a read.
    fn immediate_served(&self) -> (served: bool)
        ensures
            served == immediate_ok(*self),
    {
        readable(self.next_pc(1)) && readable(self.next_pc(2))
    }

    /// Whether the memory operand of an 8-bit operation, if any, answers a read.
    fn operand_served(&self, target: ArithmeticTarget) -> (served: bool)
        ensures
            served == operand_ok(*self, target),
    {
        match target {
            ArithmeticTarget::HL => readable(self.registers.read_hl()),
            ArithmeticTarget::D8 => readable(self.next_pc(1)),
            _ => true,
        }
    }

    /// Whether (HL), as the operand of a one-operand operation, is read and written back.
    fn unary_served(&self, target: IncDecTarget) -> (served: bool)
        ensures
            served == unary_ok(*self, target),
    {
        target != IncDecTarget::HL || (readable(self.registers.read_hl()) && writable(
            self.registers.read_hl(),
        ))
    }

    /// Whether the memory accesses of an LD between registers, (HL) and d8 are served.
    fn load_served(&self, main: IncDecTarget, input: ArithmeticTarget) -> (served: bool)
        ensures
            served == load_ok(*self, main, input),
    {
        if main != IncDecTarget::HL {
            self.operand_served(input)
        } else {
            match input {
                ArithmeticTarget::HL => true,
                ArithmeticTarget::D8 => readable(self.next_pc(1)) && writable(self.registers.read_hl()),
                _ => writable(self.registers.read_hl()),
            }
        }
    }

    /// Whether the memory accesses of LDH (a8) / LD (C) / LD (a16) are served.
    fn ram_served(&self, target: RamTarget, load: bool, peripheral: &Peripheral) -> (served: bool)
        requires
            peripheral@.wf(),
        ensures
            served == ram_ok(*self, peripheral@, target, load),
    {
        let address: u16 = match target {
            RamTarget::OneByteAddress => {
                if !readable(self.next_pc(1)) {
                    return false;
                }
                0xFF00 + peripheral.read(self.next_pc(1)) as u16
            },
            RamTarget::AddressFromRegister => 0xFF00 + self.registers.c as u16,
            RamTarget::TwoBytesAddress => {
                if !self.immediate_served() {
                    return false;
                }
                self.read_immediate16(peripheral)
            },
        };
        if load {
            readable(address)
        } else {
            writable(address)
        }
    }

    /// Whether the memory accesses of LD (a16), SP / LD HL, SP + r8 / LD SP, HL are served.
    fn load_sp_served(&self, target: SPTarget, peripheral: &Peripheral) -> (served: bool)
        requires
            peripheral@.wf(),
        ensures
            served == load_sp_ok(*self, peripheral@, target),
    {
        match target {
            SPTarget::FROM_SP => {
                if !self.immediate_served() {
                    return false;
                }
                let address = self.read_immediate16(peripheral);
                writable(address) && writable(address.wrapping_add(1))
            },
            SPTarget::TO_HL => readable(self.next_pc(1)),
            SPTarget::TO_SP => true,
        }
    }

    /// Whether every memory access of the instruction is served (see `execute_ok`).
    #[verifier::spinoff_prover]
    #[verifier::rlimit(60)]
    fn accesses_ok(&self, instruction: Instruction, peripheral: &Peripheral) -> (served: bool)
        requires
            peripheral@.wf(),
        ensures
            served == execute_ok(*self, peripheral@, instruction),
    {
        match instruction {
            Instruction::ADD(target) => self.operand_served(target),
            Instruction::ADDC(target) => self.operand_served(target),
            Instruction::SUB(target) => self.operand_served(target),
            Instruction::SBC(target) => self.operand_served(target),
            Instruction::AND(target) => self.operand_served(target),
            Instruction::OR(target) => self.operand_served(target),
            Instruction::XOR(target) => self.operand_served(target),
            Instruction::CP(target) => self.operand_served(target),
            Instruction::AddSp => readable(self.next_pc(1)),
            Instruction::ADD16(_) => true,
            Instruction::INC16(_) => true,
            Instruction::DEC16(_) => true,
            Instruction::RCA(_) => true,
            Instruction::RA(_) => true,
            _ => self.transfer_accesses_ok(instruction, peripheral),
        }
    }

    /// `accesses_ok` for INC, DEC and the instructions of the 0xCB prefix.
    #[verifier::spinoff_prover]
    fn unary_accesses_ok(&self, instruction: Instruction) -> (served: bool)
        requires
            family(instruction) == 0 || family(instruction) == 3,
            !(instruction is ADD || instruction is ADDC || instruction is SUB || instruction is SBC
                || instruction is AND || instruction is OR || instruction is XOR || instruction is CP
                || instruction is AddSp || instruction is ADD16 || instruction is INC16
                || instruction is DEC16 || instruction is RCA || instruction is RA),
        ensures
            forall|p: PeripheralView| served == #[trigger] execute_ok(*self, p, instruction),
    {
        match instruction {
            Instruction::INC(target) => self.unary_served(target),
            Instruction::DEC(target) => self.unary_served(target),
            Instruction::RC(_, target) => self.unary_served(target),
            Instruction::R(_, target) => self.unary_served(target),
            Instruction::SLA(target) => self.unary_served(target),
            Instruction::SRA(target) => self.unary_served(target),
            Instruction::SRL(target) => self.unary_served(target),
            Instruction::SWAP(target) => self.unary_served(target),
            Instruction::RESET_BIT(_, target) => self.unary_served(target),
            Instruction::SET_BIT(_, target) => self.unary_served(target),
            Instruction::BIT(_, target) => target != IncDecTarget::HL || readable(self.registers.read_hl()),
            _ => true,
        }
    }
    /// `accesses_ok` for the load, store, jump, call, return and stack instructions.
    #[verifier::spinoff_prover]
    #[verifier::rlimit(60)]
    fn transfer_accesses_ok(&self, instruction: Instruction, peripheral: &Peripheral) -> (served: bool)
        requires
            peripheral@.wf(),
            !(instruction is ADD || instruction is ADDC || instruction is SUB || instruction is SBC
                || instruction is AND || instruction is OR || instruction is XOR || instruction is CP
                || instruction is AddSp || instruction is ADD16 || instruction is INC16
                || instruction is DEC16 || instruction is RCA || instruction is RA),
        ensures
            served == execute_ok(*self, peripheral@, instruction),
    {
        match instruction {
            Instruction::LOAD(main, input) => self.load_served(main, input),
            Instruction::LOAD_INDIRECT(target) => readable(self.indirect_address(target)),
            Instruction::LOAD_IMMEDIATE(_) => self.immediate_served(),
            Instruction::STORE_INDIRECT(target) => writable(self.indirect_address(target)),
            Instruction::LOAD_SP(target) => self.load_sp_served(target, peripheral),
            Instruction::LOAD_RAM(target) => self.ram_served(target, true, peripheral),
            Instruction::STORE_RAM(target) => self.ram_served(target, false, peripheral),
            Instruction::JUMP_RELATIVE(_) => readable(self.next_pc(1)),
            Instruction::JUMP_IMMEDIATE(_) => self.immediate_served(),
            Instruction::RETURN(target) => !self.condition(target) || self.pop_served(),
            Instruction::RESET(_) => self.push_served(),
            Instruction::CALL(target) => !self.condition(target) || (self.push_served() && self.immediate_served()),
            Instruction::RETI => self.pop_served(),
            Instruction::POP(_) => self.pop_served(),
            Instruction::PUSH(_) => self.push_served(),
            Instruction::JUMP_INDIRECT => true,
            Instruction::DI => true,
            Instruction::EI => true,
            Instruction::NOP => true,
            Instruction::STOP => true,
            Instruction::HALT => true,
            Instruction::DAA => true,
            Instruction::SCF => true,
            Instruction::CCF => true,
            Instruction::CPL => true,
            _ => self.unary_accesses_ok(instruction),
        }
    }

    fn jump_to_interrupt_routine(&mut self, interrupt_source: InterruptSources, peripheral: &mut Peripheral)
        requires
            push_ok(*old(self)),
            old(peripheral)@.wf(),
        ensures
            final(peripheral)@.wf(),
            (*final(self), final(peripheral)@) == interrupt_spec(*old(self), old(peripheral)@, interrupt_source),
    {
        let pc = self.pc;
        self.push(pc, peripheral);
        match interrupt_source {
            InterruptSources::VBLANK => self.pc = VBLANK_VECTOR,
            InterruptSources::STAT => self.pc = LCDSTAT_VECTOR,
            InterruptSources::TIMER => self.pc = TIMER_VECTOR,
            _ => {},
        }
    }

    /// Runs one step of the processor; returns the machine cycles it took.
    pub fn run(&mut self, peripheral: &mut Peripheral) -> (cycles: u8)
        requires
            old(peripheral)@.wf(),
            can_run_spec(*old(self), old(peripheral)@),
        ensures
            final(peripheral)@.wf(),
            (*final(self), final(peripheral)@, cycles) == run_spec(*old(self), old(peripheral)@),
            cycles <= 6,
    {
        // catch interrupt as soon as possible
        if peripheral.nvic.is_an_interrupt_to_run() {
            self.mode = CpuMode::INTERRUPT;
        }
        match self.mode {
            CpuMode::RUN => {
                let instruction_byte = peripheral.read(self.pc);
                let instruction = self.decode(instruction_byte, peripheral).unwrap();
                proof {
                    lemma_execute_cycles(*self, peripheral@, instruction);
                }
                let (next_pc, cpu_cycles) = self.execute(instruction, peripheral);
                self.pc = next_pc;
                cpu_cycles
            },
            CpuMode::INTERRUPT => {
                let interrupt_source = peripheral.nvic.get_interrupt().unwrap();
                self.mode = CpuMode::RUN;
                peripheral.nvic.master_enable(false);
                self.jump_to_interrupt_routine(interrupt_source, peripheral);
                RUN_5_CYCLES
            },
            CpuMode::HALT => {
                if peripheral.nvic.is_an_interrupt_pending() {
                    self.mode = CpuMode::RUN;
                }
                RUN_1_CYCLE
            },
            CpuMode::STOP => RUN_0_CYCLE,
        }
    }
}

impl Cpu {
    /// The machine cycles that executing an instruction takes.
    #[verifier::spinoff_prover]
    #[verifier::rlimit(60)]
    fn instruction_cycles(&self, instruction: Instruction) -> (cycles: u8)
        ensures
            forall|p: PeripheralView| cycles == #[trigger] execute_spec(*self, p, instruction).3,
    {
        match instruction {
            Instruction::ADD(target) | Instruction::ADDC(target) | Instruction::SUB(target)
            | Instruction::SBC(target) | Instruction::AND(target) | Instruction::OR(target)
            | Instruction::XOR(target) | Instruction::CP(target) => match target {
                ArithmeticTarget::HL | ArithmeticTarget::D8 => 2,
                _ => 1,
            },
            Instruction::INC(target) | Instruction::DEC(target) => if target == IncDecTarget::HL {
                3
            } else {
                1
            },
            Instruction::RC(_, target) | Instruction::R(_, target) | Instruction::SLA(target)
            | Instruction::SRA(target) | Instruction::SRL(target) | Instruction::SWAP(target)
            | Instruction::RESET_BIT(_, target) | Instruction::SET_BIT(_, target)
            | Instruction::BIT(_, target) => if target == IncDecTarget::HL {
                4
            } else {
                2
            },
            Instruction::LOAD(main, input) => if main != IncDecTarget::HL {
                match input {
                    ArithmeticTarget::HL | ArithmeticTarget::D8 => 2,
                    _ => 1,
                }
            } else {
                match input {
                    ArithmeticTarget::HL => 0,
                    ArithmeticTarget::D8 => 3,
                    _ => 2,
                }
            },
            Instruction::LOAD_SP(target) => match target {
                SPTarget::FROM_SP => 4,
                SPTarget::TO_HL => 3,
                SPTarget::TO_SP => 2,
            },
            Instruction::LOAD_RAM(target) | Instruction::STORE_RAM(target) => match target {
                RamTarget::OneByteAddress => 3,
                RamTarget::AddressFromRegister => 2,
                RamTarget::TwoBytesAddress => 4,
            },
            Instruction::JUMP_RELATIVE(target) => if self.condition(target) {
                3
            } else {
                2
            },
            Instruction::JUMP_IMMEDIATE(target) => if self.condition(target) {
                4
            } else {
                3
            },
            Instruction::RETURN(target) => if target == JumpTarget::IMMEDIATE {
                4
            } else if self.condition(target) {
                5
            } else {
                2
            },
            Instruction::CALL(target) => if self.condition(target) {
                6
            } else {
                3
            },
            Instruction::ADD16(_) | Instruction::INC16(_) | Instruction::DEC16(_)
            | Instruction::LOAD_INDIRECT(_) | Instruction::STORE_INDIRECT(_) => 2,
            Instruction::LOAD_IMMEDIATE(_) | Instruction::POP(_) => 3,
            Instruction::RESET(_) | Instruction::RETI | Instruction::PUSH(_) | Instruction::AddSp => 4,
            _ => 1,
        }
    }

    /// The page that a one-operand instruction leaves in 0xFF46: none, as (HL) answers a
    /// read and 0xFF46 does not.
    proof fn lemma_unary_dma_page(self, p: PeripheralView, instruction: Instruction, target: IncDecTarget)
        requires
            unary_ok(self, target),
        ensures
            dma_page_effect(p, unary_spec(self, p, instruction, target).1, None),
    {
        if target == IncDecTarget::HL {
            let hl = self.registers.hl();
            let (result, f) = unary_result(instruction, self.registers.f, p.read(hl), true);
            lemma_write_dma_registers(p, hl, result);
        }
    }

    /// The page that an LD between registers, (HL) and d8 leaves in 0xFF46.
    fn load_dma_page(&self, main: IncDecTarget, input: ArithmeticTarget, peripheral: &Peripheral) -> (page: Option<u8>)
        requires
            peripheral@.wf(),
            load_ok(*self, main, input),
        ensures
            dma_page_effect(peripheral@, load_spec(*self, peripheral@, main, input).1, page),
    {
        let ghost p = peripheral@;
        if main != IncDecTarget::HL {
            return None;
        }
        let hl = self.registers.read_hl();
        let value = match input {
            ArithmeticTarget::HL => return None,
            ArithmeticTarget::D8 => peripheral.read(self.next_pc(1)),
            _ => self.read_source(input),
        };
        proof {
            lemma_write_dma_registers(p, hl, value);
        }
        if hl == 0xFF46 {
            Some(value)
        } else {
            None
        }
    }

    /// The page that LD (a16), SP leaves in 0xFF46.
    fn store_sp_dma_page(&self, peripheral: &Peripheral) -> (page: Option<u8>)
        requires
            peripheral@.wf(),
            load_sp_ok(*self, peripheral@, SPTarget::FROM_SP),
        ensures
            dma_page_effect(peripheral@, load_sp_spec(*self, peripheral@, SPTarget::FROM_SP).1, page),
    {
        let ghost p = peripheral@;
        let address = self.read_immediate16(peripheral);
        let low = (self.sp % 256) as u8;
        let high = (self.sp / 256) as u8;
        proof {
            lemma_write_dma_registers(p, address, low);
            lemma_write_dma_registers(p.write(address, low), wrap16(address + 1), high);
        }
        if address.wrapping_add(1) == 0xFF46 {
            Some(high)
        } else if address == 0xFF46 {
            Some(low)
        } else {
            None
        }
    }

    /// The page that LDH (a8), A / LD (C), A / LD (a16), A leaves in 0xFF46.
    fn store_ram_dma_page(&self, target: RamTarget, peripheral: &Peripheral) -> (page: Option<u8>)
        requires
            peripheral@.wf(),
            ram_ok(*self, peripheral@, target, false),
        ensures
            dma_page_effect(peripheral@, load_store_ram_spec(*self, peripheral@, target, false).1, page),
    {
        let ghost p = peripheral@;
        let address: u16 = match target {
            RamTarget::OneByteAddress => 0xFF00 + peripheral.read(self.next_pc(1)) as u16,
            RamTarget::AddressFromRegister => 0xFF00 + self.registers.c as u16,
            RamTarget::TwoBytesAddress => self.read_immediate16(peripheral),
        };
        proof {
            lemma_write_dma_registers(p, address, self.registers.a);
        }
        if address == 0xFF46 {
            Some(self.registers.a)
        } else {
            None
        }
    }

    /// The page that LD (rr), A leaves in 0xFF46.
    fn store_indirect_dma_page(&self, target: Load16Target) -> (page: Option<u8>)
        ensures
            forall|p: PeripheralView| dma_page_effect(p, #[trigger] store_indirect_spec(*self, p, target).1, page),
    {
        let address = self.indirect_address(target);
        proof {
            assert forall|p: PeripheralView| dma_page_effect(p, #[trigger] store_indirect_spec(*self, p, target).1, write_dma_page(address, self.registers.a)) by {
                lemma_write_dma_registers(p, address, self.registers.a);
            }
        }
        if address == 0xFF46 {
            Some(self.registers.a)
        } else {
            None
        }
    }

    /// The page that executing an instruction leaves in 0xFF46, if it writes there.
    #[verifier::spinoff_prover]
    #[verifier::rlimit(60)]
    fn instruction_dma_page(&self, instruction: Instruction, peripheral: &Peripheral) -> (page: Option<u8>)
        requires
            peripheral@.wf(),
            execute_ok(*self, peripheral@, instruction),
        ensures
            dma_page_effect(peripheral@, execute_spec(*self, peripheral@, instruction).1, page),
    {
        let ghost p = peripheral@;
        match instruction {
            Instruction::LOAD(main, input) => self.load_dma_page(main, input, peripheral),
            Instruction::STORE_INDIRECT(target) => self.store_indirect_dma_page(target),
            Instruction::LOAD_SP(target) => match target {
                SPTarget::FROM_SP => self.store_sp_dma_page(peripheral),
                _ => None,
            },
            Instruction::STORE_RAM(target) => self.store_ram_dma_page(target, peripheral),
            Instruction::PUSH(target) => {
                let value = match target {
                    PopPushTarget::BC => self.registers.read_bc(),
                    PopPushTarget::DE => self.registers.read_de(),
                    PopPushTarget::HL => self.registers.read_hl(),
                    PopPushTarget::AF => self.registers.read_af(),
                };
                proof {
                    lemma_push_dma(*self, p, value);
                }
                self.push_page(value)
            },
            Instruction::RESET(_) => {
                let value = self.next_pc(1);
                proof {
                    lemma_push_dma(*self, p, value);
                }
                self.push_page(value)
            },
            Instruction::CALL(target) => {
                if self.condition(target) {
                    let value = self.next_pc(3);
                    proof {
                        lemma_push_dma(*self, p, value);
                    }
                    self.push_page(value)
                } else {
                    None
                }
            },
            _ => {
                proof {
                    lemma_quiet_dma(*self, p, instruction);
                }
                None
            },
        }
    }

    /// The page that pushing `value` leaves in 0xFF46, if any.
    fn push_page(&self, value: u16) -> (page: Option<u8>)
        ensures
            page == push_dma_page(*self, value),
    {
        let low = (value % 256) as u8;
        let high = (value / 256) as u8;
        if self.sp.wrapping_sub(2) == 0xFF46 {
            Some(low)
        } else if self.sp.wrapping_sub(1) == 0xFF46 {
            Some(high)
        } else {
            None
        }
    }

    /// The machine cycles of the next step, and the page that it leaves in 0xFF46 if it
    /// writes there: what the devices need to know before the step is taken.
    pub fn step_outline(&self, peripheral: &Peripheral) -> (outline: (u8, Option<u8>))
        requires
            peripheral@.wf(),
            can_run_spec(*self, peripheral@),
        ensures
            outline.0 == run_spec(*self, peripheral@).2,
            dma_page_effect(peripheral@, run_spec(*self, peripheral@).1, outline.1),
    {
        let ghost p = peripheral@;
        let mode = if peripheral.nvic.is_an_interrupt_to_run() {
            CpuMode::INTERRUPT
        } else {
            self.mode
        };
        let ghost c0 = Cpu { mode, ..*self };
        match mode {
            CpuMode::RUN => {
                let instruction_byte = peripheral.read(self.pc);
                let instruction = self.decode(instruction_byte, peripheral).unwrap();
                assert(execute_spec(c0, p, instruction) == execute_spec(*self, p, instruction));
                let cycles = self.instruction_cycles(instruction);
                let page = self.instruction_dma_page(instruction, peripheral);
                (cycles, page)
            },
            CpuMode::INTERRUPT => {
                let pc = self.pc;
                proof {
                    let p1 = PeripheralView {
                        nvic: Nvic { interrupt_master_enable: false, ..p.nvic.after_acknowledge() },
                        ..p
                    };
                    lemma_push_dma(Cpu { mode: CpuMode::RUN, ..c0 }, p1, pc);
                }
                (RUN_5_CYCLES, self.push_page(pc))
            },
            CpuMode::HALT => (RUN_1_CYCLE, None),
            CpuMode::STOP => (RUN_0_CYCLE, None),
        }
    }
}

/// The instructions that write no memory, or write only at (HL) after reading it, leave
/// the DMA registers as they are.
#[verifier::spinoff_prover]
#[verifier::rlimit(60)]
proof fn lemma_quiet_dma(cpu: Cpu, p: PeripheralView, instruction: Instruction)
    requires
        execute_ok(cpu, p, instruction),
        !(instruction is LOAD || instruction is STORE_INDIRECT || instruction is LOAD_SP
            || instruction is STORE_RAM || instruction is PUSH || instruction is RESET
            || instruction is CALL),
    ensures
        dma_page_effect(p, execute_spec(cpu, p, instruction).1, None),
{
    match instruction {
        Instruction::INC(target) => cpu.lemma_unary_dma_page(p, instruction, target),
        Instruction::DEC(target) => cpu.lemma_unary_dma_page(p, instruction, target),
        Instruction::RC(_, target) => cpu.lemma_unary_dma_page(p, instruction, target),
        Instruction::R(_, target) => cpu.lemma_unary_dma_page(p, instruction, target),
        Instruction::SLA(target) => cpu.lemma_unary_dma_page(p, instruction, target),
        Instruction::SRA(target) => cpu.lemma_unary_dma_page(p, instruction, target),
        Instruction::SRL(target) => cpu.lemma_unary_dma_page(p, instruction, target),
        Instruction::SWAP(target) => cpu.lemma_unary_dma_page(p, instruction, target),
        Instruction::RESET_BIT(_, target) => cpu.lemma_unary_dma_page(p, instruction, target),
        Instruction::SET_BIT(_, target) => cpu.lemma_unary_dma_page(p, instruction, target),
        _ => if family(instruction) <= 1 {
            lemma_no_write_dma_first(cpu, p, instruction)
        } else {
            lemma_no_write_dma_second(cpu, p, instruction)
        },
    }
}

/// The arithmetic and load instructions that write no memory leave the DMA registers.
#[verifier::spinoff_prover]
#[verifier::rlimit(60)]
proof fn lemma_no_write_dma_first(cpu: Cpu, p: PeripheralView, instruction: Instruction)
    requires
        family(instruction) <= 1,
        !(instruction is LOAD || instruction is STORE_INDIRECT || instruction is LOAD_SP
            || instruction is STORE_RAM || instruction is INC || instruction is DEC),
    ensures
        dma_page_effect(p, execute_spec(cpu, p, instruction).1, None),
{
}

/// The control and bit instructions that write no memory leave the DMA registers.
#[verifier::spinoff_prover]
#[verifier::rlimit(60)]
proof fn lemma_no_write_dma_second(cpu: Cpu, p: PeripheralView, instruction: Instruction)
    requires
        family(instruction) >= 2,
        !(instruction is PUSH || instruction is RESET || instruction is CALL || instruction is RC
            || instruction is R || instruction is SLA || instruction is SRA || instruction is SRL
            || instruction is SWAP || instruction is RESET_BIT || instruction is SET_BIT),
    ensures
        dma_page_effect(p, execute_spec(cpu, p, instruction).1, None),
{
}

/// The number of a bit.
fn bit_number(bit: BitTarget) -> (index: u8)
    ensures
        index == bit_index(bit),
        index < 8,
{
    match bit {
        BitTarget::BIT_0 => 0,
        BitTarget::BIT_1 => 1,
        BitTarget::BIT_2 => 2,
        BitTarget::BIT_3 => 3,
        BitTarget::BIT_4 => 4,
        BitTarget::BIT_5 => 5,
        BitTarget::BIT_6 => 6,
        BitTarget::BIT_7 => 7,
    }
}

} // verus!
