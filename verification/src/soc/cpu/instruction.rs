//! Decoding of LR35902 opcodes into instructions.
use vstd::prelude::*;

verus! {

/// The prefix byte of the two-byte (bit, rotate and shift) instructions.
pub const LONG_INSTRUCTION_PREFIX: u8 = 0xCB;

#[derive(Copy, Clone, Debug, PartialEq, Eq, Structural)]
pub enum ArithmeticTarget {
    A,
    B,
    C,
    D,
    E,
    H,
    L,
    HL,
    D8,
}

#[derive(Copy, Clone, Debug, PartialEq, Eq, Structural)]
pub enum IncDecTarget {
    A,
    B,
    C,
    D,
    E,
    H,
    L,
    HL,
}

#[derive(Copy, Clone, Debug, PartialEq, Eq, Structural)]
pub enum U16Target {
    BC,
    DE,
    HL,
    SP,
}

#[allow(non_camel_case_types)]
#[derive(Copy, Clone, Debug, PartialEq, Eq, Structural)]
pub enum Load16Target {
    BC,
    DE,
    HL_plus,
    HL_minus,
}

#[derive(Copy, Clone, Debug, PartialEq, Eq, Structural)]
pub enum JumpTarget {
    IMMEDIATE,
    NZ,
    NC,
    Z,
    C,
}

#[allow(non_camel_case_types)]
#[derive(Copy, Clone, Debug, PartialEq, Eq, Structural)]
pub enum SPTarget {
    FROM_SP,
    TO_HL,
    TO_SP,
}

#[derive(Copy, Clone, Debug, PartialEq, Eq, Structural)]
pub enum RamTarget {
    OneByteAddress,
    AddressFromRegister,
    TwoBytesAddress,
}

#[derive(Copy, Clone, Debug, PartialEq, Eq, Structural)]
pub enum PopPushTarget {
    BC,
    DE,
    HL,
    AF,
}

#[allow(non_camel_case_types)]
#[derive(Copy, Clone, Debug, PartialEq, Eq, Structural)]
pub enum ResetTarget {
    FLASH_0,
    FLASH_1,
    FLASH_2,
    FLASH_3,
    FLASH_4,
    FLASH_5,
    FLASH_6,
    FLASH_7,
}

#[allow(non_camel_case_types)]
#[derive(Copy, Clone, Debug, PartialEq, Eq, Structural)]
pub enum BitTarget {
    BIT_0,
    BIT_1,
    BIT_2,
    BIT_3,
    BIT_4,
    BIT_5,
    BIT_6,
    BIT_7,
}

#[derive(Copy, Clone, Debug, PartialEq, Eq, Structural)]
pub enum Direction {
    LEFT,
    RIGHT,
}

#[allow(non_camel_case_types)]
#[derive(Copy, Clone, Debug, PartialEq, Eq, Structural)]
pub enum Instruction {
    ADD(ArithmeticTarget),
    ADDC(ArithmeticTarget),
    SUB(ArithmeticTarget),
    SBC(ArithmeticTarget),
    AND(ArithmeticTarget),
    OR(ArithmeticTarget),
    XOR(ArithmeticTarget),
    CP(ArithmeticTarget),
    INC(IncDecTarget),
    DEC(IncDecTarget),
    INC16(U16Target),
    DEC16(U16Target),
    ADD16(U16Target),
    LOAD(IncDecTarget, ArithmeticTarget),
    LOAD_INDIRECT(Load16Target),
    LOAD_IMMEDIATE(U16Target),
    STORE_INDIRECT(Load16Target),
    LOAD_SP(SPTarget),
    LOAD_RAM(RamTarget),
    STORE_RAM(RamTarget),
    JUMP_RELATIVE(JumpTarget),
    JUMP_IMMEDIATE(JumpTarget),
    JUMP_INDIRECT,
    RETURN(JumpTarget),
    RESET(ResetTarget),
    CALL(JumpTarget),
    RETI,
    POP(PopPushTarget),
    PUSH(PopPushTarget),
    AddSp,
    DI,
    EI,
    NOP,
    STOP,
    HALT,
    DAA,
    SCF,
    CPL,
    CCF,
    RCA(Direction),
    RA(Direction),
    RC(Direction, IncDecTarget),
    R(Direction, IncDecTarget),
    SLA(IncDecTarget),
    SRA(IncDecTarget),
    SRL(IncDecTarget),
    SWAP(IncDecTarget),
    BIT(BitTarget, IncDecTarget),
    RESET_BIT(BitTarget, IncDecTarget),
    SET_BIT(BitTarget, IncDecTarget),
}

/// The 8-bit operand that the three low bits of an opcode select:
/// B, C, D, E, H, L, the byte at (HL), A.
pub open spec fn register_field(z: int) -> IncDecTarget {
    if z == 0 {
        IncDecTarget::B
    } else if z == 1 {
        IncDecTarget::C
    } else if z == 2 {
        IncDecTarget::D
    } else if z == 3 {
        IncDecTarget::E
    } else if z == 4 {
        IncDecTarget::H
    } else if z == 5 {
        IncDecTarget::L
    } else if z == 6 {
        IncDecTarget::HL
    } else {
        IncDecTarget::A
    }
}

/// The same operand, as a source of an arithmetic or load instruction.
pub open spec fn source_field(z: int) -> ArithmeticTarget {
    match register_field(z) {
        IncDecTarget::A => ArithmeticTarget::A,
        IncDecTarget::B => ArithmeticTarget::B,
        IncDecTarget::C => ArithmeticTarget::C,
        IncDecTarget::D => ArithmeticTarget::D,
        IncDecTarget::E => ArithmeticTarget::E,
        IncDecTarget::H => ArithmeticTarget::H,
        IncDecTarget::L => ArithmeticTarget::L,
        IncDecTarget::HL => ArithmeticTarget::HL,
    }
}

/// The 16-bit register pair that bits 5-4 of an opcode select: BC, DE, HL, SP.
pub open spec fn pair_field(p: int) -> U16Target {
    if p == 0 {
        U16Target::BC
    } else if p == 1 {
        U16Target::DE
    } else if p == 2 {
        U16Target::HL
    } else {
        U16Target::SP
    }
}

/// The condition that bits 4-3 of a conditional jump, call or return select: NZ, Z, NC, C.
pub open spec fn condition_field(y: int) -> JumpTarget {
    if y == 0 {
        JumpTarget::NZ
    } else if y == 1 {
        JumpTarget::Z
    } else if y == 2 {
        JumpTarget::NC
    } else {
        JumpTarget::C
    }
}

/// The arithmetic-logic operation that bits 5-3 select: ADD, ADC, SUB, SBC, AND, XOR, OR, CP.
pub open spec fn alu_field(y: int, source: ArithmeticTarget) -> Instruction {
    if y == 0 {
        Instruction::ADD(source)
    } else if y == 1 {
        Instruction::ADDC(source)
    } else if y == 2 {
        Instruction::SUB(source)
    } else if y == 3 {
        Instruction::SBC(source)
    } else if y == 4 {
        Instruction::AND(source)
    } else if y == 5 {
        Instruction::XOR(source)
    } else if y == 6 {
        Instruction::OR(source)
    } else {
        Instruction::CP(source)
    }
}

pub open spec fn bit_field(y: int) -> BitTarget {
    if y == 0 {
        BitTarget::BIT_0
    } else if y == 1 {
        BitTarget::BIT_1
    } else if y == 2 {
        BitTarget::BIT_2
    } else if y == 3 {
        BitTarget::BIT_3
    } else if y == 4 {
        BitTarget::BIT_4
    } else if y == 5 {
        BitTarget::BIT_5
    } else if y == 6 {
        BitTarget::BIT_6
    } else {
        BitTarget::BIT_7
    }
}

pub open spec fn reset_field(y: int) -> ResetTarget {
    if y == 0 {
        ResetTarget::FLASH_0
    } else if y == 1 {
        ResetTarget::FLASH_1
    } else if y == 2 {
        ResetTarget::FLASH_2
    } else if y == 3 {
        ResetTarget::FLASH_3
    } else if y == 4 {
        ResetTarget::FLASH_4
    } else if y == 5 {
        ResetTarget::FLASH_5
    } else if y == 6 {
        ResetTarget::FLASH_6
    } else {
        ResetTarget::FLASH_7
    }
}

/// Opcodes 0x00-0x3F, by their fields y (bits 5-3) and z (bits 2-0).
pub open spec fn decode_block_0(y: int, z: int) -> Option<Instruction> {
    let p = y / 2;
    let q = y % 2;
    if z == 0 {
        if y == 0 {
            Some(Instruction::NOP)
        } else if y == 1 {
            Some(Instruction::LOAD_SP(SPTarget::FROM_SP))
        } else if y == 2 {
            Some(Instruction::STOP)
        } else if y == 3 {
            Some(Instruction::JUMP_RELATIVE(JumpTarget::IMMEDIATE))
        } else {
            Some(Instruction::JUMP_RELATIVE(condition_field(y - 4)))
        }
    } else if z == 1 {
        if q == 0 {
            Some(Instruction::LOAD_IMMEDIATE(pair_field(p)))
        } else {
            Some(Instruction::ADD16(pair_field(p)))
        }
    } else if z == 2 {
        let target = if p == 0 {
            Load16Target::BC
        } else if p == 1 {
            Load16Target::DE
        } else if p == 2 {
            Load16Target::HL_plus
        } else {
            Load16Target::HL_minus
        };
        if q == 0 {
            Some(Instruction::STORE_INDIRECT(target))
        } else {
            Some(Instruction::LOAD_INDIRECT(target))
        }
    } else if z == 3 {
        if q == 0 {
            Some(Instruction::INC16(pair_field(p)))
        } else {
            Some(Instruction::DEC16(pair_field(p)))
        }
    } else if z == 4 {
        Some(Instruction::INC(register_field(y)))
    } else if z == 5 {
        Some(Instruction::DEC(register_field(y)))
    } else if z == 6 {
        Some(Instruction::LOAD(register_field(y), ArithmeticTarget::D8))
    } else if y == 0 {
        Some(Instruction::RCA(Direction::LEFT))
    } else if y == 1 {
        Some(Instruction::RCA(Direction::RIGHT))
    } else if y == 2 {
        Some(Instruction::RA(Direction::LEFT))
    } else if y == 3 {
        Some(Instruction::RA(Direction::RIGHT))
    } else if y == 4 {
        Some(Instruction::DAA)
    } else if y == 5 {
        Some(Instruction::CPL)
    } else if y == 6 {
        Some(Instruction::SCF)
    } else {
        Some(Instruction::CCF)
    }
}

/// Opcodes 0xC0-0xFF, by their fields y (bits 5-3) and z (bits 2-0). The
/// prefix 0xCB and the eleven opcodes that the processor leaves undefined give `None`.
pub open spec fn decode_block_3(y: int, z: int) -> Option<Instruction> {
    let p = y / 2;
    let q = y % 2;
    let stack_pair = if p == 0 {
        PopPushTarget::BC
    } else if p == 1 {
        PopPushTarget::DE
    } else if p == 2 {
        PopPushTarget::HL
    } else {
        PopPushTarget::AF
    };
    if z == 0 {
        if y < 4 {
            Some(Instruction::RETURN(condition_field(y)))
        } else if y == 4 {
            Some(Instruction::STORE_RAM(RamTarget::OneByteAddress))
        } else if y == 5 {
            Some(Instruction::AddSp)
        } else if y == 6 {
            Some(Instruction::LOAD_RAM(RamTarget::OneByteAddress))
        } else {
            Some(Instruction::LOAD_SP(SPTarget::TO_HL))
        }
    } else if z == 1 {
        if q == 0 {
            Some(Instruction::POP(stack_pair))
        } else if p == 0 {
            Some(Instruction::RETURN(JumpTarget::IMMEDIATE))
        } else if p == 1 {
            Some(Instruction::RETI)
        } else if p == 2 {
            Some(Instruction::JUMP_INDIRECT)
        } else {
            Some(Instruction::LOAD_SP(SPTarget::TO_SP))
        }
    } else if z == 2 {
        if y < 4 {
            Some(Instruction::JUMP_IMMEDIATE(condition_field(y)))
        } else if y == 4 {
            Some(Instruction::STORE_RAM(RamTarget::AddressFromRegister))
        } else if y == 5 {
            Some(Instruction::STORE_RAM(RamTarget::TwoBytesAddress))
        } else if y == 6 {
            Some(Instruction::LOAD_RAM(RamTarget::AddressFromRegister))
        } else {
            Some(Instruction::LOAD_RAM(RamTarget::TwoBytesAddress))
        }
    } else if z == 3 {
        if y == 0 {
            Some(Instruction::JUMP_IMMEDIATE(JumpTarget::IMMEDIATE))
        } else if y == 6 {
            Some(Instruction::DI)
        } else if y == 7 {
            Some(Instruction::EI)
        } else {
            None
        }
    } else if z == 4 {
        if y < 4 {
            Some(Instruction::CALL(condition_field(y)))
        } else {
            None
        }
    } else if z == 5 {
        if q == 0 {
            Some(Instruction::PUSH(stack_pair))
        } else if p == 0 {
            Some(Instruction::CALL(JumpTarget::IMMEDIATE))
        } else {
            None
        }
    } else if z == 6 {
        Some(alu_field(y, ArithmeticTarget::D8))
    } else {
        Some(Instruction::RESET(reset_field(y)))
    }
}

/// The instruction that a one-byte opcode stands for, read from its fields
/// x (bits 7-6), y (bits 5-3) and z (bits 2-0).
pub open spec fn decode(byte: u8) -> Option<Instruction> {
    let x = byte / 64;
    let y = (byte / 8) % 8;
    let z = byte % 8;
    if x == 0 {
        decode_block_0(y as int, z as int)
    } else if x == 1 {
        if byte == 0x76 {
            Some(Instruction::HALT)
        } else {
            Some(Instruction::LOAD(register_field(y as int), source_field(z as int)))
        }
    } else if x == 2 {
        Some(alu_field(y as int, source_field(z as int)))
    } else {
        decode_block_3(y as int, z as int)
    }
}

/// The instruction that the byte after the prefix 0xCB stands for.
pub open spec fn decode_long(byte: u8) -> Instruction {
    let x = byte / 64;
    let y = (byte / 8) % 8;
    let target = register_field((byte % 8) as int);
    if x == 0 {
        if y == 0 {
            Instruction::RC(Direction::LEFT, target)
        } else if y == 1 {
            Instruction::RC(Direction::RIGHT, target)
        } else if y == 2 {
            Instruction::R(Direction::LEFT, target)
        } else if y == 3 {
            Instruction::R(Direction::RIGHT, target)
        } else if y == 4 {
            Instruction::SLA(target)
        } else if y == 5 {
            Instruction::SRA(target)
        } else if y == 6 {
            Instruction::SWAP(target)
        } else {
            Instruction::SRL(target)
        }
    } else if x == 1 {
        Instruction::BIT(bit_field(y as int), target)
    } else if x == 2 {
        Instruction::RESET_BIT(bit_field(y as int), target)
    } else {
        Instruction::SET_BIT(bit_field(y as int), target)
    }
}

/// The code of an 8-bit operand in an opcode: B, C, D, E, H, L, (HL), A are 0 to 7.
pub open spec fn operand_code(target: ArithmeticTarget) -> int {
    match target {
        ArithmeticTarget::B => 0,
        ArithmeticTarget::C => 1,
        ArithmeticTarget::D => 2,
        ArithmeticTarget::E => 3,
        ArithmeticTarget::H => 4,
        ArithmeticTarget::L => 5,
        ArithmeticTarget::HL => 6,
        ArithmeticTarget::A => 7,
        ArithmeticTarget::D8 => 8,
    }
}

/// The code of an 8-bit register (or (HL)) in an opcode, as for `operand_code`.
pub open spec fn register_code(target: IncDecTarget) -> int {
    match target {
        IncDecTarget::B => 0,
        IncDecTarget::C => 1,
        IncDecTarget::D => 2,
        IncDecTarget::E => 3,
        IncDecTarget::H => 4,
        IncDecTarget::L => 5,
        IncDecTarget::HL => 6,
        IncDecTarget::A => 7,
    }
}

/// The code of a register pair: BC, DE, HL, SP are 0 to 3.
pub open spec fn pair_code(target: U16Target) -> int {
    match target {
        U16Target::BC => 0,
        U16Target::DE => 1,
        U16Target::HL => 2,
        U16Target::SP => 3,
    }
}

/// The code of a stack pair: BC, DE, HL, AF are 0 to 3.
pub open spec fn stack_code(target: PopPushTarget) -> int {
    match target {
        PopPushTarget::BC => 0,
        PopPushTarget::DE => 1,
        PopPushTarget::HL => 2,
        PopPushTarget::AF => 3,
    }
}

/// The code of the pointer of LD (rr), A and LD A, (rr): BC, DE, HL+, HL- are 0 to 3.
pub open spec fn pointer_code(target: Load16Target) -> int {
    match target {
        Load16Target::BC => 0,
        Load16Target::DE => 1,
        Load16Target::HL_plus => 2,
        Load16Target::HL_minus => 3,
    }
}

/// The code of a jump condition: NZ, Z, NC, C are 0 to 3 (no code for the unconditional
/// form, which has opcodes of its own).
pub open spec fn condition_code(target: JumpTarget) -> int {
    match target {
        JumpTarget::NZ => 0,
        JumpTarget::Z => 1,
        JumpTarget::NC => 2,
        JumpTarget::C => 3,
        JumpTarget::IMMEDIATE => 4,
    }
}

pub open spec fn bit_code(bit: BitTarget) -> int {
    match bit {
        BitTarget::BIT_0 => 0,
        BitTarget::BIT_1 => 1,
        BitTarget::BIT_2 => 2,
        BitTarget::BIT_3 => 3,
        BitTarget::BIT_4 => 4,
        BitTarget::BIT_5 => 5,
        BitTarget::BIT_6 => 6,
        BitTarget::BIT_7 => 7,
    }
}

pub open spec fn reset_code(target: ResetTarget) -> int {
    match target {
        ResetTarget::FLASH_0 => 0,
        ResetTarget::FLASH_1 => 1,
        ResetTarget::FLASH_2 => 2,
        ResetTarget::FLASH_3 => 3,
        ResetTarget::FLASH_4 => 4,
        ResetTarget::FLASH_5 => 5,
        ResetTarget::FLASH_6 => 6,
        ResetTarget::FLASH_7 => 7,
    }
}

/// The opcode of an 8-bit arithmetic-logic instruction whose operation has number `op`
/// (ADD, ADC, SUB, SBC, AND, XOR, OR, CP are 0 to 7): 0x80 + 8 op + the operand's code,
/// or 0xC6 + 8 op for an immediate operand.
pub open spec fn alu_opcode(op: int, target: ArithmeticTarget) -> int {
    if target == ArithmeticTarget::D8 {
        0xC6 + 8 * op
    } else {
        0x80 + 8 * op + operand_code(target)
    }
}

/// The one-byte opcode of an instruction, as the LR35902 encodes it; the instructions of
/// the 0xCB prefix, and LD (HL), (HL), have none.
pub open spec fn opcode(instruction: Instruction) -> Option<int> {
    match instruction {
        Instruction::ADD(t) => Some(alu_opcode(0, t)),
        Instruction::ADDC(t) => Some(alu_opcode(1, t)),
        Instruction::SUB(t) => Some(alu_opcode(2, t)),
        Instruction::SBC(t) => Some(alu_opcode(3, t)),
        Instruction::AND(t) => Some(alu_opcode(4, t)),
        Instruction::XOR(t) => Some(alu_opcode(5, t)),
        Instruction::OR(t) => Some(alu_opcode(6, t)),
        Instruction::CP(t) => Some(alu_opcode(7, t)),
        Instruction::INC(t) => Some(0x04 + 8 * register_code(t)),
        Instruction::DEC(t) => Some(0x05 + 8 * register_code(t)),
        Instruction::LOAD(main, input) => if input == ArithmeticTarget::D8 {
            Some(0x06 + 8 * register_code(main))
        } else if main == IncDecTarget::HL && input == ArithmeticTarget::HL {
            None
        } else {
            Some(0x40 + 8 * register_code(main) + operand_code(input))
        },
        Instruction::LOAD_IMMEDIATE(t) => Some(0x01 + 16 * pair_code(t)),
        Instruction::ADD16(t) => Some(0x09 + 16 * pair_code(t)),
        Instruction::INC16(t) => Some(0x03 + 16 * pair_code(t)),
        Instruction::DEC16(t) => Some(0x0B + 16 * pair_code(t)),
        Instruction::STORE_INDIRECT(t) => Some(0x02 + 16 * pointer_code(t)),
        Instruction::LOAD_INDIRECT(t) => Some(0x0A + 16 * pointer_code(t)),
        Instruction::LOAD_SP(t) => Some(
            match t {
                SPTarget::FROM_SP => 0x08,
                SPTarget::TO_HL => 0xF8,
                SPTarget::TO_SP => 0xF9,
            },
        ),
        Instruction::LOAD_RAM(t) => Some(
            match t {
                RamTarget::OneByteAddress => 0xF0,
                RamTarget::AddressFromRegister => 0xF2,
                RamTarget::TwoBytesAddress => 0xFA,
            },
        ),
        Instruction::STORE_RAM(t) => Some(
            match t {
                RamTarget::OneByteAddress => 0xE0,
                RamTarget::AddressFromRegister => 0xE2,
                RamTarget::TwoBytesAddress => 0xEA,
            },
        ),
        Instruction::JUMP_RELATIVE(c) => Some(
            if c == JumpTarget::IMMEDIATE {
                0x18
            } else {
                0x20 + 8 * condition_code(c)
            },
        ),
        Instruction::JUMP_IMMEDIATE(c) => Some(
            if c == JumpTarget::IMMEDIATE {
                0xC3
            } else {
                0xC2 + 8 * condition_code(c)
            },
        ),
        Instruction::CALL(c) => Some(
            if c == JumpTarget::IMMEDIATE {
                0xCD
            } else {
                0xC4 + 8 * condition_code(c)
            },
        ),
        Instruction::RETURN(c) => Some(
            if c == JumpTarget::IMMEDIATE {
                0xC9
            } else {
                0xC0 + 8 * condition_code(c)
            },
        ),
        Instruction::JUMP_INDIRECT => Some(0xE9),
        Instruction::RESET(t) => Some(0xC7 + 8 * reset_code(t)),
        Instruction::RETI => Some(0xD9),
        Instruction::POP(t) => Some(0xC1 + 16 * stack_code(t)),
        Instruction::PUSH(t) => Some(0xC5 + 16 * stack_code(t)),
        Instruction::AddSp => Some(0xE8),
        Instruction::DI => Some(0xF3),
        Instruction::EI => Some(0xFB),
        Instruction::NOP => Some(0x00),
        Instruction::STOP => Some(0x10),
        Instruction::HALT => Some(0x76),
        Instruction::DAA => Some(0x27),
        Instruction::CPL => Some(0x2F),
        Instruction::SCF => Some(0x37),
        Instruction::CCF => Some(0x3F),
        Instruction::RCA(d) => Some(if d == Direction::LEFT { 0x07int } else { 0x0Fint }),
        Instruction::RA(d) => Some(if d == Direction::LEFT { 0x17int } else { 0x1Fint }),
        _ => None,
    }
}

/// The byte after the prefix 0xCB that encodes an instruction of the prefix.
pub open spec fn long_opcode(instruction: Instruction) -> Option<int> {
    match instruction {
        Instruction::RC(d, t) => Some(if d == Direction::LEFT { 0x00int } else { 0x08int } + register_code(t)),
        Instruction::R(d, t) => Some(if d == Direction::LEFT { 0x10int } else { 0x18int } + register_code(t)),
        Instruction::SLA(t) => Some(0x20 + register_code(t)),
        Instruction::SRA(t) => Some(0x28 + register_code(t)),
        Instruction::SWAP(t) => Some(0x30 + register_code(t)),
        Instruction::SRL(t) => Some(0x38 + register_code(t)),
        Instruction::BIT(b, t) => Some(0x40 + 8 * bit_code(b) + register_code(t)),
        Instruction::RESET_BIT(b, t) => Some(0x80 + 8 * bit_code(b) + register_code(t)),
        Instruction::SET_BIT(b, t) => Some(0xC0 + 8 * bit_code(b) + register_code(t)),
        _ => None,
    }
}

/// The opcodes that the processor leaves undefined, and the prefix 0xCB.
pub open spec fn is_unassigned_opcode(byte: u8) -> bool {
    ||| byte == 0xCB
    ||| byte == 0xD3
    ||| byte == 0xDB
    ||| byte == 0xDD
    ||| byte == 0xE3
    ||| byte == 0xE4
    ||| byte == 0xEB
    ||| byte == 0xEC
    ||| byte == 0xED
    ||| byte == 0xF4
    ||| byte == 0xFC
    ||| byte == 0xFD
}

proof fn lemma_field_codes(k: int)
    requires
        0 <= k < 8,
    ensures
        register_code(register_field(k)) == k,
        operand_code(source_field(k)) == k,
        bit_code(bit_field(k)) == k,
        reset_code(reset_field(k)) == k,
        k < 4 ==> pair_code(pair_field(k)) == k,
        k < 4 ==> condition_code(condition_field(k)) == k,
{
}

proof fn lemma_alu_field_code(y: int, t: ArithmeticTarget)
    requires
        0 <= y < 8,
    ensures
        opcode(alu_field(y, t)) == Some(alu_opcode(y, t)),
{
}

/// Decoding agrees with the encoding of the instruction set: every one-byte opcode that
/// decodes gives an instruction whose opcode is that byte, so no two opcodes decode to
/// the same instruction; the opcodes that decode to nothing are exactly the eleven that
/// the processor leaves undefined and the prefix 0xCB.
pub proof fn lemma_decode_agrees_with_encoding(byte: u8)
    ensures
        decode(byte) matches Some(instruction) ==> opcode(instruction) == Some(byte as int),
        decode(byte) is None <==> is_unassigned_opcode(byte),
{
    let x = byte / 64;
    let y = (byte / 8) % 8;
    let z = byte % 8;
    assert(byte == 64 * x + 8 * y + z) by (bit_vector)
        requires
            x == byte / 64,
            y == (byte / 8) % 8,
            z == byte % 8,
    ;
    lemma_field_codes(y as int);
    lemma_field_codes(z as int);
    lemma_field_codes((y / 2) as int);
    if x == 0 {
        if y >= 4 {
            lemma_field_codes(y - 4);
        }
    } else if x == 2 {
        lemma_alu_field_code(y as int, source_field(z as int));
    } else if x == 3 {
        lemma_alu_field_code(y as int, ArithmeticTarget::D8);
    }
}

/// Decoding after the prefix 0xCB agrees with the encoding of those instructions: the
/// instruction that a byte decodes to is encoded by that byte.
pub proof fn lemma_decode_long_agrees_with_encoding(byte: u8)
    ensures
        long_opcode(decode_long(byte)) == Some(byte as int),
{
    let x = byte / 64;
    let y = (byte / 8) % 8;
    let z = byte % 8;
    assert(byte == 64 * x + 8 * y + z) by (bit_vector)
        requires
            x == byte / 64,
            y == (byte / 8) % 8,
            z == byte % 8,
    ;
    lemma_field_codes(y as int);
    lemma_field_codes(z as int);
}

fn register_from_field(z: u8) -> (target: IncDecTarget)
    requires
        z < 8,
    ensures
        target == register_field(z as int),
{
    match z {
        0 => IncDecTarget::B,
        1 => IncDecTarget::C,
        2 => IncDecTarget::D,
        3 => IncDecTarget::E,
        4 => IncDecTarget::H,
        5 => IncDecTarget::L,
        6 => IncDecTarget::HL,
        _ => IncDecTarget::A,
    }
}

fn bit_from_field(y: u8) -> (target: BitTarget)
    requires
        y < 8,
    ensures
        target == bit_field(y as int),
{
    match y {
        0 => BitTarget::BIT_0,
        1 => BitTarget::BIT_1,
        2 => BitTarget::BIT_2,
        3 => BitTarget::BIT_3,
        4 => BitTarget::BIT_4,
        5 => BitTarget::BIT_5,
        6 => BitTarget::BIT_6,
        _ => BitTarget::BIT_7,
    }
}

impl Instruction {
    pub fn is_long_instruction(byte: u8) -> (long: bool)
        ensures
            long == (byte == LONG_INSTRUCTION_PREFIX),
    {
        byte == LONG_INSTRUCTION_PREFIX
    }

    pub fn from_long_byte(byte: u8) -> (instruction: Option<Instruction>)
        ensures
            instruction == Some(decode_long(byte)),
    {
        let y = (byte / 8) % 8;
        let target = register_from_field(byte % 8);
        let instruction = if byte < 0x40 {
            match y {
                0 => Instruction::RC(Direction::LEFT, target),
                1 => Instruction::RC(Direction::RIGHT, target),
                2 => Instruction::R(Direction::LEFT, target),
                3 => Instruction::R(Direction::RIGHT, target),
                4 => Instruction::SLA(target),
                5 => Instruction::SRA(target),
                6 => Instruction::SWAP(target),
                _ => Instruction::SRL(target),
            }
        } else if byte < 0x80 {
            Instruction::BIT(bit_from_field(y), target)
        } else if byte < 0xC0 {
            Instruction::RESET_BIT(bit_from_field(y), target)
        } else {
            Instruction::SET_BIT(bit_from_field(y), target)
        };
        Some(instruction)
    }

    #[verifier::rlimit(100)]
    pub fn from_byte(byte: u8) -> (instruction: Option<Instruction>)
        ensures
            instruction == decode(byte),
    {
        match byte {
            0x00 => Some(Instruction::NOP),
            0x01 => Some(Instruction::LOAD_IMMEDIATE(U16Target::BC)),
            0x02 => Some(Instruction::STORE_INDIRECT(Load16Target::BC)),
            0x03 => Some(Instruction::INC16(U16Target::BC)),
            0x04 => Some(Instruction::INC(IncDecTarget::B)),
            0x05 => Some(Instruction::DEC(IncDecTarget::B)),
            0x06 => Some(Instruction::LOAD(IncDecTarget::B, ArithmeticTarget::D8)),
            0x07 => Some(Instruction::RCA(Direction::LEFT)),
            0x08 => Some(Instruction::LOAD_SP(SPTarget::FROM_SP)),
            0x09 => Some(Instruction::ADD16(U16Target::BC)),
            0x0A => Some(Instruction::LOAD_INDIRECT(Load16Target::BC)),
            0x0B => Some(Instruction::DEC16(U16Target::BC)),
            0x0C => Some(Instruction::INC(IncDecTarget::C)),
            0x0D => Some(Instruction::DEC(IncDecTarget::C)),
            0x0E => Some(Instruction::LOAD(IncDecTarget::C, ArithmeticTarget::D8)),
            0x0F => Some(Instruction::RCA(Direction::RIGHT)),
            0x10 => Some(Instruction::STOP),
            0x11 => Some(Instruction::LOAD_IMMEDIATE(U16Target::DE)),
            0x12 => Some(Instruction::STORE_INDIRECT(Load16Target::DE)),
            0x13 => Some(Instruction::INC16(U16Target::DE)),
            0x14 => Some(Instruction::INC(IncDecTarget::D)),
            0x15 => Some(Instruction::DEC(IncDecTarget::D)),
            0x16 => Some(Instruction::LOAD(IncDecTarget::D, ArithmeticTarget::D8)),
            0x17 => Some(Instruction::RA(Direction::LEFT)),
            0x18 => Some(Instruction::JUMP_RELATIVE(JumpTarget::IMMEDIATE)),
            0x19 => Some(Instruction::ADD16(U16Target::DE)),
            0x1A => Some(Instruction::LOAD_INDIRECT(Load16Target::DE)),
            0x1B => Some(Instruction::DEC16(U16Target::DE)),
            0x1C => Some(Instruction::INC(IncDecTarget::E)),
            0x1D => Some(Instruction::DEC(IncDecTarget::E)),
            0x1E => Some(Instruction::LOAD(IncDecTarget::E, ArithmeticTarget::D8)),
            0x1F => Some(Instruction::RA(Direction::RIGHT)),
            0x20 => Some(Instruction::JUMP_RELATIVE(JumpTarget::NZ)),
            0x21 => Some(Instruction::LOAD_IMMEDIATE(U16Target::HL)),
            0x22 => Some(Instruction::STORE_INDIRECT(Load16Target::HL_plus)),
            0x23 => Some(Instruction::INC16(U16Target::HL)),
            0x24 => Some(Instruction::INC(IncDecTarget::H)),
            0x25 => Some(Instruction::DEC(IncDecTarget::H)),
            0x26 => Some(Instruction::LOAD(IncDecTarget::H, ArithmeticTarget::D8)),
            0x27 => Some(Instruction::DAA),
            0x28 => Some(Instruction::JUMP_RELATIVE(JumpTarget::Z)),
            0x29 => Some(Instruction::ADD16(U16Target::HL)),
            0x2A => Some(Instruction::LOAD_INDIRECT(Load16Target::HL_plus)),
            0x2B => Some(Instruction::DEC16(U16Target::HL)),
            0x2C => Some(Instruction::INC(IncDecTarget::L)),
            0x2D => Some(Instruction::DEC(IncDecTarget::L)),
            0x2E => Some(Instruction::LOAD(IncDecTarget::L, ArithmeticTarget::D8)),
            0x2F => Some(Instruction::CPL),
            0x30 => Some(Instruction::JUMP_RELATIVE(JumpTarget::NC)),
            0x31 => Some(Instruction::LOAD_IMMEDIATE(U16Target::SP)),
            0x32 => Some(Instruction::STORE_INDIRECT(Load16Target::HL_minus)),
            0x33 => Some(Instruction::INC16(U16Target::SP)),
            0x34 => Some(Instruction::INC(IncDecTarget::HL)),
            0x35 => Some(Instruction::DEC(IncDecTarget::HL)),
            0x36 => Some(Instruction::LOAD(IncDecTarget::HL, ArithmeticTarget::D8)),
            0x37 => Some(Instruction::SCF),
            0x38 => Some(Instruction::JUMP_RELATIVE(JumpTarget::C)),
            0x39 => Some(Instruction::ADD16(U16Target::SP)),
            0x3A => Some(Instruction::LOAD_INDIRECT(Load16Target::HL_minus)),
            0x3B => Some(Instruction::DEC16(U16Target::SP)),
            0x3C => Some(Instruction::INC(IncDecTarget::A)),
            0x3D => Some(Instruction::DEC(IncDecTarget::A)),
            0x3E => Some(Instruction::LOAD(IncDecTarget::A, ArithmeticTarget::D8)),
            0x3F => Some(Instruction::CCF),
            0x40 => Some(Instruction::LOAD(IncDecTarget::B, ArithmeticTarget::B)),
            0x41 => Some(Instruction::LOAD(IncDecTarget::B, ArithmeticTarget::C)),
            0x42 => Some(Instruction::LOAD(IncDecTarget::B, ArithmeticTarget::D)),
            0x43 => Some(Instruction::LOAD(IncDecTarget::B, ArithmeticTarget::E)),
            0x44 => Some(Instruction::LOAD(IncDecTarget::B, ArithmeticTarget::H)),
            0x45 => Some(Instruction::LOAD(IncDecTarget::B, ArithmeticTarget::L)),
            0x46 => Some(Instruction::LOAD(IncDecTarget::B, ArithmeticTarget::HL)),
            0x47 => Some(Instruction::LOAD(IncDecTarget::B, ArithmeticTarget::A)),
            0x48 => Some(Instruction::LOAD(IncDecTarget::C, ArithmeticTarget::B)),
            0x49 => Some(Instruction::LOAD(IncDecTarget::C, ArithmeticTarget::C)),
            0x4A => Some(Instruction::LOAD(IncDecTarget::C, ArithmeticTarget::D)),
            0x4B => Some(Instruction::LOAD(IncDecTarget::C, ArithmeticTarget::E)),
            0x4C => Some(Instruction::LOAD(IncDecTarget::C, ArithmeticTarget::H)),
            0x4D => Some(Instruction::LOAD(IncDecTarget::C, ArithmeticTarget::L)),
            0x4E => Some(Instruction::LOAD(IncDecTarget::C, ArithmeticTarget::HL)),
            0x4F => Some(Instruction::LOAD(IncDecTarget::C, ArithmeticTarget::A)),
            0x50 => Some(Instruction::LOAD(IncDecTarget::D, ArithmeticTarget::B)),
            0x51 => Some(Instruction::LOAD(IncDecTarget::D, ArithmeticTarget::C)),
            0x52 => Some(Instruction::LOAD(IncDecTarget::D, ArithmeticTarget::D)),
            0x53 => Some(Instruction::LOAD(IncDecTarget::D, ArithmeticTarget::E)),
            0x54 => Some(Instruction::LOAD(IncDecTarget::D, ArithmeticTarget::H)),
            0x55 => Some(Instruction::LOAD(IncDecTarget::D, ArithmeticTarget::L)),
            0x56 => Some(Instruction::LOAD(IncDecTarget::D, ArithmeticTarget::HL)),
            0x57 => Some(Instruction::LOAD(IncDecTarget::D, ArithmeticTarget::A)),
            0x58 => Some(Instruction::LOAD(IncDecTarget::E, ArithmeticTarget::B)),
            0x59 => Some(Instruction::LOAD(IncDecTarget::E, ArithmeticTarget::C)),
            0x5A => Some(Instruction::LOAD(IncDecTarget::E, ArithmeticTarget::D)),
            0x5B => Some(Instruction::LOAD(IncDecTarget::E, ArithmeticTarget::E)),
            0x5C => Some(Instruction::LOAD(IncDecTarget::E, ArithmeticTarget::H)),
            0x5D => Some(Instruction::LOAD(IncDecTarget::E, ArithmeticTarget::L)),
            0x5E => Some(Instruction::LOAD(IncDecTarget::E, ArithmeticTarget::HL)),
            0x5F => Some(Instruction::LOAD(IncDecTarget::E, ArithmeticTarget::A)),
            0x60 => Some(Instruction::LOAD(IncDecTarget::H, ArithmeticTarget::B)),
            0x61 => Some(Instruction::LOAD(IncDecTarget::H, ArithmeticTarget::C)),
            0x62 => Some(Instruction::LOAD(IncDecTarget::H, ArithmeticTarget::D)),
            0x63 => Some(Instruction::LOAD(IncDecTarget::H, ArithmeticTarget::E)),
            0x64 => Some(Instruction::LOAD(IncDecTarget::H, ArithmeticTarget::H)),
            0x65 => Some(Instruction::LOAD(IncDecTarget::H, ArithmeticTarget::L)),
            0x66 => Some(Instruction::LOAD(IncDecTarget::H, ArithmeticTarget::HL)),
            0x67 => Some(Instruction::LOAD(IncDecTarget::H, ArithmeticTarget::A)),
            0x68 => Some(Instruction::LOAD(IncDecTarget::L, ArithmeticTarget::B)),
            0x69 => Some(Instruction::LOAD(IncDecTarget::L, ArithmeticTarget::C)),
            0x6A => Some(Instruction::LOAD(IncDecTarget::L, ArithmeticTarget::D)),
            0x6B => Some(Instruction::LOAD(IncDecTarget::L, ArithmeticTarget::E)),
            0x6C => Some(Instruction::LOAD(IncDecTarget::L, ArithmeticTarget::H)),
            0x6D => Some(Instruction::LOAD(IncDecTarget::L, ArithmeticTarget::L)),
            0x6E => Some(Instruction::LOAD(IncDecTarget::L, ArithmeticTarget::HL)),
            0x6F => Some(Instruction::LOAD(IncDecTarget::L, ArithmeticTarget::A)),
            0x70 => Some(Instruction::LOAD(IncDecTarget::HL, ArithmeticTarget::B)),
            0x71 => Some(Instruction::LOAD(IncDecTarget::HL, ArithmeticTarget::C)),
            0x72 => Some(Instruction::LOAD(IncDecTarget::HL, ArithmeticTarget::D)),
            0x73 => Some(Instruction::LOAD(IncDecTarget::HL, ArithmeticTarget::E)),
            0x74 => Some(Instruction::LOAD(IncDecTarget::HL, ArithmeticTarget::H)),
            0x75 => Some(Instruction::LOAD(IncDecTarget::HL, ArithmeticTarget::L)),
            0x76 => Some(Instruction::HALT),
            0x77 => Some(Instruction::LOAD(IncDecTarget::HL, ArithmeticTarget::A)),
            0x78 => Some(Instruction::LOAD(IncDecTarget::A, ArithmeticTarget::B)),
            0x79 => Some(Instruction::LOAD(IncDecTarget::A, ArithmeticTarget::C)),
            0x7A => Some(Instruction::LOAD(IncDecTarget::A, ArithmeticTarget::D)),
            0x7B => Some(Instruction::LOAD(IncDecTarget::A, ArithmeticTarget::E)),
            0x7C => Some(Instruction::LOAD(IncDecTarget::A, ArithmeticTarget::H)),
            0x7D => Some(Instruction::LOAD(IncDecTarget::A, ArithmeticTarget::L)),
            0x7E => Some(Instruction::LOAD(IncDecTarget::A, ArithmeticTarget::HL)),
            0x7F => Some(Instruction::LOAD(IncDecTarget::A, ArithmeticTarget::A)),
            0x80 => Some(Instruction::ADD(ArithmeticTarget::B)),
            0x81 => Some(Instruction::ADD(ArithmeticTarget::C)),
            0x82 => Some(Instruction::ADD(ArithmeticTarget::D)),
            0x83 => Some(Instruction::ADD(ArithmeticTarget::E)),
            0x84 => Some(Instruction::ADD(ArithmeticTarget::H)),
            0x85 => Some(Instruction::ADD(ArithmeticTarget::L)),
            0x86 => Some(Instruction::ADD(ArithmeticTarget::HL)),
            0x87 => Some(Instruction::ADD(ArithmeticTarget::A)),
            0x88 => Some(Instruction::ADDC(ArithmeticTarget::B)),
            0x89 => Some(Instruction::ADDC(ArithmeticTarget::C)),
            0x8A => Some(Instruction::ADDC(ArithmeticTarget::D)),
            0x8B => Some(Instruction::ADDC(ArithmeticTarget::E)),
            0x8C => Some(Instruction::ADDC(ArithmeticTarget::H)),
            0x8D => Some(Instruction::ADDC(ArithmeticTarget::L)),
            0x8E => Some(Instruction::ADDC(ArithmeticTarget::HL)),
            0x8F => Some(Instruction::ADDC(ArithmeticTarget::A)),
            0x90 => Some(Instruction::SUB(ArithmeticTarget::B)),
            0x91 => Some(Instruction::SUB(ArithmeticTarget::C)),
            0x92 => Some(Instruction::SUB(ArithmeticTarget::D)),
            0x93 => Some(Instruction::SUB(ArithmeticTarget::E)),
            0x94 => Some(Instruction::SUB(ArithmeticTarget::H)),
            0x95 => Some(Instruction::SUB(ArithmeticTarget::L)),
            0x96 => Some(Instruction::SUB(ArithmeticTarget::HL)),
            0x97 => Some(Instruction::SUB(ArithmeticTarget::A)),
            0x98 => Some(Instruction::SBC(ArithmeticTarget::B)),
            0x99 => Some(Instruction::SBC(ArithmeticTarget::C)),
            0x9A => Some(Instruction::SBC(ArithmeticTarget::D)),
            0x9B => Some(Instruction::SBC(ArithmeticTarget::E)),
            0x9C => Some(Instruction::SBC(ArithmeticTarget::H)),
            0x9D => Some(Instruction::SBC(ArithmeticTarget::L)),
            0x9E => Some(Instruction::SBC(ArithmeticTarget::HL)),
            0x9F => Some(Instruction::SBC(ArithmeticTarget::A)),
            0xA0 => Some(Instruction::AND(ArithmeticTarget::B)),
            0xA1 => Some(Instruction::AND(ArithmeticTarget::C)),
            0xA2 => Some(Instruction::AND(ArithmeticTarget::D)),
            0xA3 => Some(Instruction::AND(ArithmeticTarget::E)),
            0xA4 => Some(Instruction::AND(ArithmeticTarget::H)),
            0xA5 => Some(Instruction::AND(ArithmeticTarget::L)),
            0xA6 => Some(Instruction::AND(ArithmeticTarget::HL)),
            0xA7 => Some(Instruction::AND(ArithmeticTarget::A)),
            0xA8 => Some(Instruction::XOR(ArithmeticTarget::B)),
            0xA9 => Some(Instruction::XOR(ArithmeticTarget::C)),
            0xAA => Some(Instruction::XOR(ArithmeticTarget::D)),
            0xAB => Some(Instruction::XOR(ArithmeticTarget::E)),
            0xAC => Some(Instruction::XOR(ArithmeticTarget::H)),
            0xAD => Some(Instruction::XOR(ArithmeticTarget::L)),
            0xAE => Some(Instruction::XOR(ArithmeticTarget::HL)),
            0xAF => Some(Instruction::XOR(ArithmeticTarget::A)),
            0xB0 => Some(Instruction::OR(ArithmeticTarget::B)),
            0xB1 => Some(Instruction::OR(ArithmeticTarget::C)),
            0xB2 => Some(Instruction::OR(ArithmeticTarget::D)),
            0xB3 => Some(Instruction::OR(ArithmeticTarget::E)),
            0xB4 => Some(Instruction::OR(ArithmeticTarget::H)),
            0xB5 => Some(Instruction::OR(ArithmeticTarget::L)),
            0xB6 => Some(Instruction::OR(ArithmeticTarget::HL)),
            0xB7 => Some(Instruction::OR(ArithmeticTarget::A)),
            0xB8 => Some(Instruction::CP(ArithmeticTarget::B)),
            0xB9 => Some(Instruction::CP(ArithmeticTarget::C)),
            0xBA => Some(Instruction::CP(ArithmeticTarget::D)),
            0xBB => Some(Instruction::CP(ArithmeticTarget::E)),
            0xBC => Some(Instruction::CP(ArithmeticTarget::H)),
            0xBD => Some(Instruction::CP(ArithmeticTarget::L)),
            0xBE => Some(Instruction::CP(ArithmeticTarget::HL)),
            0xBF => Some(Instruction::CP(ArithmeticTarget::A)),
            0xC0 => Some(Instruction::RETURN(JumpTarget::NZ)),
            0xC1 => Some(Instruction::POP(PopPushTarget::BC)),
            0xC2 => Some(Instruction::JUMP_IMMEDIATE(JumpTarget::NZ)),
            0xC3 => Some(Instruction::JUMP_IMMEDIATE(JumpTarget::IMMEDIATE)),
            0xC4 => Some(Instruction::CALL(JumpTarget::NZ)),
            0xC5 => Some(Instruction::PUSH(PopPushTarget::BC)),
            0xC6 => Some(Instruction::ADD(ArithmeticTarget::D8)),
            0xC7 => Some(Instruction::RESET(ResetTarget::FLASH_0)),
            0xC8 => Some(Instruction::RETURN(JumpTarget::Z)),
            0xC9 => Some(Instruction::RETURN(JumpTarget::IMMEDIATE)),
            0xCA => Some(Instruction::JUMP_IMMEDIATE(JumpTarget::Z)),
            0xCC => Some(Instruction::CALL(JumpTarget::Z)),
            0xCD => Some(Instruction::CALL(JumpTarget::IMMEDIATE)),
            0xCE => Some(Instruction::ADDC(ArithmeticTarget::D8)),
            0xCF => Some(Instruction::RESET(ResetTarget::FLASH_1)),
            0xD0 => Some(Instruction::RETURN(JumpTarget::NC)),
            0xD1 => Some(Instruction::POP(PopPushTarget::DE)),
            0xD2 => Some(Instruction::JUMP_IMMEDIATE(JumpTarget::NC)),
            0xD4 => Some(Instruction::CALL(JumpTarget::NC)),
            0xD5 => Some(Instruction::PUSH(PopPushTarget::DE)),
            0xD6 => Some(Instruction::SUB(ArithmeticTarget::D8)),
            0xD7 => Some(Instruction::RESET(ResetTarget::FLASH_2)),
            0xD8 => Some(Instruction::RETURN(JumpTarget::C)),
            0xD9 => Some(Instruction::RETI),
            0xDA => Some(Instruction::JUMP_IMMEDIATE(JumpTarget::C)),
            0xDC => Some(Instruction::CALL(JumpTarget::C)),
            0xDE => Some(Instruction::SBC(ArithmeticTarget::D8)),
            0xDF => Some(Instruction::RESET(ResetTarget::FLASH_3)),
            0xE0 => Some(Instruction::STORE_RAM(RamTarget::OneByteAddress)),
            0xE1 => Some(Instruction::POP(PopPushTarget::HL)),
            0xE2 => Some(Instruction::STORE_RAM(RamTarget::AddressFromRegister)),
            0xE5 => Some(Instruction::PUSH(PopPushTarget::HL)),
            0xE6 => Some(Instruction::AND(ArithmeticTarget::D8)),
            0xE7 => Some(Instruction::RESET(ResetTarget::FLASH_4)),
            0xE8 => Some(Instruction::AddSp),
            0xE9 => Some(Instruction::JUMP_INDIRECT),
            0xEA => Some(Instruction::STORE_RAM(RamTarget::TwoBytesAddress)),
            0xEE => Some(Instruction::XOR(ArithmeticTarget::D8)),
            0xEF => Some(Instruction::RESET(ResetTarget::FLASH_5)),
            0xF0 => Some(Instruction::LOAD_RAM(RamTarget::OneByteAddress)),
            0xF1 => Some(Instruction::POP(PopPushTarget::AF)),
            0xF2 => Some(Instruction::LOAD_RAM(RamTarget::AddressFromRegister)),
            0xF3 => Some(Instruction::DI),
            0xF5 => Some(Instruction::PUSH(PopPushTarget::AF)),
            0xF6 => Some(Instruction::OR(ArithmeticTarget::D8)),
            0xF7 => Some(Instruction::RESET(ResetTarget::FLASH_6)),
            0xF8 => Some(Instruction::LOAD_SP(SPTarget::TO_HL)),
            0xF9 => Some(Instruction::LOAD_SP(SPTarget::TO_SP)),
            0xFA => Some(Instruction::LOAD_RAM(RamTarget::TwoBytesAddress)),
            0xFB => Some(Instruction::EI),
            0xFE => Some(Instruction::CP(ArithmeticTarget::D8)),
            0xFF => Some(Instruction::RESET(ResetTarget::FLASH_7)),
            _ => None,
        }
    }
}

} // verus!
