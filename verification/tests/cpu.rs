use qoboy::soc::cpu::instruction::ArithmeticTarget::{B, C, D, D8, E, H, HL};
use qoboy::soc::cpu::instruction::Instruction::{
    ADD, ADD16, ADDC, AND, CP, DEC, DEC16, DI, EI, INC, INC16, LOAD, LOAD_IMMEDIATE,
    LOAD_INDIRECT, LOAD_SP, OR, POP, PUSH, RESET, RETI, RETURN, SBC, STORE_INDIRECT, SUB, XOR,
};
use qoboy::soc::cpu::instruction::{
    BitTarget, Direction, IncDecTarget, Instruction, JumpTarget, Load16Target, PopPushTarget,
    ResetTarget, SPTarget, U16Target,
};
use qoboy::soc::cpu::{Cpu, CpuMode};
use qoboy::soc::peripheral::nvic::InterruptSources;
use qoboy::soc::peripheral::{Peripheral, LCDSTAT_VECTOR};

#[test]
fn mod_test_add_registers() {
    let mut cpu = Cpu::new();
    let mut peripheral = Peripheral::new();
    cpu.registers.write_bc(0xAABB);
    cpu.execute(ADD(B), &mut peripheral);
    assert_eq!(cpu.registers.read_af(), 0xAA00);
}

#[test]
fn mod_test_add_memory() {
    let mut cpu = Cpu::new();
    let mut peripheral = Peripheral::new();
    let address = 0x1234;
    let data = 0xAA;

    peripheral.write(address, data);
    cpu.registers.write_hl(address);
    cpu.execute(ADD(HL), &mut peripheral);
    assert_eq!(cpu.registers.read_af(), 0xAA00);
}

#[test]
fn mod_test_add_immediate() {
    let mut cpu = Cpu::new();
    let mut peripheral = Peripheral::new();
    let address = 0x0001;
    let data = 0x23;

    peripheral.write(address, data);
    cpu.execute(ADD(D8), &mut peripheral);
    assert_eq!(cpu.registers.read_af(), 0x2300);
}

#[test]
fn mod_test_add16_registers() {
    let mut cpu = Cpu::new();
    let mut peripheral = Peripheral::new();
    cpu.registers.write_bc(0x2200);
    cpu.registers.write_hl(0x0125);
    cpu.execute(ADD16(U16Target::BC), &mut peripheral);
    assert_eq!(cpu.registers.read_hl(), 0x2325);

    cpu.registers.write_de(0x00FF);
    cpu.registers.write_hl(0xFF01);
    cpu.execute(ADD16(U16Target::DE), &mut peripheral);
    assert_eq!(cpu.registers.read_hl(), 0x0000);

    cpu.registers.write_hl(0xF025);
    cpu.execute(ADD16(U16Target::HL), &mut peripheral);
    assert_eq!(cpu.registers.read_hl(), 0xE04A);

    cpu.sp = 0x0001;
    cpu.registers.write_hl(0xF025);
    cpu.execute(ADD16(U16Target::SP), &mut peripheral);
    assert_eq!(cpu.registers.read_hl(), 0xF026);
}

#[test]
fn mod_test_addc_registers() {
    let mut cpu = Cpu::new();
    let mut peripheral = Peripheral::new();

    cpu.registers.write_af(0x0110);
    cpu.registers.write_bc(0xAABB);
    cpu.execute(ADDC(B), &mut peripheral);
    assert_eq!(cpu.registers.read_af(), 0xAC00);

    cpu.registers.write_af(0x0110);
    cpu.registers.write_bc(0xFF00);
    cpu.execute(ADDC(B), &mut peripheral);
    assert_eq!(cpu.registers.read_af(), 0x0130);
}

#[test]
fn mod_test_addc_memory() {
    let mut cpu = Cpu::new();
    let mut peripheral = Peripheral::new();
    let address = 0x1234;
    let data = 0xAA;

    peripheral.write(address, data);
    cpu.registers.write_hl(address);
    cpu.execute(ADDC(HL), &mut peripheral);
    assert_eq!(cpu.registers.read_af(), 0xAA00);
}

#[test]
fn mod_test_addc_immediate() {
    let mut cpu = Cpu::new();
    let mut peripheral = Peripheral::new();
    let address = 0x0001;
    let data = 0x23;

    peripheral.write(address, data);
    cpu.registers.write_af(0x0110);
    cpu.execute(ADDC(D8), &mut peripheral);
    assert_eq!(cpu.registers.read_af(), 0x2500);
}

#[test]
fn mod_test_sub_registers() {
    let mut cpu = Cpu::new();
    let mut peripheral = Peripheral::new();
    cpu.registers.write_bc(0xAABB);
    cpu.registers.write_af(0xFF00);
    cpu.execute(SUB(C), &mut peripheral);
    assert_eq!(cpu.registers.read_af(), 0x4440);
}

#[test]
fn mod_test_subc_registers() {
    let mut cpu = Cpu::new();
    let mut peripheral = Peripheral::new();
    cpu.registers.write_bc(0xAABB);
    cpu.registers.write_af(0xFF10);
    cpu.execute(SBC(C), &mut peripheral);
    assert_eq!(cpu.registers.read_af(), 0x4540);
}

#[test]
fn mod_test_and_registers() {
    let mut cpu = Cpu::new();
    let mut peripheral = Peripheral::new();
    cpu.registers.write_bc(0xAABB);
    cpu.registers.write_af(0xAA00);
    cpu.execute(AND(B), &mut peripheral);
    assert_eq!(cpu.registers.read_af(), 0xAA20);
}

#[test]
fn mod_test_xor_registers() {
    let mut cpu = Cpu::new();
    let mut peripheral = Peripheral::new();
    cpu.registers.write_bc(0x0022);
    cpu.registers.write_af(0x2100);
    cpu.execute(XOR(C), &mut peripheral);
    assert_eq!(cpu.registers.read_af(), 0x0300);
}

#[test]
fn mod_test_or_registers() {
    let mut cpu = Cpu::new();
    let mut peripheral = Peripheral::new();
    cpu.registers.write_bc(0x0022);
    cpu.registers.write_af(0x2100);
    cpu.execute(OR(C), &mut peripheral);
    assert_eq!(cpu.registers.read_af(), 0x2300);
}

#[test]
fn mod_test_cp_registers() {
    let mut cpu = Cpu::new();
    let mut peripheral = Peripheral::new();

    cpu.registers.write_bc(0x0022);
    cpu.registers.write_af(0x2200);
    cpu.execute(CP(C), &mut peripheral);
    assert_eq!(cpu.registers.read_af(), 0x22C0);

    cpu.registers.write_bc(0x0033);
    cpu.registers.write_af(0x2200);
    cpu.execute(CP(C), &mut peripheral);
    assert_eq!(cpu.registers.read_af(), 0x2270);
}

#[test]
fn mod_test_inc_registers() {
    let mut cpu = Cpu::new();
    let mut peripheral = Peripheral::new();

    cpu.registers.write_bc(0x2200);
    cpu.execute(INC(IncDecTarget::B), &mut peripheral);
    assert_eq!(cpu.registers.read_bc(), 0x2300);

    cpu.registers.write_bc(0x22FF);
    cpu.execute(INC(IncDecTarget::C), &mut peripheral);
    assert_eq!(cpu.registers.read_bc(), 0x2200);

    let address = 0x1234;
    let data = 0xAA;
    peripheral.write(address, data);
    cpu.registers.write_hl(address);
    cpu.execute(INC(IncDecTarget::HL), &mut peripheral);
    assert_eq!(peripheral.read(address), 0xAB);
}

#[test]
fn mod_test_inc16_registers() {
    let mut cpu = Cpu::new();
    let mut peripheral = Peripheral::new();

    cpu.registers.write_bc(0x2200);
    cpu.execute(INC16(U16Target::BC), &mut peripheral);
    assert_eq!(cpu.registers.read_bc(), 0x2201);

    cpu.registers.write_de(0x22FF);
    cpu.execute(INC16(U16Target::DE), &mut peripheral);
    assert_eq!(cpu.registers.read_de(), 0x2300);

    cpu.registers.write_hl(0xFFFF);
    cpu.execute(INC16(U16Target::HL), &mut peripheral);
    assert_eq!(cpu.registers.read_hl(), 0x0000);

    cpu.sp = 0x3578;
    cpu.execute(INC16(U16Target::SP), &mut peripheral);
    assert_eq!(cpu.sp, 0x3579);
}

#[test]
fn mod_test_dec_registers() {
    let mut cpu = Cpu::new();
    let mut peripheral = Peripheral::new();

    cpu.registers.write_bc(0x2200);
    cpu.execute(DEC(IncDecTarget::B), &mut peripheral);
    assert_eq!(cpu.registers.read_bc(), 0x2100);

    cpu.registers.write_bc(0x2200);
    cpu.execute(DEC(IncDecTarget::C), &mut peripheral);
    assert_eq!(cpu.registers.read_bc(), 0x22FF);

    let address = 0x1234;
    let data = 0xAA;
    peripheral.write(address, data);
    cpu.registers.write_hl(address);
    cpu.execute(DEC(IncDecTarget::HL), &mut peripheral);
    assert_eq!(peripheral.read(address), 0xA9);
}

#[test]
fn mod_test_dec16_registers() {
    let mut cpu = Cpu::new();
    let mut peripheral = Peripheral::new();

    cpu.registers.write_bc(0x2200);
    cpu.execute(DEC16(U16Target::BC), &mut peripheral);
    assert_eq!(cpu.registers.read_bc(), 0x21FF);

    cpu.registers.write_de(0x0000);
    cpu.execute(DEC16(U16Target::DE), &mut peripheral);
    assert_eq!(cpu.registers.read_de(), 0xFFFF);

    cpu.registers.write_hl(0x1279);
    cpu.execute(DEC16(U16Target::HL), &mut peripheral);
    assert_eq!(cpu.registers.read_hl(), 0x1278);

    cpu.sp = 0x0001;
    cpu.execute(DEC16(U16Target::SP), &mut peripheral);
    assert_eq!(cpu.sp, 0x0000);
}

#[test]
fn mod_test_load_registers() {
    let mut cpu = Cpu::new();
    let mut peripheral = Peripheral::new();

    cpu.registers.write_de(0x0057);
    cpu.execute(LOAD(IncDecTarget::B, E), &mut peripheral);
    assert_eq!(cpu.registers.read_bc(), 0x5700);

    cpu.registers.write_hl(0x6400);
    cpu.execute(LOAD(IncDecTarget::C, H), &mut peripheral);
    assert_eq!(cpu.registers.read_bc(), 0x5764);

    let mut mem_address = 0x0001;
    let mut data = 0x23;
    peripheral.write(mem_address, data);
    cpu.execute(LOAD(IncDecTarget::A, D8), &mut peripheral);
    assert_eq!(cpu.registers.read_af(), 0x2300);

    mem_address = 0x0010;
    cpu.registers.write_hl(mem_address);
    cpu.execute(LOAD(IncDecTarget::HL, D8), &mut peripheral);
    assert_eq!(peripheral.read(mem_address), 0x23);

    mem_address = 0x002A;
    cpu.registers.write_hl(mem_address);
    cpu.registers.write_de(0xD500);
    cpu.execute(LOAD(IncDecTarget::HL, D), &mut peripheral);
    assert_eq!(peripheral.read(mem_address), 0xD5);

    mem_address = 0x00C8;
    data = 0x5F;
    peripheral.write(mem_address, data);
    cpu.registers.write_hl(mem_address);
    cpu.execute(LOAD(IncDecTarget::A, HL), &mut peripheral);
    assert_eq!(cpu.registers.read_af(), 0x5F00);

    cpu.registers.write_de(0x0000);
    cpu.execute(LOAD(IncDecTarget::E, HL), &mut peripheral);
    assert_eq!(cpu.registers.read_de(), 0x005F);
}

#[test]
fn mod_test_load_indirect() {
    let mut cpu = Cpu::new();
    let mut peripheral = Peripheral::new();

    let mem_address = 0x00D8;
    let mut data = 0x56;
    peripheral.write(mem_address, data);
    cpu.registers.write_bc(mem_address);
    cpu.execute(LOAD_INDIRECT(Load16Target::BC), &mut peripheral);
    assert_eq!(cpu.registers.read_af(), 0x5600);

    data = 0xC6;
    peripheral.write(mem_address, data);
    cpu.registers.write_hl(mem_address);
    cpu.execute(LOAD_INDIRECT(Load16Target::HL_plus), &mut peripheral);
    assert_eq!(cpu.registers.read_af(), 0xC600);
    assert_eq!(cpu.registers.read_hl(), 0x00D9);
}

#[test]
fn mod_test_load_immediate() {
    let mut cpu = Cpu::new();
    let mut peripheral = Peripheral::new();

    let low_data = 0x4C;
    let high_data = 0xB7;
    let value = ((high_data as u16) << 8) + low_data as u16;
    peripheral.write(0x0001, low_data);
    peripheral.write(0x0002, high_data);
    cpu.execute(LOAD_IMMEDIATE(U16Target::DE), &mut peripheral);
    assert_eq!(cpu.registers.read_de(), value);

    cpu.execute(LOAD_IMMEDIATE(U16Target::SP), &mut peripheral);
    assert_eq!(cpu.sp, value);
}

#[test]
fn mod_test_store_indirect() {
    let mut cpu = Cpu::new();
    let mut peripheral = Peripheral::new();

    let mem_address = 0x00D8;
    let mut data = 0x5600;
    cpu.registers.write_af(data);
    cpu.registers.write_de(mem_address);
    cpu.execute(STORE_INDIRECT(Load16Target::DE), &mut peripheral);
    assert_eq!(peripheral.read(mem_address), 0x56);

    data = 0xC600;
    cpu.registers.write_af(data);
    cpu.registers.write_hl(mem_address);
    cpu.execute(STORE_INDIRECT(Load16Target::HL_minus), &mut peripheral);
    assert_eq!(peripheral.read(mem_address), 0xC6);
    assert_eq!(cpu.registers.read_hl(), 0x00D7);
}

#[test]
fn mod_test_jump_relative_nzero() {
    let mut cpu = Cpu::new();
    let mut peripheral = Peripheral::new();

    // first, fill memory with program
    let base_address: u16 = 0x0000;
    let jump: u8 = 0x05;
    let jump_nz: u8 = 0x20;
    let program: [u8; 10] = [
        jump_nz, jump, 0x11, 0x22, 0x33, 0x44, 0x55, 0x66, 0x77, 0x88,
    ];
    let mut index = 0;
    for data in program {
        peripheral.write(base_address + index, data);
        index += 1;
    }

    // run CPU to do the jump
    cpu.run(&mut peripheral);
    assert_eq!(
        peripheral.read(cpu.pc),
        peripheral.read(base_address + (jump as u16) + 2)
    );

    // reset CPU and run it with the flag, we don't do the jump
    cpu.registers.f.zero = true;
    cpu.pc = base_address;
    cpu.run(&mut peripheral);
    assert_eq!(peripheral.read(cpu.pc), peripheral.read(base_address + 2));
}

#[test]
fn mod_test_jump_relative_carry() {
    let mut cpu = Cpu::new();
    let mut peripheral = Peripheral::new();

    // first, fill memory with program
    let base_address: u16 = 0x0000;
    let jump: u8 = 0x05;
    let jump_carry: u8 = 0x38;
    let program: [u8; 10] = [
        jump_carry, jump, 0x11, 0x22, 0x33, 0x44, 0x55, 0x66, 0x77, 0x88,
    ];
    let mut index = 0;
    for data in program {
        peripheral.write(base_address + index, data);
        index += 1;
    }

    // run CPU to do the jump
    cpu.registers.f.carry = true;
    cpu.run(&mut peripheral);
    assert_eq!(
        peripheral.read(cpu.pc),
        peripheral.read(base_address + (jump as u16) + 2)
    );

    // reset CPU and run it with the flag, we don't do the jump
    cpu.registers.f.carry = false;
    cpu.pc = base_address;
    cpu.run(&mut peripheral);
    assert_eq!(peripheral.read(cpu.pc), peripheral.read(base_address + 2));
}

#[test]
fn mod_test_jump_relative_immediate() {
    let mut cpu = Cpu::new();
    let mut peripheral = Peripheral::new();

    // first, fill memory with program
    let base_address: u16 = 0x0000;
    let jump: u8 = 0x06;
    let jump_inst: u8 = 0x18;
    let program: [u8; 10] = [
        jump_inst, jump, 0x11, 0x22, 0x33, 0x44, 0x55, 0x66, 0x77, 0x88,
    ];
    let mut index = 0;
    for data in program {
        peripheral.write(base_address + index, data);
        index += 1;
    }

    // run CPU to do the jump
    cpu.run(&mut peripheral);
    assert_eq!(
        peripheral.read(cpu.pc),
        peripheral.read(base_address + (jump as u16) + 2)
    );
}

#[test]
fn mod_test_jump_immediate_zero() {
    let mut cpu = Cpu::new();
    let mut peripheral = Peripheral::new();

    // first, fill memory with program
    let base_address: u16 = 0x0000;
    let jump: u8 = 0x05;
    let jump_carry: u8 = 0xCA;
    let program: [u8; 10] = [
        jump_carry, jump, 0x00, 0x22, 0x33, 0x44, 0x55, 0x66, 0x77, 0x88,
    ];
    let mut index = 0;
    for data in program {
        peripheral.write(base_address + index, data);
        index += 1;
    }

    // run CPU to do the jump
    cpu.registers.f.zero = true;
    cpu.run(&mut peripheral);
    assert_eq!(
        peripheral.read(cpu.pc),
        peripheral.read(base_address + (jump as u16))
    );

    // reset CPU and run it with the flag, we don't do the jump
    cpu.registers.f.zero = false;
    cpu.pc = base_address;
    cpu.run(&mut peripheral);
    assert_eq!(peripheral.read(cpu.pc), peripheral.read(base_address + 3));
}

#[test]
fn mod_test_jump_indirect() {
    let mut cpu = Cpu::new();
    let mut peripheral = Peripheral::new();

    // first, fill memory with program
    let jump_inst: u8 = 0xE9;
    let program: [u8; 8] = [jump_inst, 0x22, 0x33, 0x44, 0x55, 0x66, 0x77, 0x88];
    let mut index = 0;
    for data in program {
        peripheral.write(index, data);
        index += 1;
    }

    let jump: u16 = 0x05;
    cpu.registers.write_hl(jump);
    // run CPU to do the jump
    cpu.run(&mut peripheral);
    assert_eq!(peripheral.read(cpu.pc), peripheral.read(jump));
}

#[test]
fn mod_test_load_from_hl_to_sp() {
    let mut cpu = Cpu::new();
    let mut peripheral = Peripheral::new();

    let data: u16 = 0xA7D8;
    cpu.registers.write_hl(data);
    cpu.execute(LOAD_SP(SPTarget::TO_SP), &mut peripheral);
    assert_eq!(cpu.pc, data);
}

#[test]
fn mod_test_load_from_sp_to_hl() {
    let mut cpu = Cpu::new();
    let mut peripheral = Peripheral::new();

    cpu.sp = 0x0010;
    let offset: u8 = 0x02;

    // first, fill memory with program
    let jump_inst: u8 = 0xF8;
    let program: [u8; 2] = [jump_inst, offset];
    let mut index = 0;
    for data in program {
        peripheral.write(index, data);
        index += 1;
    }

    cpu.run(&mut peripheral);
    assert_eq!(cpu.registers.read_hl(), cpu.sp + offset as u16);
}

#[test]
fn mod_test_load_from_sp_to_mem() {
    let mut cpu = Cpu::new();
    let mut peripheral = Peripheral::new();

    // first, fill memory with program
    let base_address = 0x24C8;
    let jump_inst: u8 = 0x08;
    let low_address = 0x05;
    let high_address = 0xA1;
    let address = (low_address as u16) + ((high_address as u16) << 8);
    let program: [u8; 3] = [jump_inst, low_address, high_address];
    let mut index = 0;
    for data in program {
        peripheral.write(index + base_address, data);
        index += 1;
    }

    // set cpu and run it
    cpu.pc = base_address;
    cpu.sp = 0x57A8;
    cpu.run(&mut peripheral);
    assert_eq!((cpu.sp & 0x00FF) as u8, peripheral.read(address));
    assert_eq!(
        ((cpu.sp & 0xFF00) >> 8) as u8,
        peripheral.read(address + 1)
    );
}

#[test]
fn mod_test_load_ram_from_one_byte() {
    let mut cpu = Cpu::new();
    let mut peripheral = Peripheral::new();

    // initialize RAM memory
    let ram_data_address = 0xFFA5;
    let data = 0xF8;
    peripheral.write(ram_data_address, data);

    // initialize ROM memory
    let base_program_address = 0x0000;
    let jump_inst: u8 = 0xF0;
    let program: [u8; 2] = [jump_inst, (ram_data_address & 0x00FF) as u8];
    let mut index = 0;
    for data in program {
        peripheral.write(index + base_program_address, data);
        index += 1;
    }

    // set cpu and run it
    cpu.pc = base_program_address;
    cpu.run(&mut peripheral);
    assert_eq!(cpu.registers.a, peripheral.read(ram_data_address));
}

#[test]
fn mod_test_load_ram_from_two_bytes() {
    let mut cpu = Cpu::new();
    let mut peripheral = Peripheral::new();

    // initialize RAM memory
    let ram_data_address = 0xFFA5;
    let data = 0xF8;
    peripheral.write(ram_data_address, data);

    // initialize ROM memory
    let base_program_address = 0x0000;
    let jump_inst: u8 = 0xFA;
    let program: [u8; 3] = [
        jump_inst,
        (ram_data_address & 0x00FF) as u8,
        ((ram_data_address & 0xFF00) >> 8) as u8,
    ];
    let mut index = 0;
    for data in program {
        peripheral.write(index + base_program_address, data);
        index += 1;
    }

    // set cpu and run it
    cpu.pc = base_program_address;
    cpu.run(&mut peripheral);
    assert_eq!(cpu.registers.a, peripheral.read(ram_data_address));
}

#[test]
fn mod_test_load_ram_from_register() {
    let mut cpu = Cpu::new();
    let mut peripheral = Peripheral::new();

    // initialize RAM memory
    let ram_data_address = 0xFFA5;
    let data = 0xF8;
    peripheral.write(ram_data_address, data);

    // initialize ROM memory
    let base_program_address = 0x0000;
    let jump_inst: u8 = 0xF2;
    let program: [u8; 1] = [jump_inst];
    let mut index = 0;
    for data in program {
        peripheral.write(index + base_program_address, data);
        index += 1;
    }

    // set cpu and run it
    cpu.pc = base_program_address;
    cpu.registers.c = (ram_data_address & 0x00FF) as u8;
    cpu.run(&mut peripheral);
    assert_eq!(cpu.registers.a, peripheral.read(ram_data_address));
}

#[test]
fn mod_test_store_ram_from_one_byte() {
    let mut cpu = Cpu::new();
    let mut peripheral = Peripheral::new();

    // initialize RAM memory
    let ram_data_address = 0xFFA5;
    let data = 0xF8;

    // initialize ROM memory
    let base_program_address = 0x0000;
    let jump_inst: u8 = 0xE0;
    let program: [u8; 2] = [jump_inst, (ram_data_address & 0x00FF) as u8];
    let mut index = 0;
    for data in program {
        peripheral.write(index + base_program_address, data);
        index += 1;
    }

    // set cpu and run it
    cpu.pc = base_program_address;
    cpu.registers.a = data;
    cpu.run(&mut peripheral);
    assert_eq!(cpu.registers.a, peripheral.read(ram_data_address));
}

#[test]
fn mod_test_push_and_pop() {
    let mut cpu = Cpu::new();
    let mut peripheral = Peripheral::new();

    // initialize RAM memory parameters
    let ram_address = 0xFFA5;
    let push_data = 0xD7F8;

    // test push instruction
    cpu.sp = ram_address;
    cpu.registers.write_de(push_data);
    cpu.execute(PUSH(PopPushTarget::DE), &mut peripheral);
    assert_eq!(
        peripheral.read(ram_address.wrapping_sub(1)),
        ((push_data & 0xFF00) >> 8) as u8
    );
    assert_eq!(
        peripheral.read(ram_address.wrapping_sub(2)),
        (push_data & 0x00FF) as u8
    );

    // test pop instruction
    cpu.execute(POP(PopPushTarget::HL), &mut peripheral);
    assert_eq!(cpu.registers.read_hl(), push_data);
}

#[test]
fn test_add_sp() {
    let mut cpu = Cpu::new();
    let mut peripheral = Peripheral::new();

    // init parameters
    let data_to_add = 0x88;
    let sp_init = 0xF147;

    // initialize ROM memory
    let base_program_address = 0x0000;
    let inst: u8 = 0xE8;
    let program: [u8; 2] = [inst, data_to_add as u8];
    let mut index = 0;
    for data in program {
        peripheral.write(index + base_program_address, data);
        index += 1;
    }

    // set cpu and run it
    cpu.pc = base_program_address;
    cpu.sp = sp_init;
    cpu.run(&mut peripheral);
    assert_eq!(
        sp_init.wrapping_add(data_to_add as i8 as i16 as u16),
        cpu.sp
    );
}

#[test]
fn test_return() {
    let mut cpu = Cpu::new();
    let mut peripheral = Peripheral::new();

    // initialize RAM memory parameters
    let ram_address = 0xFFA5;
    let push_data = 0xD7F8;

    // test push instruction
    cpu.sp = ram_address;
    cpu.registers.write_de(push_data);
    cpu.execute(PUSH(PopPushTarget::DE), &mut peripheral);
    let (next_pc, cycles) = cpu.execute(RETURN(JumpTarget::IMMEDIATE), &mut peripheral);
    assert_eq!(next_pc, push_data);
}

#[test]
fn test_reset() {
    let mut cpu = Cpu::new();
    let mut peripheral = Peripheral::new();

    // test push instruction
    cpu.sp = 0xFFAF;
    let (next_pc, cycles) = cpu.execute(RESET(ResetTarget::FLASH_1), &mut peripheral);
    assert_eq!(next_pc, 0x08);
}

#[test]
fn test_interrupt() {
    let mut cpu = Cpu::new();
    let mut peripheral = Peripheral::new();

    cpu.execute(EI, &mut peripheral);
    assert_eq!(peripheral.nvic.interrupt_master_enable, true);

    cpu.execute(DI, &mut peripheral);
    assert_eq!(peripheral.nvic.interrupt_master_enable, false);

    // initialize RAM memory parameters
    let ram_address = 0xFFA5;
    let push_data = 0xD7F8;

    // test push instruction
    cpu.sp = ram_address;
    cpu.registers.write_de(push_data);
    cpu.execute(PUSH(PopPushTarget::DE), &mut peripheral);
    let (next_pc, cycles) = cpu.execute(RETI, &mut peripheral);
    assert_eq!(next_pc, push_data);
    assert_eq!(peripheral.nvic.interrupt_master_enable, true);
}

#[test]
fn test_call() {
    let mut cpu = Cpu::new();
    let mut peripheral = Peripheral::new();

    // first, fill memory with program
    let inst: u8 = 0xC4;
    let program: [u8; 8] = [inst, 0x00, 0x05, 0x44, 0x55, 0x66, 0x77, 0x88];
    let mut index = 0;
    for data in program {
        peripheral.write(index, data);
        index += 1;
    }

    // run CPU to do the jump
    let ram_address = 0xFFA5;
    cpu.sp = ram_address;
    cpu.run(&mut peripheral);
    assert_eq!(cpu.pc, 0x0500);
}

#[test]
fn test_nop_stop_halt() {
    let mut cpu = Cpu::new();
    let mut peripheral = Peripheral::new();

    // first, fill memory with program
    let nop_inst: u8 = 0x00;
    let stop_inst: u8 = 0x10;
    let halt_inst: u8 = 0x76;
    let program: [u8; 8] = [
        nop_inst, stop_inst, nop_inst, halt_inst, nop_inst, nop_inst, nop_inst, nop_inst,
    ];
    let mut index = 0;
    for data in program {
        peripheral.write(index, data);
        index += 1;
    }

    // run CPU to do the NOP
    cpu.run(&mut peripheral);
    assert_eq!(cpu.pc, 0x0001);
    // run CPU to do the STOP
    cpu.run(&mut peripheral);
    assert_eq!(cpu.pc, 0x0002);
    // then CPU is blocked
    cpu.run(&mut peripheral);
    assert_eq!(cpu.pc, 0x0002);

    // Unlock CPU and run NOP inst
    cpu.mode = CpuMode::RUN;
    cpu.run(&mut peripheral);
    assert_eq!(cpu.pc, 0x0003);
    // run HALT inst
    cpu.run(&mut peripheral);
    assert_eq!(cpu.pc, 0x0004);
    // cpu is blocked
    cpu.run(&mut peripheral);
    assert_eq!(cpu.pc, 0x0004);
}

#[test]
fn test_jump_to_interrupt() {
    let mut cpu = Cpu::new();
    let mut peripheral = Peripheral::new();

    // init stack pointer
    cpu.sp = 0xFFA5;

    // first, fill memory with program
    let nop_inst: u8 = 0x00;
    let stop_inst: u8 = 0x10;
    let halt_inst: u8 = 0x76;
    let program: [u8; 8] = [
        nop_inst, stop_inst, nop_inst, halt_inst, nop_inst, nop_inst, nop_inst, nop_inst,
    ];
    let mut index = 0;
    for data in program {
        peripheral.write(index, data);
        index += 1;
    }

    // run CPU to do the NOP
    cpu.run(&mut peripheral);
    assert_eq!(cpu.pc, 0x0001);
    // run CPU to do the STOP
    cpu.run(&mut peripheral);
    assert_eq!(cpu.pc, 0x0002);
    // then CPU is blocked
    cpu.run(&mut peripheral);
    assert_eq!(cpu.pc, 0x0002);

    // Unlock CPU and run NOP inst
    cpu.mode = CpuMode::RUN;
    cpu.run(&mut peripheral);
    assert_eq!(cpu.pc, 0x0003);
    // run HALT inst
    cpu.run(&mut peripheral);
    assert_eq!(cpu.pc, 0x0004);
    // cpu is blocked
    cpu.run(&mut peripheral);
    assert_eq!(cpu.pc, 0x0004);

    peripheral.nvic.master_enable(true);
    peripheral.nvic.enable_interrupt(InterruptSources::STAT, true);
    peripheral.nvic.set_interrupt(InterruptSources::STAT);
    cpu.run(&mut peripheral);
    assert_eq!(cpu.pc, LCDSTAT_VECTOR);
}

#[test]
fn test_complement() {
    let mut cpu = Cpu::new();
    let mut peripheral = Peripheral::new();

    cpu.registers.a = 0x55;
    cpu.execute(Instruction::CPL, &mut peripheral);
    assert_eq!(cpu.registers.a, 0xAA);
}

#[test]
fn test_set_carry() {
    let mut cpu = Cpu::new();
    let mut peripheral = Peripheral::new();

    cpu.execute(Instruction::SCF, &mut peripheral);
    assert_eq!(cpu.registers.f.carry, true);
    cpu.execute(Instruction::CCF, &mut peripheral);
    assert_eq!(cpu.registers.f.carry, false);
    cpu.execute(Instruction::CCF, &mut peripheral);
    assert_eq!(cpu.registers.f.carry, true);
}

#[test]
fn test_decimal_adjust() {
    let mut cpu = Cpu::new();
    let mut peripheral = Peripheral::new();

    cpu.registers.a = 0x0B;
    cpu.execute(Instruction::DAA, &mut peripheral);
    assert_eq!(cpu.registers.a, 0x11);
}

#[test]
fn test_rotate_left() {
    let mut cpu = Cpu::new();
    let mut peripheral = Peripheral::new();

    cpu.registers.a = 0xB5;
    cpu.execute(Instruction::RCA(Direction::LEFT), &mut peripheral);
    assert_eq!(cpu.registers.f.carry, true);
    assert_eq!(cpu.registers.a, 0x6B);
}

#[test]
fn test_rotate_through_carry_right() {
    let mut cpu = Cpu::new();
    let mut peripheral = Peripheral::new();

    cpu.registers.a = 0xB5;
    cpu.registers.f.carry = true;
    cpu.execute(Instruction::RA(Direction::RIGHT), &mut peripheral);
    assert_eq!(cpu.registers.f.carry, true);
    assert_eq!(cpu.registers.a, 0xDA);
}

#[test]
fn test_decode_long_instruction() {
    let mut cpu = Cpu::new();
    let mut peripheral = Peripheral::new();

    let program: [u8; 2] = [0xCB, 0x19];
    let mut index = 0;
    for data in program {
        peripheral.write(index, data);
        index += 1;
    }

    if let Some(instruction) = cpu.decode(0xCB, &mut peripheral) {
        assert_eq!(
            instruction,
            Instruction::R(Direction::RIGHT, IncDecTarget::C)
        );
    } else {
        panic!("Unkown long instruction");
    }
}

#[test]
fn test_long_rotate() {
    let mut cpu = Cpu::new();
    let mut peripheral = Peripheral::new();

    cpu.registers.b = 0xB5;
    cpu.execute(Instruction::RC(Direction::LEFT, IncDecTarget::B), &mut peripheral);
    assert_eq!(cpu.registers.f.carry, true);
    assert_eq!(cpu.registers.b, 0x6B);
}

#[test]
fn test_long_rotate_hl() {
    let mut cpu = Cpu::new();
    let mut peripheral = Peripheral::new();

    let address = 0x1234;
    let data = 0xB5;
    peripheral.write(address, data);
    cpu.registers.write_hl(address);
    cpu.execute(Instruction::RC(Direction::LEFT, IncDecTarget::HL), &mut peripheral);
    assert_eq!(peripheral.read(address), 0x6B);
}

#[test]
fn test_long_rotate_through_carry_right() {
    let mut cpu = Cpu::new();
    let mut peripheral = Peripheral::new();

    cpu.registers.e = 0xB5;
    cpu.registers.f.carry = true;
    cpu.execute(Instruction::R(Direction::RIGHT, IncDecTarget::E), &mut peripheral);
    assert_eq!(cpu.registers.f.carry, true);
    assert_eq!(cpu.registers.e, 0xDA);
}

#[test]
fn test_shift_left_and_reset() {
    let mut cpu = Cpu::new();
    let mut peripheral = Peripheral::new();

    cpu.registers.d = 0xB5;
    cpu.execute(Instruction::SLA(IncDecTarget::D), &mut peripheral);
    assert_eq!(cpu.registers.f.carry, true);
    assert_eq!(cpu.registers.d, 0x6A);
}

#[test]
fn test_shift_right_and_reset() {
    let mut cpu = Cpu::new();
    let mut peripheral = Peripheral::new();

    cpu.registers.h = 0xB5;
    cpu.execute(Instruction::SRL(IncDecTarget::H), &mut peripheral);
    assert_eq!(cpu.registers.f.carry, true);
    assert_eq!(cpu.registers.h, 0x5A);
}

#[test]
fn test_shift_right_and_reset_hl() {
    let mut cpu = Cpu::new();
    let mut peripheral = Peripheral::new();

    let address = 0x1234;
    let data = 0xB5;
    peripheral.write(address, data);
    cpu.registers.write_hl(address);
    cpu.execute(Instruction::SRL(IncDecTarget::HL), &mut peripheral);
    assert_eq!(peripheral.read(address), 0x5A);
}

#[test]
fn test_shift_right() {
    let mut cpu = Cpu::new();
    let mut peripheral = Peripheral::new();

    cpu.registers.c = 0xB5;
    cpu.execute(Instruction::SRA(IncDecTarget::C), &mut peripheral);
    assert_eq!(cpu.registers.f.carry, true);
    assert_eq!(cpu.registers.c, 0xDA);
}

#[test]
fn test_swap() {
    let mut cpu = Cpu::new();
    let mut peripheral = Peripheral::new();

    cpu.registers.l = 0xB5;
    cpu.execute(Instruction::SWAP(IncDecTarget::L), &mut peripheral);
    assert_eq!(cpu.registers.l, 0x5B);
}

#[test]
fn test_complement_bit() {
    let mut cpu = Cpu::new();
    let mut peripheral = Peripheral::new();

    cpu.registers.h = 0xB5;
    cpu.execute(Instruction::BIT(BitTarget::BIT_1, IncDecTarget::H), &mut peripheral);
    assert_eq!(cpu.registers.f.zero, true);
    cpu.execute(Instruction::BIT(BitTarget::BIT_4, IncDecTarget::H), &mut peripheral);
    assert_eq!(cpu.registers.f.zero, false);
    cpu.execute(Instruction::BIT(BitTarget::BIT_6, IncDecTarget::H), &mut peripheral);
    assert_eq!(cpu.registers.f.zero, true);

    cpu.registers.d = 0x5B;
    cpu.execute(Instruction::BIT(BitTarget::BIT_1, IncDecTarget::D), &mut peripheral);
    assert_eq!(cpu.registers.f.zero, false);
    cpu.execute(Instruction::BIT(BitTarget::BIT_4, IncDecTarget::D), &mut peripheral);
    assert_eq!(cpu.registers.f.zero, false);
    cpu.execute(Instruction::BIT(BitTarget::BIT_5, IncDecTarget::D), &mut peripheral);
    assert_eq!(cpu.registers.f.zero, true);
}

#[test]
fn test_set_reset_bit() {
    let mut cpu = Cpu::new();
    let mut peripheral = Peripheral::new();

    cpu.registers.b = 0xB5;
    cpu.execute(Instruction::RESET_BIT(BitTarget::BIT_2, IncDecTarget::B), &mut peripheral);
    assert_eq!(cpu.registers.b, 0xB1);
    cpu.execute(Instruction::SET_BIT(BitTarget::BIT_3, IncDecTarget::B), &mut peripheral);
    assert_eq!(cpu.registers.b, 0xB9);
    cpu.execute(Instruction::RESET_BIT(BitTarget::BIT_5, IncDecTarget::B), &mut peripheral);
    assert_eq!(cpu.registers.b, 0x99);
}

#[test]
fn test_set_reset_bit_hl() {
    let mut cpu = Cpu::new();
    let mut peripheral = Peripheral::new();

    let address = 0x1234;
    let data = 0xB5;
    peripheral.write(address, data);
    cpu.registers.write_hl(address);

    cpu.execute(Instruction::RESET_BIT(BitTarget::BIT_2, IncDecTarget::HL), &mut peripheral);
    assert_eq!(peripheral.read(address), 0xB1);

    cpu.execute(Instruction::SET_BIT(BitTarget::BIT_3, IncDecTarget::HL), &mut peripheral);
    assert_eq!(peripheral.read(address), 0xB9);
}

