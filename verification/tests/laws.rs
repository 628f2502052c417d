use qoboy::soc::cpu::instruction::{ArithmeticTarget, BitTarget, Direction, IncDecTarget, Instruction, PopPushTarget};
use qoboy::soc::cpu::{Cpu, CpuMode};
use qoboy::soc::peripheral::gpu::PixelColor;
use qoboy::soc::peripheral::nvic::{InterruptSources, Nvic};
use qoboy::soc::peripheral::timer::Timer;
use qoboy::soc::peripheral::{readable, writable, Peripheral};

#[test]
fn push_then_pop_gives_back_the_value() {
    for sp in [0xFFFEu16, 0xC002, 0xA100, 0x8002] {
        let mut cpu = Cpu::new();
        let mut peripheral = Peripheral::new();
        cpu.sp = sp;
        cpu.registers.write_bc(0xBEEF);
        cpu.execute(Instruction::PUSH(PopPushTarget::BC), &mut peripheral);
        assert_eq!(cpu.sp, sp.wrapping_sub(2));
        cpu.execute(Instruction::POP(PopPushTarget::DE), &mut peripheral);
        assert_eq!(cpu.registers.read_de(), 0xBEEF);
        assert_eq!(cpu.sp, sp);
    }
}

#[test]
fn plain_memory_reads_back_and_echo_mirrors_working_ram() {
    let mut peripheral = Peripheral::new();
    for address in [0x8000u16, 0x9FFF, 0xA000, 0xBFFF, 0xC000, 0xDFFF, 0xFF80, 0xFFFE] {
        peripheral.write(address, 0x5A);
        assert_eq!(peripheral.read(address), 0x5A);
    }
    peripheral.write(0xC456, 0x66);
    assert_eq!(peripheral.read(0xE456), 0x66);
    peripheral.write(0xDDFF, 0x77);
    assert_eq!(peripheral.read(0xFDFF), 0x77);
}

#[test]
fn registers_read_back() {
    let mut peripheral = Peripheral::new();
    for address in [0xFF05u16, 0xFF06, 0xFF40, 0xFF42, 0xFF43, 0xFF45] {
        peripheral.write(address, 0xA5);
        assert_eq!(peripheral.read(address), 0xA5);
    }
    peripheral.write(0xFF04, 0x12);
    assert_eq!(peripheral.read(0xFF04), 0);
    peripheral.write(0xFF0F, 0x05);
    assert_eq!(peripheral.read(0xFF0F), 0xE5);
    peripheral.write(0xFFFF, 0x03);
    assert_eq!(peripheral.read(0xFFFF), 0xE3);
    // wave RAM takes a write and keeps nothing; the unused area reads 0
    peripheral.write(0xFF30, 0x12);
    assert_eq!(peripheral.read(0xFF05), 0xA5);
    assert_eq!(peripheral.read(0xFEA0), 0x00);
}

#[test]
fn inc_and_dec_undo_each_other() {
    let mut cpu = Cpu::new();
    let mut peripheral = Peripheral::new();
    for value in [0x00u8, 0x0F, 0x7F, 0xFF] {
        cpu.registers.b = value;
        cpu.execute(Instruction::INC(IncDecTarget::B), &mut peripheral);
        cpu.execute(Instruction::DEC(IncDecTarget::B), &mut peripheral);
        assert_eq!(cpu.registers.b, value);
    }
    cpu.registers.b = 0xFF;
    cpu.execute(Instruction::INC(IncDecTarget::B), &mut peripheral);
    assert_eq!(cpu.registers.b, 0x00);
    assert!(cpu.registers.f.zero && cpu.registers.f.half_carry);
}

#[test]
fn rotations_undo_each_other() {
    let mut cpu = Cpu::new();
    let mut peripheral = Peripheral::new();
    for value in [0x01u8, 0x80, 0xB5, 0x00] {
        cpu.registers.a = value;
        cpu.execute(Instruction::RCA(Direction::LEFT), &mut peripheral);
        cpu.execute(Instruction::RCA(Direction::RIGHT), &mut peripheral);
        assert_eq!(cpu.registers.a, value);
        cpu.registers.f.carry = true;
        cpu.execute(Instruction::RA(Direction::LEFT), &mut peripheral);
        cpu.execute(Instruction::RA(Direction::RIGHT), &mut peripheral);
        assert_eq!(cpu.registers.a, value);
        assert!(cpu.registers.f.carry);
    }
}

#[test]
fn compare_sets_the_flags_of_a_subtraction() {
    let mut peripheral = Peripheral::new();
    for (a, b) in [(0x22u8, 0x22u8), (0x22, 0x33), (0x10, 0x01)] {
        let mut cmp = Cpu::new();
        cmp.registers.a = a;
        cmp.registers.b = b;
        cmp.execute(Instruction::CP(ArithmeticTarget::B), &mut peripheral);
        let mut sub = Cpu::new();
        sub.registers.a = a;
        sub.registers.b = b;
        sub.execute(Instruction::SUB(ArithmeticTarget::B), &mut peripheral);
        assert_eq!(cmp.registers.f, sub.registers.f);
        assert_eq!(cmp.registers.a, a);
        assert_eq!(sub.registers.a, a.wrapping_sub(b));
    }
}

#[test]
fn unknown_opcodes_and_missing_interrupt_sources_stop_the_machine() {
    let mut cpu = Cpu::new();
    let mut peripheral = Peripheral::new();
    peripheral.write(0x0000, 0xD3);
    assert!(!cpu.can_run(&peripheral));
    peripheral.write(0x0000, 0x00);
    assert!(cpu.can_run(&peripheral));
    // an interrupt on a bit that no source uses
    peripheral.nvic.master_enable(true);
    peripheral.nvic.set_it_enable(0x20);
    peripheral.nvic.set_it_flag(0x20);
    assert!(!cpu.can_run(&peripheral));
    peripheral.nvic.enable_interrupt(InterruptSources::TIMER, true);
    peripheral.nvic.set_interrupt(InterruptSources::TIMER);
    assert!(cpu.can_run(&peripheral));
    cpu.sp = 0xFFFE;
    assert_eq!(cpu.run(&mut peripheral), 5);
    assert_eq!(cpu.pc, 0x50);
    assert!(!peripheral.nvic.interrupt_master_enable);
    assert_eq!(peripheral.read(0xFF0F), 0xE0);
    assert_eq!(peripheral.read(0xFFFD), 0x00);
    assert_eq!(peripheral.read(0xFFFC), 0x00);
    assert_eq!(cpu.mode, CpuMode::RUN);
}

#[test]
fn halt_wakes_up_on_a_pending_interrupt() {
    let mut cpu = Cpu::new();
    let mut peripheral = Peripheral::new();
    cpu.mode = CpuMode::HALT;
    assert_eq!(cpu.run(&mut peripheral), 1);
    assert_eq!(cpu.mode, CpuMode::HALT);
    peripheral.nvic.enable_interrupt(InterruptSources::VBLANK, true);
    peripheral.nvic.set_interrupt(InterruptSources::VBLANK);
    assert_eq!(cpu.run(&mut peripheral), 1);
    assert_eq!(cpu.mode, CpuMode::RUN);
}

#[test]
fn decimal_adjust_after_subtraction_and_sbc_borrow() {
    let mut cpu = Cpu::new();
    let mut peripheral = Peripheral::new();
    // 0x42 - 0x15 = 0x2D, adjusted to BCD 27
    cpu.registers.a = 0x42;
    cpu.registers.c = 0x15;
    cpu.execute(Instruction::SUB(ArithmeticTarget::C), &mut peripheral);
    cpu.execute(Instruction::DAA, &mut peripheral);
    assert_eq!(cpu.registers.a, 0x27);
    // SBC takes the carry off the operand first: 0x10 - (0x00 - 1) borrows
    cpu.registers.a = 0x10;
    cpu.registers.c = 0x00;
    cpu.registers.f.carry = true;
    cpu.execute(Instruction::SBC(ArithmeticTarget::C), &mut peripheral);
    assert_eq!(cpu.registers.a, 0x11);
    assert!(cpu.registers.f.carry);
}

#[test]
fn swap_twice_and_add_then_sub_give_the_value_back() {
    let mut cpu = Cpu::new();
    let mut peripheral = Peripheral::new();
    for value in [0x00u8, 0x12, 0xF0, 0xB5] {
        cpu.registers.l = value;
        cpu.execute(Instruction::SWAP(IncDecTarget::L), &mut peripheral);
        cpu.execute(Instruction::SWAP(IncDecTarget::L), &mut peripheral);
        assert_eq!(cpu.registers.l, value);
        cpu.registers.a = value;
        cpu.registers.d = 0xC7;
        cpu.execute(Instruction::ADD(ArithmeticTarget::D), &mut peripheral);
        cpu.execute(Instruction::SUB(ArithmeticTarget::D), &mut peripheral);
        assert_eq!(cpu.registers.a, value);
    }
}

#[test]
fn a_set_bit_tests_set_and_a_reset_bit_tests_clear() {
    let mut cpu = Cpu::new();
    let mut peripheral = Peripheral::new();
    for bit in [BitTarget::BIT_0, BitTarget::BIT_3, BitTarget::BIT_7] {
        cpu.registers.e = 0x5A;
        cpu.execute(Instruction::SET_BIT(bit, IncDecTarget::E), &mut peripheral);
        cpu.execute(Instruction::BIT(bit, IncDecTarget::E), &mut peripheral);
        assert!(!cpu.registers.f.zero);
        cpu.execute(Instruction::RESET_BIT(bit, IncDecTarget::E), &mut peripheral);
        cpu.execute(Instruction::BIT(bit, IncDecTarget::E), &mut peripheral);
        assert!(cpu.registers.f.zero);
    }
}

#[test]
fn no_instruction_takes_more_than_six_machine_cycles() {
    for opcode in 0..=255u8 {
        for second in [0x00u8, 0x46, 0xFF] {
            let mut cpu = Cpu::new();
            let mut peripheral = Peripheral::new();
            peripheral.write(0xC000, opcode);
            peripheral.write(0xC001, second);
            peripheral.write(0xC002, 0xC0);
            cpu.pc = 0xC000;
            cpu.sp = 0xFFFE;
            if let Some(instruction) = cpu.decode(opcode, &peripheral) {
                let (_, cycles) = cpu.execute(instruction, &mut peripheral);
                assert!(cycles <= 6);
            }
        }
    }
}

#[test]
fn the_picture_processor_keeps_memory_and_settings() {
    let mut peripheral = Peripheral::new();
    peripheral.write(0xFF40, 0x91);
    peripheral.write(0xFF47, 0xE4);
    peripheral.write(0x8010, 0x3C);
    peripheral.write(0xFE00, 0x10);
    peripheral.write(0xFF43, 0x07);
    for _ in 0..2000 {
        peripheral.run(24);
    }
    assert_eq!(peripheral.read(0x8010), 0x3C);
    assert_eq!(peripheral.read(0xFE00), 0x10);
    assert_eq!(peripheral.read(0xFF40), 0x91);
    assert_eq!(peripheral.read(0xFF43), 0x07);
    assert_eq!(peripheral.gpu.background_palette.color_0, PixelColor::WHITE);
    assert_eq!(peripheral.gpu.background_palette.color_3, PixelColor::BLACK);
}

#[test]
fn a_stopped_timer_does_not_move() {
    let mut timer = Timer::new();
    let mut nvic = Nvic::new();
    timer.value = 0x42;
    for _ in 0..100 {
        timer.run(255, &mut nvic);
    }
    assert_eq!(timer, Timer { value: 0x42, ..Timer::new() });
    assert_eq!(nvic, Nvic::new());
}

#[test]
fn dma_copies_a_page_of_working_ram() {
    let mut peripheral = Peripheral::new();
    for i in 0..160u16 {
        peripheral.write(0xC100 + i, (i * 7) as u8);
    }
    peripheral.write(0xFF46, 0xC1);
    for _ in 0..160 {
        peripheral.run(1);
    }
    assert!(!peripheral.dma_enabled);
    for i in 0..160u16 {
        assert_eq!(peripheral.gpu.read_oam(i as usize), (i * 7) as u8);
    }
}

#[test]
fn every_storage_address_reads_back() {
    let mut peripheral = Peripheral::new();
    for address in [0x0001u16, 0x0010, 0x3FFF, 0x8000, 0xA000, 0xC000, 0xDFFF, 0xFE00, 0xFE9F, 0xFF80] {
        peripheral.write(address, 0xA7);
        assert_eq!(peripheral.read(address), 0xA7);
    }
    // register writes leave storage alone
    peripheral.write(0xFF47, 0x00);
    peripheral.write(0xFF46, 0xC0);
    peripheral.write(0xFF30, 0x00);
    assert_eq!(peripheral.read(0x0001), 0xA7);
    assert_eq!(peripheral.read(0xFE00), 0xA7);
    // with the boot program mapped, its bytes hide the cartridge
    peripheral.load_bootrom(&[0x31u8; 256]);
    peripheral.write(0x0020, 0x99);
    assert_eq!(peripheral.read(0x0020), 0x31);
    peripheral.write(0xFF50, 0x01);
    assert_eq!(peripheral.read(0x0020), 0x99);
}

#[test]
fn dma_copies_from_the_cartridge_in_machine_steps() {
    let mut peripheral = Peripheral::new();
    for i in 0..160u16 {
        peripheral.write(0x1000 + i, (i as u8) ^ 0x5A);
    }
    peripheral.write(0xFF46, 0x10);
    let mut ticks = 0;
    for step in [24u8, 8, 12, 16, 4, 24, 20, 24, 24, 4].iter().cycle() {
        if ticks >= 160 {
            break;
        }
        peripheral.run(*step);
        ticks += *step as u32;
    }
    assert!(!peripheral.dma_enabled);
    for i in 0..160u16 {
        assert_eq!(peripheral.gpu.read_oam(i as usize), (i as u8) ^ 0x5A);
    }
}

#[test]
fn readable_and_writable_addresses() {
    for address in [0x0000u16, 0x4000, 0x7FFF, 0xE000, 0xFDFF, 0xFEA0, 0xFF00, 0xFF04, 0xFF0F, 0xFF44, 0xFF45, 0xFF80, 0xFFFF] {
        assert!(readable(address));
    }
    for address in [0xFF03u16, 0xFF07, 0xFF10, 0xFF30, 0xFF46, 0xFF47, 0xFF50, 0xFF7F] {
        assert!(!readable(address));
    }
    for address in [0x0000u16, 0x3FFF, 0x8000, 0xDFFF, 0xFE00, 0xFEFF, 0xFF07, 0xFF10, 0xFF14, 0xFF30, 0xFF43, 0xFF46, 0xFF4B, 0xFF50, 0xFF7F, 0xFF80, 0xFFFF] {
        assert!(writable(address));
    }
    for address in [0x4000u16, 0x7FFF, 0xE000, 0xFDFF, 0xFF03, 0xFF15, 0xFF1F, 0xFF27, 0xFF44, 0xFF4C, 0xFF51, 0xFF7E] {
        assert!(!writable(address));
    }
}

#[test]
fn a_write_leaves_the_interrupt_controller_and_boot_rom() {
    let mut peripheral = Peripheral::new();
    peripheral.load_bootrom(&[0x31u8; 256]);
    peripheral.nvic.master_enable(true);
    peripheral.write(0xFF0F, 0x04);
    peripheral.write(0xFFFF, 0x05);
    for address in [0x0005u16, 0x8000, 0xC000, 0xFE00, 0xFF40, 0xFF46, 0xFF80, 0xFFFE] {
        peripheral.write(address, 0x11);
    }
    assert!(peripheral.nvic.interrupt_master_enable);
    assert_eq!(peripheral.read(0xFF0F), 0xE4);
    assert_eq!(peripheral.read(0xFFFF), 0xE5);
    assert_eq!(peripheral.read(0x0005), 0x31);
}

#[test]
fn dma_from_oam_keeps_oam() {
    let mut peripheral = Peripheral::new();
    for i in 0..160u16 {
        peripheral.write(0xFE00 + i, (i * 3) as u8);
    }
    peripheral.write(0xFF46, 0xFE);
    for _ in 0..40 {
        peripheral.run(4);
    }
    assert!(!peripheral.dma_enabled);
    for i in 0..160u16 {
        assert_eq!(peripheral.gpu.read_oam(i as usize), (i * 3) as u8);
    }
}

#[test]
fn dma_restarted_while_running_copies_the_rest_from_the_new_page() {
    let mut peripheral = Peripheral::new();
    for i in 0..160u16 {
        peripheral.write(0xC000 + i, 0x11);
        peripheral.write(0xC100 + i, 0x22);
    }
    peripheral.write(0xFF46, 0xC0);
    for _ in 0..10 {
        peripheral.run(8);
    }
    peripheral.write(0xFF46, 0xC1);
    for _ in 0..10 {
        peripheral.run(8);
    }
    assert!(!peripheral.dma_enabled);
    for i in 0..80usize {
        assert_eq!(peripheral.gpu.read_oam(i), 0x11);
    }
    for i in 80..160usize {
        assert_eq!(peripheral.gpu.read_oam(i), 0x22);
    }
}

#[test]
fn instructions_whose_accesses_are_not_served_cannot_run() {
    let mut cpu = Cpu::new();
    let mut peripheral = Peripheral::new();
    peripheral.write(0x0000, 0x77); // LD (HL), A
    cpu.registers.write_hl(0x4000);
    assert!(!cpu.can_run(&peripheral));
    cpu.registers.write_hl(0xC000);
    assert!(cpu.can_run(&peripheral));
    cpu.registers.write_hl(0xFF44);
    assert!(!cpu.can_run(&peripheral));
    peripheral.write(0x0000, 0x7E); // LD A, (HL)
    assert!(cpu.can_run(&peripheral));
    cpu.registers.write_hl(0xFF46);
    assert!(!cpu.can_run(&peripheral));
    peripheral.write(0x0000, 0xC5); // PUSH BC
    cpu.sp = 0xE002;
    assert!(!cpu.can_run(&peripheral));
    cpu.sp = 0xC002;
    assert!(cpu.can_run(&peripheral));
    assert_eq!(cpu.run(&mut peripheral), 4);
    assert_eq!(cpu.sp, 0xC000);
}
