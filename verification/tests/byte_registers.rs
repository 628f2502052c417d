use qoboy::soc::cpu::register::FlagRegister;
use qoboy::Registers;

fn registers() -> Registers {
    Registers { a: 10, b: 1, c: 3, d: 4, e: 5, f: 6, h: 7, l: 8 }
}

#[test]
fn lib_test_bc() {
    let mut regs = registers();
    regs.set_bc(0b0011_1000);
    assert_eq!(regs.get_bc(), 0b0011_1000);
}

#[test]
fn lib_test_af() {
    let mut regs = registers();
    regs.set_af(0b0010_1101);
    assert_eq!(regs.get_af(), 0b0010_1101);
}

#[test]
fn lib_test_de() {
    let mut regs = registers();
    regs.set_de(0b1010_1001);
    assert_eq!(regs.get_de(), 0b1010_1001);
}

#[test]
fn lib_test_flag() {
    let flag_byte = u8::from(FlagRegister {
        zero: true,
        substraction: false,
        half_carry: true,
        carry: true,
    });

    assert_eq!(flag_byte, 0b1011_0000);
}

#[test]
fn lib_test_flag_ex() {
    let flag_reg = FlagRegister::from(0b0101_0000);

    assert_eq!(flag_reg.zero, false);
    assert_eq!(flag_reg.substraction, true);
    assert_eq!(flag_reg.half_carry, false);
    assert_eq!(flag_reg.carry, true);
}

#[test]
fn every_pair_reads_back_any_value() {
    let mut regs = registers();
    for value in [0x0000u16, 0x00FF, 0x1234, 0xFFFF, 0xABCD] {
        regs.set_bc(value);
        regs.set_de(value);
        regs.set_af(value);
        assert_eq!(regs.get_bc(), value);
        assert_eq!(regs.get_de(), value);
        assert_eq!(regs.get_af(), value);
    }
    assert_eq!(regs.h, 7);
}
