use qoboy::soc::cpu::register::{FlagRegister, Registers};

#[test]
fn register_test_bc() {
    let mut regs = Registers::new();
    regs.write_bc(0b0011_1000_1010_0110);
    assert_eq!(regs.read_bc(), 0b0011_1000_1010_0110);
}

#[test]
fn register_test_af() {
    let mut regs = Registers::new();
    regs.write_af(0b0011_1000_1010_0000);
    assert_eq!(regs.read_af(), 0b0011_1000_1010_0000);
}

#[test]
fn register_test_de() {
    let mut regs = Registers::new();
    regs.write_de(0b0011_1000_1010_0110);
    assert_eq!(regs.read_de(), 0b0011_1000_1010_0110);
}

#[test]
fn register_test_flag() {
    let flag_byte = u8::from(FlagRegister {
        zero: true,
        substraction: false,
        half_carry: true,
        carry: true,
    });

    assert_eq!(flag_byte, 0b1011_0000);
}

#[test]
fn register_test_flag_ex() {
    let flag_reg = FlagRegister::from(0b0101_0000);

    assert_eq!(flag_reg.zero, false);
    assert_eq!(flag_reg.substraction, true);
    assert_eq!(flag_reg.half_carry, false);
    assert_eq!(flag_reg.carry, true);
}

