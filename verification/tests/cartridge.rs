use qoboy::cartridge::{
    get_mbc_type, get_ram_size, get_rom_size, is_known_mbc_type, is_known_ram_size,
    is_known_rom_size, Cartridge, MbcType, RamSize, RomSize, ROM_SIZE,
};

fn image(mbc: u8, rom_size: u8, ram_size: u8) -> Vec<u8> {
    let mut rom = vec![0u8; ROM_SIZE];
    for (i, byte) in rom.iter_mut().enumerate() {
        *byte = (i % 251) as u8;
    }
    rom[0x147] = mbc;
    rom[0x148] = rom_size;
    rom[0x149] = ram_size;
    rom
}

#[test]
fn header_codes_decode() {
    assert_eq!(get_mbc_type(0x00), MbcType::ROM_ONLY);
    assert_eq!(get_mbc_type(0x13), MbcType::MBC_3_RAM_BAT);
    assert_eq!(get_mbc_type(0xFE), MbcType::HUC3);
    assert_eq!(get_mbc_type(0xFF), MbcType::HUC1);
    assert_eq!(get_rom_size(0x05), RomSize::SIZE_1_MB);
    assert_eq!(get_rom_size(0x08), RomSize::SIZE_8_MB);
    assert_eq!(get_ram_size(0x03), RamSize::SIZE_32_KB);
    assert_eq!(get_ram_size(0x05), RamSize::SIZE_64_KB);
    assert_eq!(RamSize::SIZE_64_KB.code(), 0x05);
}

#[test]
fn unknown_header_codes_are_told_apart() {
    assert!(is_known_mbc_type(0x00));
    assert!(is_known_mbc_type(0xFF));
    assert!(!is_known_mbc_type(0x04));
    assert!(!is_known_mbc_type(0x21));
    assert!(is_known_rom_size(0x08));
    assert!(!is_known_rom_size(0x09));
    assert!(is_known_ram_size(0x00));
    assert!(!is_known_ram_size(0x01));
}

#[test]
fn rom_only_image_is_supported() {
    let rom = image(0x00, 0x00, 0x00);
    assert!(Cartridge::supports(&rom));
    let cartridge = Cartridge::new(&rom);
    assert_eq!(cartridge.read_bank_0(0x0150), rom[0x0150]);
    assert_eq!(cartridge.read_bank_n(0x7FFF), rom[0x7FFF]);
    assert_eq!(cartridge.read_ram(0x0000), 0xFF);
}

#[test]
fn unsupported_images_are_refused() {
    // a memory bank controller
    assert!(!Cartridge::supports(&image(0x01, 0x00, 0x00)));
    // an unknown ROM size code
    assert!(!Cartridge::supports(&image(0x00, 0x20, 0x00)));
    // an unknown RAM size code
    assert!(!Cartridge::supports(&image(0x00, 0x00, 0x01)));
    // shorter than the two banks
    let mut short = image(0x00, 0x00, 0x00);
    short.truncate(ROM_SIZE - 1);
    assert!(!Cartridge::supports(&short));
}

#[test]
fn cartridge_writes_land_in_its_rom() {
    let mut cartridge = Cartridge::empty();
    assert_eq!(cartridge.read_bank_0(0x0100), 0xFF);
    cartridge.write_bank_0(0x0100, 0x12);
    cartridge.write_bank_n(0x4100, 0x34);
    cartridge.write_ram(0x0000, 0x56);
    assert_eq!(cartridge.read_bank_0(0x0100), 0x12);
    assert_eq!(cartridge.read_bank_n(0x4100), 0x34);
    assert_eq!(cartridge.read_ram(0x0000), 0xFF);
}
