use qoboy::soc::peripheral::{Peripheral, OAM_SIZE, VRAM_BEGIN};

#[test]
fn test_read_write() {
    let mut peripheral = Peripheral::new();
    peripheral.write(0x0001, 0xAA);
    peripheral.write(0x0002, 0x55);
    peripheral.write(0x0010, 0xAA);
    assert_eq!(peripheral.read(0x0001), 0xAA);
    assert_eq!(peripheral.read(0x0002), 0x55);
    assert_eq!(peripheral.read(0x0010), 0xAA);
}

#[test]
fn mod_test_read_write_vram() {
    let mut peripheral = Peripheral::new();
    peripheral.write(0x0001 + VRAM_BEGIN, 0xAA);
    peripheral.write(0x0002 + VRAM_BEGIN, 0x55);
    peripheral.write(0x0010 + VRAM_BEGIN, 0xAA);
    assert_eq!(peripheral.read(0x0001 + VRAM_BEGIN), 0xAA);
    assert_eq!(peripheral.read(0x0002 + VRAM_BEGIN), 0x55);
    assert_eq!(peripheral.read(0x0010 + VRAM_BEGIN), 0xAA);
}

#[test]
fn test_oam_dma() {
    let mut peripheral = Peripheral::new();
    let address = 0x1000;
    // init data
    peripheral.write(address, 0xAA);
    peripheral.write(address + 0x007F, 0xAA);
    peripheral.write(address + 0x009F, 0x55);

    // set dma
    peripheral.write(0xFF46, (0x1000 >> 8) as u8);

    // run peripheral for 160 cycles
    for _ in 0..OAM_SIZE {
        peripheral.run(1);
    }

    // check oam memory
    assert_eq!(peripheral.gpu.read_oam(0x00), 0xAA);
    assert_eq!(peripheral.gpu.read_oam(0x7F), 0xAA);
    assert_eq!(peripheral.gpu.read_oam(0x9F), 0x55);
}

