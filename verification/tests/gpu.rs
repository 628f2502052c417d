use qoboy::soc::peripheral::gpu::{
    Gpu, GpuMode, ObjectSize, PixelColor, TileMapArea, DRAW_PIXEL_CYCLES, HORIZONTAL_BLANK_CYCLES,
    OAM_SCAN_CYCLES, ONE_LINE_CYCLES, SCREEN_HEIGHT,
};
use qoboy::soc::peripheral::nvic::{InterruptSources, Nvic};

#[test]
fn gpu_test_read_write_vram() {
    let mut gpu = Gpu::new();
    gpu.write_vram(0x0001, 0xAA);
    gpu.write_vram(0x0002, 0x55);
    gpu.write_vram(0x0010, 0xAA);
    assert_eq!(gpu.read_vram(0x0001), 0xAA);
    assert_eq!(gpu.read_vram(0x0002), 0x55);
    assert_eq!(gpu.read_vram(0x0010), 0xAA);
}

#[test]
fn gpu_test_draw_line() {
    let mut gpu = Gpu::new();

    // init GPU
    gpu.background_display_enabled = true;
    gpu.background_tile_data_area = true;
    gpu.background_tile_map_area = TileMapArea::X9800;
    gpu.current_line = 8; // first line of the second tile row

    // init VRAM
    // here we're looking for tile at index 32 and 33
    gpu.write_vram(0x0200, 0x80);
    gpu.write_vram(0x0201, 0x80);
    gpu.write_vram(0x0210, 0x80);
    gpu.write_vram(0x0211, 0x80);

    // set tile map
    // here we're looking for tile at index 32 and 33
    gpu.write_vram(0x1820, 0x20);
    gpu.write_vram(0x1821, 0x21);

    // draw the line in the frame buffer
    gpu.draw_line();

    // check frame buffer
    // line 8 * 160 = 1280 / 0x0500
    assert_eq!(gpu.frame_buffer[0x0500], PixelColor::BLACK.value());
    assert_eq!(gpu.frame_buffer[0x0508], PixelColor::BLACK.value());
}

#[test]
fn test_tile_data_area() {
    let mut gpu = Gpu::new();

    // init GPU
    gpu.background_display_enabled = true;
    gpu.background_tile_data_area = false;
    gpu.background_tile_map_area = TileMapArea::X9800;

    // init VRAM
    // here we're looking for tile at index 32 and 33
    gpu.write_vram(0x1200, 0x80);
    gpu.write_vram(0x1201, 0x80);
    gpu.write_vram(0x1210, 0x80);
    gpu.write_vram(0x1211, 0x80);

    // here we're looking for tile at index 128 and 129
    gpu.write_vram(0x0800, 0x80);
    gpu.write_vram(0x0801, 0x80);
    gpu.write_vram(0x0810, 0x80);
    gpu.write_vram(0x0811, 0x80);

    // set tile map
    // here we're looking for tile map at index 32 and 33 / line 9
    // which redirects to tile data index 32 and 33
    gpu.write_vram(0x1820, 0x20);
    gpu.write_vram(0x1821, 0x21);
    // here we're looking for tile map at index 512 and 513 / line 129
    // which redirects to tile data index 128 and 129
    gpu.write_vram(0x1A00, 0x80);
    gpu.write_vram(0x1A01, 0x81);

    // draw the line in the frame buffer
    gpu.current_line = 8; // first line of the second tile row -> line 9
    gpu.draw_line();

    gpu.current_line = 128; // first line of the 16th tile row -> line 129
    gpu.draw_line();

    // check frame buffer
    // line 8 * 160 = 1280 / 0x0500
    assert_eq!(gpu.frame_buffer[0x0500], PixelColor::BLACK.value());
    assert_eq!(gpu.frame_buffer[0x0508], PixelColor::BLACK.value());
    // line 128 * 160 = 20480 / 0x5000
    assert_eq!(gpu.frame_buffer[0x5000], PixelColor::BLACK.value());
    assert_eq!(gpu.frame_buffer[0x5008], PixelColor::BLACK.value());
}

#[test]
fn test_tile_map_area() {
    let mut gpu = Gpu::new();

    // init GPU
    gpu.background_display_enabled = true;
    gpu.background_tile_data_area = true;
    gpu.background_tile_map_area = TileMapArea::X9800;
    gpu.current_line = 8; // first line of the second tile row

    // init VRAM
    // here we're looking for tile at index 32 and 33
    gpu.write_vram(0x0200, 0x80);
    gpu.write_vram(0x0201, 0x80);
    gpu.write_vram(0x0210, 0x80);
    gpu.write_vram(0x0211, 0x80);

    // set tile map
    // here we're looking for tile at index 32 and 33
    gpu.write_vram(0x1820, 0x20);
    gpu.write_vram(0x1821, 0x21);

    // draw the line in the frame buffer
    gpu.draw_line();

    // check frame buffer
    // line 8 * 160 = 1280 / 0x0500
    assert_eq!(gpu.frame_buffer[0x0500], PixelColor::BLACK.value());
    assert_eq!(gpu.frame_buffer[0x0508], PixelColor::BLACK.value());
}

#[test]
fn test_scrolling() {
    let mut gpu = Gpu::new();

    // init GPU
    gpu.background_display_enabled = true;
    gpu.background_tile_data_area = true;
    gpu.background_tile_map_area = TileMapArea::X9C00;

    // init VRAM
    // here we're looking for tile at index 32 and 33
    gpu.write_vram(0x0200, 0x80);
    gpu.write_vram(0x0201, 0x80);
    gpu.write_vram(0x0210, 0x80);
    gpu.write_vram(0x0211, 0x80);

    // set tile map
    // here we're looking for tile at index 32 and 33
    gpu.write_vram(0x1C20, 0x20);
    gpu.write_vram(0x1C21, 0x21);

    // scroll on y axis and draw the line
    gpu.viewport_y_offset = 1;
    gpu.viewport_x_offset = 0;
    gpu.current_line = 7; // line 8 now corresponds to line 9
    gpu.draw_line();

    // check frame buffer
    // line 9 * 160 = 1440 / 0x05A0
    assert_eq!(gpu.frame_buffer[0x05A0], PixelColor::BLACK.value());
    assert_eq!(gpu.frame_buffer[0x05A8], PixelColor::BLACK.value());

    // scroll on x axis and draw the line
    gpu.viewport_y_offset = 0;
    gpu.viewport_x_offset = 1;
    gpu.current_line = 8;
    gpu.draw_line();

    // check frame buffer
    // line 8 * 160 = 1280 / 0x0500
    assert_eq!(gpu.frame_buffer[0x0507], PixelColor::BLACK.value());
}

#[test]
fn test_draw_frame() {
    let mut gpu = Gpu::new();
    let mut nvic = Nvic::new();

    // init GPU
    gpu.background_display_enabled = true;
    gpu.background_tile_data_area = true;
    gpu.background_tile_map_area = TileMapArea::X9800;
    gpu.lcd_display_enabled = true;

    // init VRAM
    // here we're looking for tile at index 32 and 33
    gpu.write_vram(0x0200, 0x80);
    gpu.write_vram(0x0201, 0x80);

    // set tile map
    // here we're looking for tile at index 0 and 1
    gpu.write_vram(0x1800, 0x20);
    gpu.write_vram(0x1801, 0x20);
    // here we're looking for tile at index 32 and 33
    gpu.write_vram(0x1820, 0x20);
    gpu.write_vram(0x1821, 0x20);
    // here we're looking for tile map at index 512 and 513 / line 129
    gpu.write_vram(0x1A00, 0x20);
    gpu.write_vram(0x1A01, 0x20);

    // draw the line in the frame buffer
    while gpu.current_line < SCREEN_HEIGHT as u8 {
        gpu.run(1, &mut nvic);
    }

    // check frame buffer
    // line 0 * 160 = 0 / 0x0000
    assert_eq!(gpu.frame_buffer[0x0000], PixelColor::BLACK.value());
    assert_eq!(gpu.frame_buffer[0x0008], PixelColor::BLACK.value());
    // line 8 * 160 = 1280 / 0x0500
    assert_eq!(gpu.frame_buffer[0x0500], PixelColor::BLACK.value());
    assert_eq!(gpu.frame_buffer[0x0508], PixelColor::BLACK.value());
    // line 128 * 160 = 20480 / 0x5000
    assert_eq!(gpu.frame_buffer[0x5000], PixelColor::BLACK.value());
    assert_eq!(gpu.frame_buffer[0x5008], PixelColor::BLACK.value());
}

#[test]
fn test_vblank_interrupts() {
    let mut gpu = Gpu::new();
    let mut nvic = Nvic::new();

    gpu.lcd_display_enabled = true;

    nvic.master_enable(true);
    nvic.enable_interrupt(InterruptSources::VBLANK, true);

    let mut runned_cycles: u32 = 0;

    // run GPU
    while runned_cycles < (SCREEN_HEIGHT * (ONE_LINE_CYCLES as usize) + 1) as u32 {
        gpu.run(1, &mut nvic);
        runned_cycles += 1;
    }

    // check that we are in vblank mode and vblank interrupt has been asserted
    assert_eq!(gpu.mode, GpuMode::VerticalBlank);
    assert_eq!(nvic.get_interrupt().unwrap(), InterruptSources::VBLANK);
}

#[test]
fn test_stat_interrupts() {
    let mut gpu = Gpu::new();
    let mut nvic = Nvic::new();

    nvic.master_enable(true);
    nvic.enable_interrupt(InterruptSources::STAT, true);
    gpu.oam_interrupt_enabled = true;
    gpu.hblank_interrupt_enabled = true;
    gpu.vblank_interrupt_enabled = false;
    gpu.lcd_display_enabled = true;

    let mut runned_cycles: u32 = 0;

    // run GPU
    while runned_cycles < (OAM_SCAN_CYCLES + DRAW_PIXEL_CYCLES + 1) as u32 {
        gpu.run(1, &mut nvic);
        runned_cycles += 1;
    }

    // check that we are in vblank mode and vblank interrupt has been asserted
    assert_eq!(gpu.mode, GpuMode::HorizontalBlank);
    assert_eq!(nvic.get_interrupt().unwrap(), InterruptSources::STAT);

    // run GPU
    runned_cycles = 0;
    while runned_cycles < (HORIZONTAL_BLANK_CYCLES) as u32 {
        gpu.run(1, &mut nvic);
        runned_cycles += 1;
    }

    // check that we are in vblank mode and vblank interrupt has been asserted
    assert_eq!(gpu.mode, GpuMode::OAMScan);
    assert_eq!(nvic.get_interrupt().unwrap(), InterruptSources::STAT);
    assert_eq!(nvic.get_interrupt(), None);
}

#[test]
fn test_vblank_stat_interrupts() {
    let mut gpu = Gpu::new();
    let mut nvic = Nvic::new();

    nvic.master_enable(true);
    nvic.enable_interrupt(InterruptSources::STAT, true);
    gpu.oam_interrupt_enabled = false;
    gpu.hblank_interrupt_enabled = false;
    gpu.vblank_interrupt_enabled = true;
    gpu.lcd_display_enabled = true;

    let mut runned_cycles: u32 = 0;

    // run the gpu
    while runned_cycles < (SCREEN_HEIGHT * (ONE_LINE_CYCLES as usize) + (HORIZONTAL_BLANK_CYCLES as usize) + 1) as u32 {
        gpu.run(1, &mut nvic);
        runned_cycles += 1;
    }

    // check that we are in vblank mode and vblank interrupt has been asserted
    assert_eq!(gpu.mode, GpuMode::VerticalBlank);
    assert_eq!(nvic.get_interrupt().unwrap(), InterruptSources::STAT);
}

#[test]
fn test_compare_line() {
    let mut gpu = Gpu::new();
    let mut nvic = Nvic::new();

    nvic.master_enable(true);
    nvic.enable_interrupt(InterruptSources::STAT, true);
    gpu.line_compare_it_enable = true;
    gpu.compare_line = 2;
    gpu.lcd_display_enabled = true;

    assert_eq!(gpu.line_compare_state, false);

    let mut runned_cycles: u32 = 0;

    // run the gpu for 3 lines
    while runned_cycles < (ONE_LINE_CYCLES * 2 + HORIZONTAL_BLANK_CYCLES) as u32 {
        gpu.run(1, &mut nvic);
        runned_cycles += 1;
    }

    // check that we are in vblank mode and vblank interrupt has been asserted
    assert_eq!(gpu.current_line, 2);
    assert_eq!(gpu.line_compare_state, true);
    assert_eq!(nvic.get_interrupt().unwrap(), InterruptSources::STAT);
}

#[test]
fn test_control_reg() {
    let mut gpu = Gpu::new();

    gpu.control_from_byte(0xDB);
    let reg = gpu.control_to_byte();
    
    assert_eq!(reg, 0xDB);
}

#[test]
fn test_status_reg() {
    let mut gpu = Gpu::new();

    gpu.status_from_byte(0xDF);
    let reg = gpu.status_to_byte();
    
    assert_eq!(reg, 0xD8);
}

#[test]
fn test_set_background_palette() {
    let mut gpu = Gpu::new();

    gpu.set_background_palette(0b10010011);

    assert_eq!(gpu.background_palette.color_3, PixelColor::DARK_GRAY);
    assert_eq!(gpu.background_palette.color_2, PixelColor::LIGHT_GRAY);
    assert_eq!(gpu.background_palette.color_1, PixelColor::WHITE);
    assert_eq!(gpu.background_palette.color_0, PixelColor::BLACK);
}

#[test]
fn test_set_object_palette() {
    let mut gpu = Gpu::new();

    gpu.set_object_palette_0(0b10010011);

    assert_eq!(gpu.object_palette_0.color_3, PixelColor::DARK_GRAY);
    assert_eq!(gpu.object_palette_0.color_2, PixelColor::LIGHT_GRAY);
    assert_eq!(gpu.object_palette_0.color_1, PixelColor::WHITE);
    assert_eq!(gpu.object_palette_0.color_0, PixelColor::BLACK);

    gpu.set_object_palette_1(0b11010010);

    assert_eq!(gpu.object_palette_1.color_3, PixelColor::BLACK);
    assert_eq!(gpu.object_palette_1.color_2, PixelColor::LIGHT_GRAY);
    assert_eq!(gpu.object_palette_1.color_1, PixelColor::WHITE);
    assert_eq!(gpu.object_palette_1.color_0, PixelColor::DARK_GRAY);
}

#[test]
fn test_draw_big_sprite() {
    let mut gpu = Gpu::new();

    // init GPU
    gpu.object_display_enabled = true;
    gpu.object_size = ObjectSize::OS8X16;

    // init VRAM
    // here we're looking for tile at index 0
    gpu.write_vram(0x0010, 0x7F);
    gpu.write_vram(0x0011, 0xFF);
    gpu.write_vram(0x0012, 0xFF);
    gpu.write_vram(0x0013, 0xFE);

    // set OAM
    // set y position
    gpu.write_oam(0x0000, 0x10);
    // set x position
    gpu.write_oam(0x0001, 0x08);
    // set tile index
    gpu.write_oam(0x0002, 0x01);
    // set attributes
    gpu.write_oam(0x0003, 0x00);

    // draw the line in the frame buffer
    gpu.current_line = 0;
    gpu.draw_line();
    gpu.current_line = 1;
    gpu.draw_line();

    // check frame buffer
    // line 1 * 160 = 160 / 0x00A0
    assert_eq!(gpu.frame_buffer[0x0000], PixelColor::DARK_GRAY.value());
    assert_eq!(gpu.frame_buffer[0x00A7], PixelColor::LIGHT_GRAY.value());

    // shift sprite y position for 31 lines down
    // set y position
    gpu.write_oam(0x0000, 0x2F);

    // draw the line in the frame buffer
    gpu.current_line = 31;
    gpu.draw_line();
    gpu.current_line = 32;
    gpu.draw_line();

    // check frame buffer
    // line 31 * 160 = 4960 / 0x1360
    assert_eq!(gpu.frame_buffer[0x1360], PixelColor::DARK_GRAY.value());
    // line 32 * 160 = 5120 / 0x1400
    assert_eq!(gpu.frame_buffer[0x1407], PixelColor::LIGHT_GRAY.value());

    // shift sprite x position for 3 columns right
    // set y position
    gpu.write_oam(0x0001, 0x0B);

    // draw the line in the frame buffer
    gpu.current_line = 31;
    gpu.draw_line();
    gpu.current_line = 32;
    gpu.draw_line();

    // check frame buffer
    // line 31 * 160 = 4960 / 0x1360
    assert_eq!(gpu.frame_buffer[0x1363], PixelColor::DARK_GRAY.value());
    // line 32 * 160 = 5120 / 0x1400
    assert_eq!(gpu.frame_buffer[0x140A], PixelColor::LIGHT_GRAY.value());
}

#[test]
fn test_draw_window() {
    let mut gpu = Gpu::new();

    // init GPU
    gpu.window_display_enabled = true;
    gpu.background_display_enabled = true;
    gpu.window_tile_map_area = TileMapArea::X9800;
    gpu.background_tile_data_area = true;
    gpu.current_line = 0; // first line of the second tile row

    // init VRAM
    // here we're looking for tile at index 0
    gpu.write_vram(0x0000, 0x01);
    gpu.write_vram(0x0001, 0x00);

    // set tile map
    // here we're looking for tile at index 0
    gpu.write_vram(0x1800, 0x00);

    // draw the line in the frame buffer
    gpu.window_x_offset = 0;
    gpu.draw_line();
    assert_eq!(gpu.frame_buffer[0x0000], PixelColor::LIGHT_GRAY.value());

    gpu.window_x_offset = 128;
    gpu.draw_line();
    assert_eq!(gpu.frame_buffer[0x0080], PixelColor::LIGHT_GRAY.value());
}

#[test]
fn control_register_reads_back_every_byte() {
    let mut gpu = Gpu::new();
    for data in 0..=255u8 {
        gpu.control_from_byte(data);
        assert_eq!(gpu.control_to_byte(), data);
    }
}

#[test]
fn status_register_keeps_its_interrupt_enables() {
    let mut gpu = Gpu::new();
    for data in 0..=255u8 {
        gpu.status_from_byte(data);
        assert_eq!(gpu.status_to_byte() & 0x78, data & 0x78);
        assert_eq!(gpu.status_to_byte() & 0x80, 0x80);
    }
}

#[test]
fn lcd_off_does_not_move() {
    let mut gpu = Gpu::new();
    let mut nvic = Nvic::new();
    gpu.run(200, &mut nvic);
    assert_eq!(gpu.cycles, 0);
    assert_eq!(gpu.mode, GpuMode::OAMScan);
    assert_eq!(nvic.interrupt_flag, 0);
}

#[test]
fn background_tile_rows_reach_the_end_of_video_ram() {
    let mut gpu = Gpu::new();
    gpu.control_from_byte(0x91); // tile data from 0x8000
    gpu.write_vram(0x1FFE, 0x12);
    gpu.write_vram(0x1FFF, 0x34);
    assert_eq!(gpu.get_bg_tile_data(0x1FF0, 14), (0x34, 0x12));
    // $8800 addressing: the first 0x800 bytes come from the block at 0x9000
    gpu.control_from_byte(0x81);
    gpu.write_vram(0x1010, 0x56);
    gpu.write_vram(0x1011, 0x78);
    assert_eq!(gpu.get_bg_tile_data(0x0010, 0), (0x78, 0x56));
    gpu.write_vram(0x0810, 0x9A);
    gpu.write_vram(0x0811, 0xBC);
    assert_eq!(gpu.get_bg_tile_data(0x0800, 16), (0xBC, 0x9A));
}
