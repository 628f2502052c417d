//! The picture processing unit: video memory, sprite attribute memory, the LCD
//! registers, the mode state machine and the line renderer.
use vstd::prelude::*;
use crate::soc::peripheral::nvic::{InterruptSources, Nvic, source_mask};

verus! {

pub const VRAM_SIZE: usize = 0x2000;
pub const OAM_SIZE: usize = 0xA0;

pub const HORIZONTAL_BLANK_CYCLES: u16 = 204;
pub const VERTICAL_BLANK_CYCLES: u16 = 4560;
pub const OAM_SCAN_CYCLES: u16 = 80;
pub const DRAW_PIXEL_CYCLES: u16 = 172;
pub const ONE_LINE_CYCLES: u16 = 456;

pub const SCREEN_WIDTH: usize = 160;
pub const SCREEN_HEIGHT: usize = 144;
pub const FRAME_BUFFER_SIZE: usize = 23040;

pub const TILE_ROW_SIZE_IN_PIXEL: u8 = 8;
pub const TILE_SIZE_IN_BYTES: u16 = 16;
pub const TILE_MAP_SIZE: u16 = 32;
pub const BYTES_PER_TILE_ROW: u16 = 2;

pub const NB_SPRITES_IN_OAM: u16 = 40;
pub const SPRITE_ATTRIBUTES_SIZE_IN_BYTES: u16 = 4;
pub const NB_SPRITES_TO_DISPLAY_MAX: usize = 10;
pub const PIXEL_TRANSPARENT: u8 = 0x00;

pub const WINDOW_X_OFFSET: u8 = 7;

#[allow(non_camel_case_types)]
#[derive(Copy, Clone, Debug, PartialEq, Eq, Structural)]
pub enum PixelColor {
    WHITE,
    LIGHT_GRAY,
    DARK_GRAY,
    BLACK,
}

/// The grey level that a colour is drawn with in the frame buffer.
pub open spec fn shade(color: PixelColor) -> u8 {
    match color {
        PixelColor::WHITE => 255,
        PixelColor::LIGHT_GRAY => 192,
        PixelColor::DARK_GRAY => 96,
        PixelColor::BLACK => 0,
    }
}

/// The colour of a 2-bit palette entry: 0 white, 1 light grey, 2 dark grey, 3 black.
pub open spec fn color_of(value: int) -> PixelColor {
    if value == 0 {
        PixelColor::WHITE
    } else if value == 1 {
        PixelColor::LIGHT_GRAY
    } else if value == 2 {
        PixelColor::DARK_GRAY
    } else {
        PixelColor::BLACK
    }
}

impl PixelColor {
    pub fn value(self) -> (level: u8)
        ensures
            level == shade(self),
    {
        match self {
            PixelColor::WHITE => 255,
            PixelColor::LIGHT_GRAY => 192,
            PixelColor::DARK_GRAY => 96,
            PixelColor::BLACK => 0,
        }
    }

    pub fn from_value(value: u8) -> (color: PixelColor)
        ensures
            color == color_of(value as int),
    {
        match value {
            0 => PixelColor::WHITE,
            1 => PixelColor::LIGHT_GRAY,
            2 => PixelColor::DARK_GRAY,
            _ => PixelColor::BLACK,
        }
    }
}

#[derive(Copy, Clone, Debug, PartialEq, Eq, Structural)]
pub struct Palette {
    pub color_0: PixelColor,
    pub color_1: PixelColor,
    pub color_2: PixelColor,
    pub color_3: PixelColor,
}

/// The palette that a palette register byte describes: colour i in bits 2i+1..2i.
pub open spec fn palette_from_byte(data: u8) -> Palette {
    Palette {
        color_0: color_of((data % 4) as int),
        color_1: color_of(((data / 4) % 4) as int),
        color_2: color_of(((data / 16) % 4) as int),
        color_3: color_of((data / 64) as int),
    }
}

/// The colour that a palette gives to a 2-bit pixel value.
pub open spec fn palette_color(palette: Palette, value: int) -> PixelColor {
    if value == 0 {
        palette.color_0
    } else if value == 1 {
        palette.color_1
    } else if value == 2 {
        palette.color_2
    } else {
        palette.color_3
    }
}

pub open spec fn default_palette() -> Palette {
    Palette {
        color_0: PixelColor::WHITE,
        color_1: PixelColor::LIGHT_GRAY,
        color_2: PixelColor::DARK_GRAY,
        color_3: PixelColor::BLACK,
    }
}

impl Palette {
    pub fn new() -> (palette: Palette)
        ensures
            palette == default_palette(),
    {
        Palette {
            color_0: PixelColor::WHITE,
            color_1: PixelColor::LIGHT_GRAY,
            color_2: PixelColor::DARK_GRAY,
            color_3: PixelColor::BLACK,
        }
    }

    pub fn from_byte(data: u8) -> (palette: Palette)
        ensures
            palette == palette_from_byte(data),
    {
        Palette {
            color_0: PixelColor::from_value(data % 4),
            color_1: PixelColor::from_value((data / 4) % 4),
            color_2: PixelColor::from_value((data / 16) % 4),
            color_3: PixelColor::from_value(data / 64),
        }
    }

    pub fn color(&self, value: u8) -> (color: PixelColor)
        ensures
            color == palette_color(*self, value as int),
    {
        match value {
            0 => self.color_0,
            1 => self.color_1,
            2 => self.color_2,
            _ => self.color_3,
        }
    }
}

/// The attributes of one sprite, as they stand in four bytes of the sprite memory.
#[derive(Copy, Clone, Debug, PartialEq, Eq, Structural)]
pub struct ObjectData {
    pub x: i16,
    pub y: i16,
    pub tile: u8,
    pub palette: Palette,
    pub xflip: bool,
    pub yflip: bool,
    pub priority: bool,
}

#[derive(Copy, Clone, Debug, PartialEq, Eq, Structural)]
pub enum TileMapArea {
    X9800,
    X9C00,
}

/// The offset in video memory of a tile map.
pub open spec fn tile_map_offset(area: TileMapArea) -> u16 {
    match area {
        TileMapArea::X9800 => 0x1800,
        TileMapArea::X9C00 => 0x1C00,
    }
}

impl TileMapArea {
    pub fn offset(self) -> (offset: u16)
        ensures
            offset == tile_map_offset(self),
    {
        match self {
            TileMapArea::X9800 => 0x1800,
            TileMapArea::X9C00 => 0x1C00,
        }
    }
}

#[derive(Copy, Clone, Debug, PartialEq, Eq, Structural)]
pub enum ObjectSize {
    OS8X8,
    OS8X16,
}

#[derive(Copy, Clone, PartialEq, Eq, Debug, Structural)]
pub enum GpuMode {
    HorizontalBlank,
    VerticalBlank,
    OAMScan,
    DrawPixel,
}

/// The mode number that the status register shows.
pub open spec fn mode_number(mode: GpuMode) -> u8 {
    match mode {
        GpuMode::HorizontalBlank => 0,
        GpuMode::VerticalBlank => 1,
        GpuMode::OAMScan => 2,
        GpuMode::DrawPixel => 3,
    }
}

pub struct Gpu {
    // video memory: tile data and tile maps
    pub vram: Vec<u8>,
    // sprite attributes
    pub oam: Vec<u8>,

    // 0xFF40: LCD control register
    pub lcd_display_enabled: bool,
    pub window_tile_map_area: TileMapArea,
    pub window_display_enabled: bool,
    pub background_tile_data_area: bool,
    pub background_tile_map_area: TileMapArea,
    pub object_size: ObjectSize,
    pub object_display_enabled: bool,
    pub background_display_enabled: bool,

    // 0xFF41: LCD status register
    pub line_compare_it_enable: bool,
    pub oam_interrupt_enabled: bool,
    pub vblank_interrupt_enabled: bool,
    pub hblank_interrupt_enabled: bool,
    pub line_compare_state: bool,
    pub mode: GpuMode,

    // 0xFF42 - 0xFF43: viewport offsets (SCY, SCX)
    pub viewport_y_offset: u8,
    pub viewport_x_offset: u8,

    // 0xFF44: LY
    pub current_line: u8,

    // 0xFF45: LY compare
    pub compare_line: u8,

    // 0xFF47 - 0xFF49: palettes
    pub background_palette: Palette,
    pub object_palette_0: Palette,
    pub object_palette_1: Palette,

    // 0xFF4A - 0xFF4B: window position (WY, WX)
    pub window_x_offset: u8,
    pub window_y_offset: u8,

    // internal state
    pub cycles: u16,
    pub new_mode_flag: bool,
    pub vblank_line: u16,

    // output: one grey level per pixel, line after line
    pub frame_buffer: Vec<u8>,
}

#[verifier::ext_equal]
pub ghost struct GpuView {
    pub vram: Seq<u8>,
    pub oam: Seq<u8>,
    pub lcd_display_enabled: bool,
    pub window_tile_map_area: TileMapArea,
    pub window_display_enabled: bool,
    pub background_tile_data_area: bool,
    pub background_tile_map_area: TileMapArea,
    pub object_size: ObjectSize,
    pub object_display_enabled: bool,
    pub background_display_enabled: bool,
    pub line_compare_it_enable: bool,
    pub oam_interrupt_enabled: bool,
    pub vblank_interrupt_enabled: bool,
    pub hblank_interrupt_enabled: bool,
    pub line_compare_state: bool,
    pub mode: GpuMode,
    pub viewport_y_offset: u8,
    pub viewport_x_offset: u8,
    pub current_line: u8,
    pub compare_line: u8,
    pub background_palette: Palette,
    pub object_palette_0: Palette,
    pub object_palette_1: Palette,
    pub window_x_offset: u8,
    pub window_y_offset: u8,
    pub cycles: u16,
    pub new_mode_flag: bool,
    pub vblank_line: u16,
    pub frame_buffer: Seq<u8>,
}

impl View for Gpu {
    type V = GpuView;

    open spec fn view(&self) -> GpuView {
        GpuView {
            vram: self.vram@,
            oam: self.oam@,
            lcd_display_enabled: self.lcd_display_enabled,
            window_tile_map_area: self.window_tile_map_area,
            window_display_enabled: self.window_display_enabled,
            background_tile_data_area: self.background_tile_data_area,
            background_tile_map_area: self.background_tile_map_area,
            object_size: self.object_size,
            object_display_enabled: self.object_display_enabled,
            background_display_enabled: self.background_display_enabled,
            line_compare_it_enable: self.line_compare_it_enable,
            oam_interrupt_enabled: self.oam_interrupt_enabled,
            vblank_interrupt_enabled: self.vblank_interrupt_enabled,
            hblank_interrupt_enabled: self.hblank_interrupt_enabled,
            line_compare_state: self.line_compare_state,
            mode: self.mode,
            viewport_y_offset: self.viewport_y_offset,
            viewport_x_offset: self.viewport_x_offset,
            current_line: self.current_line,
            compare_line: self.compare_line,
            background_palette: self.background_palette,
            object_palette_0: self.object_palette_0,
            object_palette_1: self.object_palette_1,
            window_x_offset: self.window_x_offset,
            window_y_offset: self.window_y_offset,
            cycles: self.cycles,
            new_mode_flag: self.new_mode_flag,
            vblank_line: self.vblank_line,
            frame_buffer: self.frame_buffer@,
        }
    }
}

// ---------------------------------------------------------------------------
// The model of the line renderer.

/// The 2-bit value of pixel `bit` (7 = leftmost) of a tile row stored as two bytes.
pub open spec fn pixel_value(data_1: u8, data_0: u8, bit: u8) -> u8 {
    (((data_1 >> bit) & 0x01) << 1) | ((data_0 >> bit) & 0x01)
}

impl GpuView {
    pub open spec fn wf(self) -> bool {
        &&& self.vram.len() == VRAM_SIZE
        &&& self.oam.len() == OAM_SIZE
        &&& self.frame_buffer.len() == FRAME_BUFFER_SIZE
        &&& self.cycles < VERTICAL_BLANK_CYCLES
        &&& self.mode != GpuMode::VerticalBlank ==> self.current_line < SCREEN_HEIGHT
            && self.vblank_line == 0
        &&& self.mode == GpuMode::VerticalBlank ==> {
            &&& self.vblank_line <= 9
            &&& self.current_line == 143 + self.vblank_line
            &&& self.cycles < 456 * self.vblank_line + 456
        }
    }

    /// The state right after the cycles of a step are counted.
    pub open spec fn started(self) -> bool {
        &&& self.vram.len() == VRAM_SIZE
        &&& self.oam.len() == OAM_SIZE
        &&& self.frame_buffer.len() == FRAME_BUFFER_SIZE
        &&& self.cycles < VERTICAL_BLANK_CYCLES + 256
        &&& self.mode != GpuMode::VerticalBlank ==> self.current_line < SCREEN_HEIGHT
            && self.vblank_line == 0
        &&& self.mode == GpuMode::VerticalBlank ==> {
            &&& self.vblank_line <= 9
            &&& self.current_line == 143 + self.vblank_line
            &&& self.cycles < 456 * self.vblank_line + 456 + 256
        }
    }

    /// Whether screen column `x` of the current line shows the window: the window
    /// starts at line WY and at column WX - 7.
    pub open spec fn shows_window(self, x: int) -> bool {
        &&& self.window_display_enabled
        &&& self.window_y_offset <= self.current_line
        &&& x + WINDOW_X_OFFSET >= self.window_x_offset
    }

    /// The tile map and the coordinates, in the 256x256 map, that screen column `x` of
    /// the current line shows: the window's own coordinates, or the background's moved
    /// by the viewport offsets (wrapping around).
    pub open spec fn map_source(self, x: int) -> (u16, int, int) {
        if self.shows_window(x) {
            (
                tile_map_offset(self.window_tile_map_area),
                x + WINDOW_X_OFFSET - self.window_x_offset,
                self.current_line - self.window_y_offset,
            )
        } else {
            (
                tile_map_offset(self.background_tile_map_area),
                (x + self.viewport_x_offset) % 256,
                (self.current_line + self.viewport_y_offset) % 256,
            )
        }
    }

    /// The two bytes (high bit plane, low bit plane) of row `row` of a background tile
    /// whose data starts at `tile_mem_addr`: with the 0x8000 addressing the tile data
    /// block is the first 4 KiB of video memory; with the 0x8800 addressing the tiles
    /// 0-127 are taken from the block at 0x9000.
    pub open spec fn bg_tile_row(self, tile_mem_addr: int, row: int) -> (u8, u8) {
        let address = tile_mem_addr + row;
        let base: int = if !self.background_tile_data_area && address < 0x0800 {
            0x1000
        } else {
            0
        };
        (self.vram[base + address + 1], self.vram[base + address])
    }

    /// The 2-bit value of the background or window pixel at column `x` of the current line.
    pub open spec fn bg_pixel_value(self, x: int) -> u8 {
        let (map, px, py) = self.map_source(x);
        let tile_index = self.vram[map + (py / 8) * 32 + px / 8];
        let (data_1, data_0) = self.bg_tile_row(tile_index * 16, (py % 8) * 2);
        pixel_value(data_1, data_0, (7 - px % 8) as u8)
    }

    /// The value that the background leaves under the sprites at column `x`: 0 when
    /// the background is off.
    pub open spec fn bg_line_value(self, x: int) -> u8 {
        if self.background_display_enabled {
            self.bg_pixel_value(x)
        } else {
            0
        }
    }

    pub open spec fn sprite_height(self) -> int {
        if self.object_size == ObjectSize::OS8X16 {
            16
        } else {
            8
        }
    }

    /// The first screen line of sprite `s` (its Y byte minus 16).
    pub open spec fn sprite_top(self, s: int) -> int {
        self.oam[4 * s] - 16
    }

    /// The first screen column of sprite `s` (its X byte minus 8).
    pub open spec fn sprite_left(self, s: int) -> int {
        self.oam[4 * s + 1] - 8
    }

    pub open spec fn sprite_attributes(self, s: int) -> u8 {
        self.oam[4 * s + 3]
    }

    pub open spec fn sprite_on_line(self, s: int) -> bool {
        self.sprite_top(s) <= self.current_line <= self.sprite_top(s) + self.sprite_height() - 1
    }

    /// The sprites of the current line, by OAM index: the first ten, in OAM order, whose
    /// rows cover the line, among sprites 0..k.
    pub open spec fn line_sprites(self, k: nat) -> Seq<int>
        decreases k,
    {
        if k == 0 {
            seq![]
        } else {
            let before = self.line_sprites((k - 1) as nat);
            if before.len() < NB_SPRITES_TO_DISPLAY_MAX && self.sprite_on_line(k - 1) {
                before.push(k - 1)
            } else {
                before
            }
        }
    }

    /// The address in video memory of the tile row of sprite `s` on the current line,
    /// flipped vertically when its attribute says so.
    pub open spec fn sprite_row_address(self, s: int) -> int {
        let row = self.current_line - self.sprite_top(s);
        let flipped = if self.sprite_attributes(s) & 0x40 != 0 {
            self.sprite_height() - 1 - row
        } else {
            row
        };
        self.oam[4 * s + 2] * 16 + flipped * 2
    }

    /// The 2-bit value of pixel `offset` (0 = leftmost on screen) of sprite `s` on the
    /// current line, flipped horizontally when its attribute says so.
    pub open spec fn sprite_pixel_value(self, s: int, offset: int) -> u8 {
        let address = self.sprite_row_address(s);
        let bit = if self.sprite_attributes(s) & 0x20 != 0 {
            offset
        } else {
            7 - offset
        };
        pixel_value(self.vram[address + 1], self.vram[address], bit as u8)
    }

    /// Whether sprite `s` draws a pixel at screen column `x` of the current line.
    pub open spec fn sprite_draws(self, s: int, x: int) -> bool {
        &&& self.sprite_left(s) <= x < self.sprite_left(s) + 8
        &&& self.sprite_pixel_value(s, x - self.sprite_left(s)) != PIXEL_TRANSPARENT
    }

    /// The grey level that sprite `s` leaves at column `x`: its own colour, unless it
    /// sits behind the background and the background is not colour 0 there.
    pub open spec fn sprite_output(self, s: int, x: int) -> u8 {
        let attributes = self.sprite_attributes(s);
        let bg_value = self.bg_line_value(x);
        if attributes & 0x80 == 0 || bg_value == PIXEL_TRANSPARENT {
            let palette = if attributes & 0x10 != 0 {
                self.object_palette_1
            } else {
                self.object_palette_0
            };
            shade(palette_color(palette, self.sprite_pixel_value(s, x - self.sprite_left(s)) as int))
        } else {
            shade(palette_color(self.background_palette, bg_value as int))
        }
    }

    /// The first sprite, in the order of `sprites`, that draws at column `x`; it is the one
    /// seen, the earlier sprites of the sprite memory having the priority.
    pub open spec fn first_drawing(self, sprites: Seq<int>, x: int) -> Option<int>
        decreases sprites.len(),
    {
        if sprites.len() == 0 {
            None
        } else if self.sprite_draws(sprites[0], x) {
            Some(sprites[0])
        } else {
            self.first_drawing(sprites.drop_first(), x)
        }
    }

    /// The grey level of column `x` of the current line once drawn, `previous` being its
    /// level before.
    pub open spec fn line_pixel(self, x: int, previous: u8) -> u8 {
        let sprite = if self.object_display_enabled {
            self.first_drawing(self.line_sprites(40), x)
        } else {
            None
        };
        match sprite {
            Some(s) => self.sprite_output(s, x),
            None => if self.background_display_enabled {
                shade(palette_color(self.background_palette, self.bg_pixel_value(x) as int))
            } else {
                previous
            },
        }
    }

    /// The frame buffer once the current line is drawn: only that line changes.
    pub open spec fn drawn_frame(self) -> Seq<u8> {
        Seq::new(
            FRAME_BUFFER_SIZE as nat,
            |i: int|
                if i / 160 == self.current_line {
                    self.line_pixel(i % 160, self.frame_buffer[i])
                } else {
                    self.frame_buffer[i]
                },
        )
    }

    pub open spec fn with_line_drawn(self) -> GpuView {
        GpuView { frame_buffer: self.drawn_frame(), ..self }
    }
}


// ---------------------------------------------------------------------------
// The model of the registers and of the mode state machine.

pub open spec fn area_bit(area: TileMapArea) -> u8 {
    if area == TileMapArea::X9C00 {
        1
    } else {
        0
    }
}

pub open spec fn flag_bit(flag: bool) -> u8 {
    if flag {
        1
    } else {
        0
    }
}

pub open spec fn area_from_bit(set: bool) -> TileMapArea {
    if set {
        TileMapArea::X9C00
    } else {
        TileMapArea::X9800
    }
}

/// Whether bit `k` of a byte is set.
pub open spec fn bit_set(data: u8, k: u8) -> bool {
    data & (1u8 << k) != 0
}

impl GpuView {
    /// The LCD control register as it reads (LCDC, 0xFF40).
    pub open spec fn control_byte(self) -> u8 {
        (flag_bit(self.lcd_display_enabled) << 7u8) | (area_bit(self.window_tile_map_area) << 6u8)
            | (flag_bit(self.window_display_enabled) << 5u8) | (flag_bit(
            self.background_tile_data_area,
        ) << 4u8) | (area_bit(self.background_tile_map_area) << 3u8) | (flag_bit(
            self.object_size == ObjectSize::OS8X16,
        ) << 2u8) | (flag_bit(self.object_display_enabled) << 1u8) | flag_bit(
            self.background_display_enabled,
        )
    }

    /// The settings that a byte written to the LCD control register selects.
    pub open spec fn with_control(self, data: u8) -> GpuView {
        GpuView {
            lcd_display_enabled: bit_set(data, 7),
            window_tile_map_area: area_from_bit(bit_set(data, 6)),
            window_display_enabled: bit_set(data, 5),
            background_tile_data_area: bit_set(data, 4),
            background_tile_map_area: area_from_bit(bit_set(data, 3)),
            object_size: if bit_set(data, 2) {
                ObjectSize::OS8X16
            } else {
                ObjectSize::OS8X8
            },
            object_display_enabled: bit_set(data, 1),
            background_display_enabled: bit_set(data, 0),
            ..self
        }
    }

    /// The LCD status register as it reads (STAT, 0xFF41): bit 7 set, the four interrupt
    /// enables, the coincidence flag, and the mode number masked by 0x11.
    pub open spec fn status_byte(self) -> u8 {
        0x80u8 | (flag_bit(self.line_compare_it_enable) << 6u8) | (flag_bit(
            self.oam_interrupt_enabled,
        ) << 5u8) | (flag_bit(self.vblank_interrupt_enabled) << 4u8) | (flag_bit(
            self.hblank_interrupt_enabled,
        ) << 3u8) | (flag_bit(self.line_compare_state) << 2u8) | (mode_number(self.mode) & 0x11u8)
    }

    /// The interrupt enables that a byte written to the status register selects.
    pub open spec fn with_status(self, data: u8) -> GpuView {
        GpuView {
            line_compare_it_enable: bit_set(data, 6),
            oam_interrupt_enabled: bit_set(data, 5),
            vblank_interrupt_enabled: bit_set(data, 4),
            hblank_interrupt_enabled: bit_set(data, 3),
            ..self
        }
    }

    /// Horizontal blank (204 ticks): then the next line's sprite scan, or vertical blank
    /// after line 143. The STAT interrupt is requested on the first step of the mode when
    /// enabled, and when the new line matches LYC and the coincidence interrupt is enabled.
    pub open spec fn step_hblank(self, nvic: Nvic) -> (GpuView, Nvic) {
        let entry_interrupt = self.new_mode_flag && self.hblank_interrupt_enabled;
        let end = self.cycles >= HORIZONTAL_BLANK_CYCLES;
        let next_line = end && self.current_line < SCREEN_HEIGHT - 1;
        let line = if next_line {
            (self.current_line + 1) as u8
        } else {
            self.current_line
        };
        let coincidence = line == self.compare_line;
        let compare_interrupt = next_line && coincidence && self.line_compare_it_enable;
        let n1 = if entry_interrupt {
            nvic.with_request(InterruptSources::STAT)
        } else {
            nvic
        };
        (
            GpuView {
                new_mode_flag: end || (!entry_interrupt && self.new_mode_flag),
                cycles: if end {
                    (self.cycles % HORIZONTAL_BLANK_CYCLES) as u16
                } else {
                    self.cycles
                },
                current_line: line,
                line_compare_state: if next_line {
                    coincidence
                } else {
                    self.line_compare_state
                },
                mode: if next_line {
                    GpuMode::OAMScan
                } else if end {
                    GpuMode::VerticalBlank
                } else {
                    GpuMode::HorizontalBlank
                },
                ..self
            },
            if compare_interrupt {
                n1.with_request(InterruptSources::STAT)
            } else {
                n1
            },
        )
    }

    /// Vertical blank (ten lines, 4560 ticks): requests the VBLANK interrupt (and STAT when
    /// enabled) on its first step, counts the lines with the coincidence check, then starts
    /// a new frame.
    pub open spec fn step_vblank(self, nvic: Nvic) -> (GpuView, Nvic) {
        let entry = self.new_mode_flag;
        let next_line = (self.cycles as int) / (456 * self.vblank_line + 456) != 0;
        let line = if next_line {
            (self.current_line + 1) as u8
        } else {
            self.current_line
        };
        let coincidence = line == self.compare_line;
        let compare_interrupt = next_line && coincidence && self.line_compare_it_enable;
        let end = self.cycles >= VERTICAL_BLANK_CYCLES;
        let n1 = if entry {
            nvic.with_request(InterruptSources::VBLANK)
        } else {
            nvic
        };
        let n2 = if entry && self.vblank_interrupt_enabled {
            n1.with_request(InterruptSources::STAT)
        } else {
            n1
        };
        (
            GpuView {
                new_mode_flag: end,
                line_compare_state: if next_line {
                    coincidence
                } else {
                    self.line_compare_state
                },
                cycles: if end {
                    (self.cycles % VERTICAL_BLANK_CYCLES) as u16
                } else {
                    self.cycles
                },
                current_line: if end {
                    0
                } else {
                    line
                },
                vblank_line: if end {
                    0
                } else if next_line {
                    (self.vblank_line + 1) as u16
                } else {
                    self.vblank_line
                },
                mode: if end {
                    GpuMode::OAMScan
                } else {
                    GpuMode::VerticalBlank
                },
                ..self
            },
            if compare_interrupt {
                n2.with_request(InterruptSources::STAT)
            } else {
                n2
            },
        )
    }

    /// The STAT interrupt of a mode is requested once, on the first step in that mode.
    pub open spec fn mode_entered(self, nvic: Nvic, enabled: bool) -> (GpuView, Nvic) {
        if self.new_mode_flag && enabled {
            (GpuView { new_mode_flag: false, ..self }, nvic.with_request(InterruptSources::STAT))
        } else {
            (self, nvic)
        }
    }

    /// Sprite scan (80 ticks), then pixel transfer.
    pub open spec fn step_oam_scan(self, nvic: Nvic) -> (GpuView, Nvic) {
        let (g, n) = self.mode_entered(nvic, self.oam_interrupt_enabled);
        if g.cycles >= OAM_SCAN_CYCLES {
            (
                GpuView {
                    cycles: (g.cycles % OAM_SCAN_CYCLES) as u16,
                    new_mode_flag: true,
                    mode: GpuMode::DrawPixel,
                    ..g
                },
                n,
            )
        } else {
            (g, n)
        }
    }

    /// Pixel transfer (172 ticks): the line is drawn at its end, then horizontal blank.
    pub open spec fn step_draw_pixel(self, nvic: Nvic) -> (GpuView, Nvic) {
        if self.cycles >= DRAW_PIXEL_CYCLES {
            let g = GpuView { cycles: (self.cycles % DRAW_PIXEL_CYCLES) as u16, ..self };
            (GpuView { mode: GpuMode::HorizontalBlank, ..g.with_line_drawn() }, nvic)
        } else {
            (self, nvic)
        }
    }

    /// The processor unit and the interrupt controller after `cycles` clock ticks. Nothing
    /// moves while the LCD is off.
    pub open spec fn run(self, nvic: Nvic, cycles: u8) -> (GpuView, Nvic) {
        if !self.lcd_display_enabled {
            (self, nvic)
        } else {
            let g = GpuView { cycles: (self.cycles + cycles) as u16, ..self };
            match g.mode {
                GpuMode::HorizontalBlank => g.step_hblank(nvic),
                GpuMode::VerticalBlank => g.step_vblank(nvic),
                GpuMode::OAMScan => g.step_oam_scan(nvic),
                GpuMode::DrawPixel => g.step_draw_pixel(nvic),
            }
        }
    }
}

pub open spec fn initial_gpu() -> GpuView {
    GpuView {
        vram: Seq::new(VRAM_SIZE as nat, |i: int| 0xFFu8),
        oam: Seq::new(OAM_SIZE as nat, |i: int| 0xFFu8),
        lcd_display_enabled: false,
        window_tile_map_area: TileMapArea::X9800,
        window_display_enabled: false,
        background_tile_data_area: false,
        background_tile_map_area: TileMapArea::X9800,
        object_size: ObjectSize::OS8X8,
        object_display_enabled: false,
        background_display_enabled: false,
        line_compare_it_enable: false,
        oam_interrupt_enabled: false,
        vblank_interrupt_enabled: false,
        hblank_interrupt_enabled: false,
        line_compare_state: false,
        mode: GpuMode::OAMScan,
        viewport_y_offset: 0,
        viewport_x_offset: 0,
        current_line: 0,
        compare_line: 0,
        background_palette: default_palette(),
        object_palette_0: default_palette(),
        object_palette_1: default_palette(),
        window_x_offset: 0,
        window_y_offset: 0,
        cycles: 0,
        new_mode_flag: true,
        vblank_line: 0,
        frame_buffer: Seq::new(FRAME_BUFFER_SIZE as nat, |i: int| 0u8),
    }
}

/// The position in the frame buffer of column `x` of line `y`.
pub proof fn lemma_pixel_index(y: int, x: int)
    requires
        0 <= x < 160,
    ensures
        (y * 160 + x) / 160 == y,
        (y * 160 + x) % 160 == x,
{
    assert((y * 160 + x) / 160 == y && (y * 160 + x) % 160 == x) by (nonlinear_arith)
        requires
            0 <= x < 160,
    ;
}

/// A quotient is zero exactly when the dividend is below the divisor.
pub proof fn lemma_div_nonzero(a: int, d: int)
    requires
        0 <= a,
        0 < d,
    ensures
        (a / d != 0) == (a >= d),
{
    assert((a / d != 0) == (a >= d)) by (nonlinear_arith)
        requires
            0 <= a,
            0 < d,
    ;
}

/// Every position of the frame buffer is a column of a line.
pub proof fn lemma_pixel_position(i: int)
    requires
        0 <= i,
    ensures
        i == (i / 160) * 160 + i % 160,
        0 <= i % 160 < 160,
{
}

/// What a line selects: at most ten sprites, in increasing OAM order, each covering the line.
pub proof fn lemma_line_sprites(g: GpuView, k: nat)
    ensures
        g.line_sprites(k).len() <= NB_SPRITES_TO_DISPLAY_MAX,
        forall|j: int|
            0 <= j < g.line_sprites(k).len() ==> 0 <= #[trigger] g.line_sprites(k)[j] < k
                && g.sprite_on_line(g.line_sprites(k)[j]),
        forall|i: int, j: int|
            0 <= i < j < g.line_sprites(k).len() ==> g.line_sprites(k)[i] < g.line_sprites(k)[j],
    decreases k,
{
    if k > 0 {
        lemma_line_sprites(g, (k - 1) as nat);
    }
}


/// What a line leaves out: a sprite that covers the line is selected unless ten sprites
/// of lower OAM index already are.
pub proof fn lemma_line_sprites_complete(g: GpuView, k: nat, s: int)
    requires
        0 <= s < k,
        g.sprite_on_line(s),
        g.line_sprites(s as nat).len() < NB_SPRITES_TO_DISPLAY_MAX,
    ensures
        g.line_sprites(k).contains(s),
    decreases k,
{
    let before = g.line_sprites((k - 1) as nat);
    if s == k - 1 {
        assert(g.line_sprites(k) == before.push(s));
        assert(g.line_sprites(k)[before.len() as int] == s);
    } else {
        lemma_line_sprites_complete(g, (k - 1) as nat, s);
        let j = choose|j: int| 0 <= j < before.len() && before[j] == s;
        if before.len() < NB_SPRITES_TO_DISPLAY_MAX && g.sprite_on_line(k - 1) {
            assert(g.line_sprites(k)[j] == s);
        } else {
            assert(g.line_sprites(k) == before);
        }
    }
}

/// Sprite priority on a pixel: the sprite seen at column `x` is one of the line's sprites
/// that draws there, and no sprite before it in the line's (OAM) order draws there; when
/// none draws there, none is seen.
pub proof fn lemma_first_drawing(g: GpuView, sprites: Seq<int>, x: int)
    ensures
        match g.first_drawing(sprites, x) {
            Some(s) => exists|i: int|
                0 <= i < sprites.len() && #[trigger] sprites[i] == s && g.sprite_draws(s, x) && forall|j: int|
                    0 <= j < i ==> !g.sprite_draws(#[trigger] sprites[j], x),
            None => forall|j: int| 0 <= j < sprites.len() ==> !g.sprite_draws(#[trigger] sprites[j], x),
        },
    decreases sprites.len(),
{
    if sprites.len() > 0 && !g.sprite_draws(sprites[0], x) {
        let rest = sprites.drop_first();
        lemma_first_drawing(g, rest, x);
        match g.first_drawing(rest, x) {
            Some(s) => {
                let i = choose|i: int|
                    0 <= i < rest.len() && #[trigger] rest[i] == s && g.sprite_draws(s, x) && forall|j: int|
                        0 <= j < i ==> !g.sprite_draws(#[trigger] rest[j], x);
                assert(sprites[i + 1] == s);
                assert forall|j: int| 0 <= j < i + 1 implies !g.sprite_draws(#[trigger] sprites[j], x) by {
                    if j > 0 {
                        assert(sprites[j] == rest[j - 1]);
                    }
                }
            },
            None => {
                assert forall|j: int| 0 <= j < sprites.len() implies !g.sprite_draws(#[trigger] sprites[j], x) by {
                    if j > 0 {
                        assert(sprites[j] == rest[j - 1]);
                    }
                }
            },
        }
    } else if sprites.len() > 0 {
        assert(sprites[0] == sprites[0]);
    }
}

// ---------------------------------------------------------------------------
// The implementation.

impl Gpu {
    pub fn new() -> (gpu: Gpu)
        ensures
            gpu@ == initial_gpu(),
            gpu@.wf(),
    {
        let gpu = Gpu {
            vram: vec![0xFFu8; VRAM_SIZE],
            oam: vec![0xFFu8; OAM_SIZE],
            lcd_display_enabled: false,
            window_tile_map_area: TileMapArea::X9800,
            window_display_enabled: false,
            background_tile_data_area: false,
            background_tile_map_area: TileMapArea::X9800,
            object_size: ObjectSize::OS8X8,
            object_display_enabled: false,
            background_display_enabled: false,
            line_compare_it_enable: false,
            oam_interrupt_enabled: false,
            vblank_interrupt_enabled: false,
            hblank_interrupt_enabled: false,
            line_compare_state: false,
            mode: GpuMode::OAMScan,
            viewport_y_offset: 0,
            viewport_x_offset: 0,
            current_line: 0,
            compare_line: 0,
            background_palette: Palette::new(),
            object_palette_0: Palette::new(),
            object_palette_1: Palette::new(),
            window_x_offset: 0,
            window_y_offset: 0,
            cycles: 0,
            new_mode_flag: true,
            vblank_line: 0,
            frame_buffer: vec![0u8; FRAME_BUFFER_SIZE],
        };
        assert(gpu.vram@ =~= Seq::new(VRAM_SIZE as nat, |i: int| 0xFFu8));
        assert(gpu.oam@ =~= Seq::new(OAM_SIZE as nat, |i: int| 0xFFu8));
        assert(gpu.frame_buffer@ =~= Seq::new(FRAME_BUFFER_SIZE as nat, |i: int| 0u8));
        gpu
    }

    pub fn read_vram(&self, address: u16) -> (data: u8)
        requires
            self@.wf(),
            address < VRAM_SIZE,
        ensures
            data == self@.vram[address as int],
    {
        self.vram[address as usize]
    }

    pub fn write_vram(&mut self, address: u16, data: u8)
        requires
            old(self)@.wf(),
            address < VRAM_SIZE,
        ensures
            final(self)@ == (GpuView { vram: old(self)@.vram.update(address as int, data), ..old(self)@ }),
    {
        self.vram.set(address as usize, data);
    }

    pub fn read_oam(&self, address: usize) -> (data: u8)
        requires
            self@.wf(),
            address < OAM_SIZE,
        ensures
            data == self@.oam[address as int],
    {
        self.oam[address]
    }

    pub fn write_oam(&mut self, address: usize, data: u8)
        requires
            old(self)@.wf(),
            address < OAM_SIZE,
        ensures
            final(self)@ == (GpuView { oam: old(self)@.oam.update(address as int, data), ..old(self)@ }),
    {
        self.oam.set(address, data);
    }

    #[verifier::spinoff_prover]
    fn enter_mode(&mut self, nvic: &mut Nvic, enabled: bool)
        ensures
            (final(self)@, *final(nvic)) == old(self)@.mode_entered(*old(nvic), enabled),
    {
        if self.new_mode_flag && enabled {
            self.new_mode_flag = false;
            nvic.set_interrupt(InterruptSources::STAT);
        }
    }

    /// Whether the line counter matches the compare register, in which case the STAT
    /// interrupt is requested when enabled.
    fn compare_line(&self, line: u8) -> (coincidence: bool)
        ensures
            coincidence == (line == self.compare_line),
    {
        line == self.compare_line
    }

    #[verifier::spinoff_prover]
    #[verifier::rlimit(100)]
    fn step_hblank(&mut self, nvic: &mut Nvic)
        requires
            old(self)@.started(),
            old(self).mode == GpuMode::HorizontalBlank,
        ensures
            final(self)@.wf(),
            (final(self)@, *final(nvic)) == old(self)@.step_hblank(*old(nvic)),
    {
        // the STAT interrupt of the mode, on its first step
        let entry_interrupt = self.new_mode_flag && self.hblank_interrupt_enabled;
        let flag = !entry_interrupt && self.new_mode_flag;
        // end of the mode: next line, or vertical blank after the last one
        let end = self.cycles >= HORIZONTAL_BLANK_CYCLES;
        let cycles = if end {
            self.cycles % HORIZONTAL_BLANK_CYCLES
        } else {
            self.cycles
        };
        let next_line = end && self.current_line < (SCREEN_HEIGHT - 1) as u8;
        let line = if next_line {
            self.current_line + 1
        } else {
            self.current_line
        };
        let coincidence = self.compare_line(line);
        let state = if next_line {
            coincidence
        } else {
            self.line_compare_state
        };
        let compare_interrupt = next_line && coincidence && self.line_compare_it_enable;
        let mode = if next_line {
            GpuMode::OAMScan
        } else if end {
            GpuMode::VerticalBlank
        } else {
            GpuMode::HorizontalBlank
        };
        if entry_interrupt {
            nvic.set_interrupt(InterruptSources::STAT);
        }
        if compare_interrupt {
            nvic.set_interrupt(InterruptSources::STAT);
        }
        self.new_mode_flag = end || flag;
        self.cycles = cycles;
        self.current_line = line;
        self.line_compare_state = state;
        self.mode = mode;
    }

    #[verifier::spinoff_prover]
    #[verifier::rlimit(100)]
    fn step_vblank(&mut self, nvic: &mut Nvic)
        requires
            old(self)@.started(),
            old(self).mode == GpuMode::VerticalBlank,
        ensures
            final(self)@.wf(),
            (final(self)@, *final(nvic)) == old(self)@.step_vblank(*old(nvic)),
    {
        // VBLANK (and STAT when enabled) on the first step of the mode
        let entry = self.new_mode_flag;
        let entry_stat = entry && self.vblank_interrupt_enabled;
        // a new line of the vertical blank: run the coincidence check
        let line_end = (self.vblank_line + 1) * ONE_LINE_CYCLES;
        assert(line_end == 456 * self.vblank_line + 456);
        proof {
            lemma_div_nonzero(self.cycles as int, line_end as int);
        }
        let next_line = self.cycles / line_end != 0;
        let vblank_line = if next_line {
            self.vblank_line + 1
        } else {
            self.vblank_line
        };
        let line = if next_line {
            self.current_line + 1
        } else {
            self.current_line
        };
        let coincidence = self.compare_line(line);
        let state = if next_line {
            coincidence
        } else {
            self.line_compare_state
        };
        let compare_interrupt = next_line && coincidence && self.line_compare_it_enable;
        // end of the mode: a new frame begins
        let end = self.cycles >= VERTICAL_BLANK_CYCLES;
        if entry {
            nvic.set_interrupt(InterruptSources::VBLANK);
        }
        if entry_stat {
            nvic.set_interrupt(InterruptSources::STAT);
        }
        if compare_interrupt {
            nvic.set_interrupt(InterruptSources::STAT);
        }
        self.new_mode_flag = end;
        self.line_compare_state = state;
        self.cycles = if end {
            self.cycles % VERTICAL_BLANK_CYCLES
        } else {
            self.cycles
        };
        self.current_line = if end {
            0
        } else {
            line
        };
        self.vblank_line = if end {
            0
        } else {
            vblank_line
        };
        self.mode = if end {
            GpuMode::OAMScan
        } else {
            GpuMode::VerticalBlank
        };
    }

    #[verifier::spinoff_prover]
    fn step_oam_scan(&mut self, nvic: &mut Nvic)
        requires
            old(self)@.started(),
            old(self).mode == GpuMode::OAMScan,
        ensures
            final(self)@.wf(),
            (final(self)@, *final(nvic)) == old(self)@.step_oam_scan(*old(nvic)),
    {
        let enabled = self.oam_interrupt_enabled;
        self.enter_mode(nvic, enabled);
        if self.cycles >= OAM_SCAN_CYCLES {
            self.cycles = self.cycles % OAM_SCAN_CYCLES;
            self.new_mode_flag = true;
            self.mode = GpuMode::DrawPixel;
        }
    }

    #[verifier::spinoff_prover]
    fn step_draw_pixel(&mut self, nvic: &mut Nvic)
        requires
            old(self)@.started(),
            old(self).mode == GpuMode::DrawPixel,
        ensures
            final(self)@.wf(),
            (final(self)@, *final(nvic)) == old(self)@.step_draw_pixel(*old(nvic)),
    {
        if self.cycles >= DRAW_PIXEL_CYCLES {
            self.cycles = self.cycles % DRAW_PIXEL_CYCLES;
            // draw the line at the end of the pixel transfer
            self.draw_line();
            self.mode = GpuMode::HorizontalBlank;
        }
    }

    #[verifier::spinoff_prover]
    pub fn run(&mut self, cycles: u8, nvic: &mut Nvic)
        requires
            old(self)@.wf(),
        ensures
            final(self)@.wf(),
            (final(self)@, *final(nvic)) == old(self)@.run(*old(nvic), cycles),
    {
        if self.lcd_display_enabled {
            // update GPU cycles counter
            self.cycles = self.cycles + cycles as u16;
            match self.mode {
                GpuMode::HorizontalBlank => self.step_hblank(nvic),
                GpuMode::VerticalBlank => self.step_vblank(nvic),
                GpuMode::OAMScan => self.step_oam_scan(nvic),
                GpuMode::DrawPixel => self.step_draw_pixel(nvic),
            }
        }
    }

    /// The two bytes of row `tile_row_offset` of the background tile whose data starts at
    /// `tile_mem_addr`, in the addressing mode that LCDC bit 4 selects.
    pub fn get_bg_tile_data(&self, tile_mem_addr: u16, tile_row_offset: u16) -> (data: (u8, u8))
        requires
            self@.wf(),
            tile_mem_addr + tile_row_offset + 1 < VRAM_SIZE,
        ensures
            data == self@.bg_tile_row(tile_mem_addr as int, tile_row_offset as int),
    {
        let address = tile_mem_addr + tile_row_offset;
        if !self.background_tile_data_area && address < 0x0800 {
            // $8800 addressing: tiles 0-127 come from the block at 0x9000
            (self.read_vram(0x1000 + address + 1), self.read_vram(0x1000 + address))
        } else {
            (self.read_vram(address + 1), self.read_vram(address))
        }
    }

    /// The 2-bit value of the background or window pixel at column `x` of the current line.
    fn background_pixel_value(&self, x: u8) -> (value: u8)
        requires
            self@.wf(),
            x < SCREEN_WIDTH,
        ensures
            value == self@.bg_pixel_value(x as int),
    {
        let line = self.current_line as u16;
        let column = x as u16;
        let (tile_map_area, pixel_x, pixel_y) = if self.window_display_enabled
            && self.window_y_offset <= self.current_line && column + (WINDOW_X_OFFSET as u16)
            >= self.window_x_offset as u16 {
            // window: its own coordinates
            (
                self.window_tile_map_area,
                column + (WINDOW_X_OFFSET as u16) - self.window_x_offset as u16,
                line - self.window_y_offset as u16,
            )
        } else {
            // background: moved by the viewport, wrapping around the 256x256 map
            (
                self.background_tile_map_area,
                (column + self.viewport_x_offset as u16) % 256,
                (line + self.viewport_y_offset as u16) % 256,
            )
        };
        // the tile index in the tile map
        let tile_map_index = (pixel_y / 8) * TILE_MAP_SIZE + pixel_x / 8;
        let tile_index = self.read_vram(tile_map_area.offset() + tile_map_index);
        // the tile row in the tile data
        let tile_mem_addr = (tile_index as u16) * TILE_SIZE_IN_BYTES;
        let tile_row_offset = (pixel_y % 8) * BYTES_PER_TILE_ROW;
        let (data_1, data_0) = self.get_bg_tile_data(tile_mem_addr, tile_row_offset);
        let bit = (7 - pixel_x % 8) as u8;
        (((data_1 >> bit) & 0x01) << 1) | ((data_0 >> bit) & 0x01)
    }

    pub fn get_bg_pixel_color_from_palette(&self, pixel_value: u8) -> (level: u8)
        ensures
            level == shade(palette_color(self.background_palette, pixel_value as int)),
    {
        self.background_palette.color(pixel_value).value()
    }

    pub fn get_object_pixel_color_from_palette(&self, pixel_value: u8, sprite_palette_idx: bool) -> (level: u8)
        ensures
            level == shade(
                palette_color(
                    if sprite_palette_idx {
                        self.object_palette_1
                    } else {
                        self.object_palette_0
                    },
                    pixel_value as int,
                ),
            ),
    {
        if sprite_palette_idx {
            self.object_palette_1.color(pixel_value).value()
        } else {
            self.object_palette_0.color(pixel_value).value()
        }
    }

    /// The sprites of the current line, as OAM indices.
    fn select_sprites(&self) -> (sprites: Vec<u16>)
        requires
            self@.wf(),
        ensures
            sprites@.len() == self@.line_sprites(40).len(),
            forall|j: int| 0 <= j < sprites@.len() ==> sprites@[j] as int == self@.line_sprites(40)[j],
    {
        let mut sprites: Vec<u16> = Vec::new();
        let mut index: u16 = 0;
        let line = self.current_line as i16;
        while index < NB_SPRITES_IN_OAM
            invariant
                self@.wf(),
                index <= NB_SPRITES_IN_OAM,
                line == self.current_line,
                sprites@.len() == self@.line_sprites(index as nat).len(),
                forall|j: int|
                    0 <= j < sprites@.len() ==> sprites@[j] as int == self@.line_sprites(index as nat)[j],
            decreases NB_SPRITES_IN_OAM - index,
        {
            proof {
                lemma_line_sprites(self@, index as nat);
            }
            if sprites.len() < NB_SPRITES_TO_DISPLAY_MAX {
                let address = (index * SPRITE_ATTRIBUTES_SIZE_IN_BYTES) as usize;
                // first and last line of the sprite
                let top = self.read_oam(address) as i16 - 16;
                let bottom = match self.object_size {
                    ObjectSize::OS8X8 => top + 7,
                    ObjectSize::OS8X16 => top + 15,
                };
                if line >= top && line <= bottom {
                    sprites.push(index);
                }
            }
            index = index + 1;
        }
        sprites
    }

    /// Draws the pixels of sprite `sprite` into `line`, the pixels of the current line.
    #[verifier::spinoff_prover]
    fn draw_sprite(&self, sprite: u16, bg_line: &Vec<u8>, line: &mut Vec<u8>)
        requires
            self@.wf(),
            self.current_line < SCREEN_HEIGHT,
            sprite < NB_SPRITES_IN_OAM,
            self@.sprite_on_line(sprite as int),
            bg_line@.len() == SCREEN_WIDTH,
            forall|x: int| 0 <= x < SCREEN_WIDTH ==> bg_line@[x] == self@.bg_line_value(x),
            old(line)@.len() == SCREEN_WIDTH,
        ensures
            final(line)@.len() == SCREEN_WIDTH,
            forall|x: int|
                0 <= x < SCREEN_WIDTH ==> #[trigger] final(line)@[x] == if self@.sprite_draws(
                    sprite as int,
                    x,
                ) {
                    self@.sprite_output(sprite as int, x)
                } else {
                    old(line)@[x]
                },
    {
        let ghost g = self@;
        let s = sprite as usize;
        let current_line = self.current_line;
        let top = self.read_oam(4 * s) as i16 - 16;
        let left = self.read_oam(4 * s + 1) as i16 - 8;
        let tile = self.read_oam(4 * s + 2);
        let attributes = self.read_oam(4 * s + 3);
        let height: i16 = match self.object_size {
            ObjectSize::OS8X8 => 8,
            ObjectSize::OS8X16 => 16,
        };
        let sprite_bg_over = (attributes & 0x80) != 0;
        let sprite_y_flip = (attributes & 0x40) != 0;
        let sprite_x_flip = (attributes & 0x20) != 0;
        let sprite_palette_idx = (attributes & 0x10) != 0;
        // the tile row of the sprite on this line
        let row = (current_line as i16 - top) as u16;
        let flipped_row = if sprite_y_flip {
            (height as u16) - 1 - row
        } else {
            row
        };
        let address = (tile as u16) * TILE_SIZE_IN_BYTES + flipped_row * BYTES_PER_TILE_ROW;
        let data_0 = self.read_vram(address);
        let data_1 = self.read_vram(address + 1);
        assert(address as int == g.sprite_row_address(sprite as int));
        let mut offset: u8 = 0;
        while offset < TILE_ROW_SIZE_IN_PIXEL
            invariant
                g == self@,
                g.wf(),
                offset <= 8,
                left == g.sprite_left(sprite as int),
                attributes == g.sprite_attributes(sprite as int),
                sprite_bg_over == (attributes & 0x80 != 0),
                sprite_x_flip == (attributes & 0x20 != 0),
                sprite_palette_idx == (attributes & 0x10 != 0),
                data_0 == g.vram[g.sprite_row_address(sprite as int)],
                data_1 == g.vram[g.sprite_row_address(sprite as int) + 1],
                bg_line@.len() == SCREEN_WIDTH,
                forall|x: int| 0 <= x < SCREEN_WIDTH ==> bg_line@[x] == g.bg_line_value(x),
                line@.len() == SCREEN_WIDTH,
                forall|x: int|
                    0 <= x < SCREEN_WIDTH ==> #[trigger] line@[x] == if left <= x < left + offset
                        && g.sprite_draws(sprite as int, x) {
                        g.sprite_output(sprite as int, x)
                    } else {
                        old(line)@[x]
                    },
            decreases 8 - offset,
        {
            let bit = if sprite_x_flip {
                offset
            } else {
                7 - offset
            };
            let pixel_value = (((data_1 >> bit) & 0x01) << 1) | ((data_0 >> bit) & 0x01);
            let x = left + offset as i16;
            if x >= 0 && x < SCREEN_WIDTH as i16 && pixel_value != PIXEL_TRANSPARENT {
                let column = x as usize;
                let level = if !sprite_bg_over || bg_line[column] == PIXEL_TRANSPARENT {
                    self.get_object_pixel_color_from_palette(pixel_value, sprite_palette_idx)
                } else {
                    self.get_bg_pixel_color_from_palette(bg_line[column])
                };
                line.set(column, level);
            }
            offset = offset + 1;
        }
    }

    /// Draws the current line into the frame buffer: the background or window, then the
    /// sprites of the line.
    #[verifier::spinoff_prover]
    pub fn draw_line(&mut self)
        requires
            old(self)@.wf(),
            old(self).current_line < SCREEN_HEIGHT,
        ensures
            final(self)@ == old(self)@.with_line_drawn(),
    {
        let ghost g = self@;
        let current_line = self.current_line;
        let first = (current_line as usize) * SCREEN_WIDTH;
        proof {
            lemma_pixel_index(current_line as int, 0);
        }
        // the pixels of the line as they stand
        let mut line: Vec<u8> = Vec::new();
        let mut x: usize = 0;
        while x < SCREEN_WIDTH
            invariant
                g == self@,
                g.wf(),
                first == g.current_line * 160,
                g.current_line < SCREEN_HEIGHT,
                x <= SCREEN_WIDTH,
                line@.len() == x,
                forall|i: int| 0 <= i < x ==> line@[i] == g.frame_buffer[first + i],
            decreases SCREEN_WIDTH - x,
        {
            line.push(self.frame_buffer[first + x]);
            x = x + 1;
        }
        // the background or the window
        let mut bg_line: Vec<u8> = vec![0u8; SCREEN_WIDTH];
        if self.background_display_enabled {
            let mut x: usize = 0;
            while x < SCREEN_WIDTH
                invariant
                    g == self@,
                    g.wf(),
                    g.background_display_enabled,
                    x <= SCREEN_WIDTH,
                    bg_line@.len() == SCREEN_WIDTH,
                    line@.len() == SCREEN_WIDTH,
                    forall|i: int| 0 <= i < x ==> bg_line@[i] == g.bg_pixel_value(i),
                    forall|i: int|
                        0 <= i < SCREEN_WIDTH ==> #[trigger] line@[i] == if i < x {
                            shade(palette_color(g.background_palette, g.bg_pixel_value(i) as int))
                        } else {
                            g.frame_buffer[first + i]
                        },
                decreases SCREEN_WIDTH - x,
            {
                let pixel_value = self.background_pixel_value(x as u8);
                let level = self.get_bg_pixel_color_from_palette(pixel_value);
                line.set(x, level);
                bg_line.set(x, pixel_value);
                x = x + 1;
            }
        }
        let ghost after_bg = line@;
        assert forall|i: int| 0 <= i < SCREEN_WIDTH implies bg_line@[i] == g.bg_line_value(i) by {}
        // the sprites, the one of highest priority drawn last
        if self.object_display_enabled {
            let sprites = self.select_sprites();
            let ghost selected = g.line_sprites(40);
            proof {
                lemma_line_sprites(g, 40);
            }
            let mut k = sprites.len();
            while k > 0
                invariant
                    g == self@,
                    g.wf(),
                    g.current_line < SCREEN_HEIGHT,
                    k <= sprites@.len(),
                    selected == g.line_sprites(40),
                    sprites@.len() == selected.len(),
                    forall|j: int| 0 <= j < sprites@.len() ==> sprites@[j] as int == selected[j],
                    forall|j: int|
                        0 <= j < selected.len() ==> 0 <= #[trigger] selected[j] < 40 && g.sprite_on_line(
                            selected[j],
                        ),
                    bg_line@.len() == SCREEN_WIDTH,
                    forall|x: int| 0 <= x < SCREEN_WIDTH ==> bg_line@[x] == g.bg_line_value(x),
                    line@.len() == SCREEN_WIDTH,
                    forall|x: int|
                        0 <= x < SCREEN_WIDTH ==> #[trigger] line@[x] == match g.first_drawing(
                            selected.subrange(k as int, selected.len() as int),
                            x,
                        ) {
                            Some(s) => g.sprite_output(s, x),
                            None => after_bg[x],
                        },
                decreases k,
            {
                k = k - 1;
                let sprite = sprites[k];
                assert(sprites@[k as int] as int == selected[k as int]);
                assert(0 <= selected[k as int] < 40 && g.sprite_on_line(selected[k as int]));
                self.draw_sprite(sprite, &bg_line, &mut line);
                proof {
                    let tail = selected.subrange(k as int + 1, selected.len() as int);
                    let longer = selected.subrange(k as int, selected.len() as int);
                    assert(longer.drop_first() =~= tail);
                    assert(longer[0] == sprite as int);
                }
            }
            assert(selected.subrange(0, selected.len() as int) =~= selected);
        }
        assert forall|x: int| 0 <= x < SCREEN_WIDTH implies #[trigger] line@[x] == g.line_pixel(
            x,
            g.frame_buffer[first + x],
        ) by {}
        // the line into the frame buffer
        let mut x: usize = 0;
        while x < SCREEN_WIDTH
            invariant
                g.wf(),
                first == g.current_line * 160,
                g.current_line < SCREEN_HEIGHT,
                x <= SCREEN_WIDTH,
                self@ == (GpuView { frame_buffer: self@.frame_buffer, ..g }),
                self@.frame_buffer.len() == FRAME_BUFFER_SIZE,
                line@.len() == SCREEN_WIDTH,
                forall|i: int|
                    0 <= i < SCREEN_WIDTH ==> #[trigger] line@[i] == g.line_pixel(i, g.frame_buffer[first + i]),
                forall|i: int|
                    0 <= i < FRAME_BUFFER_SIZE ==> #[trigger] self@.frame_buffer[i] == if first <= i < first + x {
                        line@[i - first]
                    } else {
                        g.frame_buffer[i]
                    },
            decreases SCREEN_WIDTH - x,
        {
            self.frame_buffer.set(first + x, line[x]);
            x = x + 1;
        }
        assert forall|i: int| 0 <= i < FRAME_BUFFER_SIZE implies #[trigger] self@.frame_buffer[i]
            == g.drawn_frame()[i] by {
            lemma_pixel_position(i);
            if first <= i < first + 160 {
                lemma_pixel_index(g.current_line as int, i - first);
            } else {
                if i / 160 == g.current_line {
                    assert(i == first + i % 160);
                }
            }
        }
        assert(self@.frame_buffer =~= g.drawn_frame());
    }

    pub fn control_from_byte(&mut self, data: u8)
        ensures
            final(self)@ == old(self)@.with_control(data),
    {
        self.lcd_display_enabled = data & 0x80 != 0;
        self.window_tile_map_area = if data & 0x40 != 0 {
            TileMapArea::X9C00
        } else {
            TileMapArea::X9800
        };
        self.window_display_enabled = data & 0x20 != 0;
        self.background_tile_data_area = data & 0x10 != 0;
        self.background_tile_map_area = if data & 0x08 != 0 {
            TileMapArea::X9C00
        } else {
            TileMapArea::X9800
        };
        self.object_size = if data & 0x04 != 0 {
            ObjectSize::OS8X16
        } else {
            ObjectSize::OS8X8
        };
        self.object_display_enabled = data & 0x02 != 0;
        self.background_display_enabled = data & 0x01 != 0;
        proof {
            lemma_bit_masks(data);
        }
    }

    pub fn control_to_byte(&self) -> (data: u8)
        ensures
            data == self@.control_byte(),
    {
        let window_tile_map_area_bit: u8 = if self.window_tile_map_area == TileMapArea::X9C00 {
            1
        } else {
            0
        };
        let background_tile_map_area_bit: u8 = if self.background_tile_map_area == TileMapArea::X9C00 {
            1
        } else {
            0
        };
        let object_size_bit: u8 = if self.object_size == ObjectSize::OS8X16 {
            1
        } else {
            0
        };
        ((self.lcd_display_enabled as u8) << 7u8) | (window_tile_map_area_bit << 6u8) | ((
        self.window_display_enabled as u8) << 5u8) | ((self.background_tile_data_area as u8) << 4u8)
            | (background_tile_map_area_bit << 3u8) | (object_size_bit << 2u8) | ((
        self.object_display_enabled as u8) << 1u8) | (self.background_display_enabled as u8)
    }

    pub fn status_from_byte(&mut self, data: u8)
        ensures
            final(self)@ == old(self)@.with_status(data),
    {
        self.line_compare_it_enable = data & 0x40 != 0;
        self.oam_interrupt_enabled = data & 0x20 != 0;
        self.vblank_interrupt_enabled = data & 0x10 != 0;
        self.hblank_interrupt_enabled = data & 0x08 != 0;
        proof {
            lemma_bit_masks(data);
        }
    }

    pub fn status_to_byte(&self) -> (data: u8)
        ensures
            data == self@.status_byte(),
    {
        let gpu_mode_bits: u8 = match self.mode {
            GpuMode::HorizontalBlank => 0,
            GpuMode::VerticalBlank => 1,
            GpuMode::OAMScan => 2,
            GpuMode::DrawPixel => 3,
        };
        0x80u8 | ((self.line_compare_it_enable as u8) << 6u8) | ((self.oam_interrupt_enabled as u8) << 5u8)
            | ((self.vblank_interrupt_enabled as u8) << 4u8) | ((self.hblank_interrupt_enabled as u8)
            << 3u8) | ((self.line_compare_state as u8) << 2u8) | (gpu_mode_bits & 0x11u8)
    }

    pub fn get_scy(&self) -> (data: u8)
        ensures
            data == self.viewport_y_offset,
    {
        self.viewport_y_offset
    }

    pub fn get_scx(&self) -> (data: u8)
        ensures
            data == self.viewport_x_offset,
    {
        self.viewport_x_offset
    }

    pub fn get_current_line(&self) -> (data: u8)
        ensures
            data == self.current_line,
    {
        self.current_line
    }

    pub fn get_compare_line(&self) -> (data: u8)
        ensures
            data == self.compare_line,
    {
        self.compare_line
    }

    pub fn set_scy(&mut self, data: u8)
        ensures
            final(self)@ == (GpuView { viewport_y_offset: data, ..old(self)@ }),
    {
        self.viewport_y_offset = data;
    }

    pub fn set_scx(&mut self, data: u8)
        ensures
            final(self)@ == (GpuView { viewport_x_offset: data, ..old(self)@ }),
    {
        self.viewport_x_offset = data;
    }

    pub fn set_compare_line(&mut self, data: u8)
        ensures
            final(self)@ == (GpuView { compare_line: data, ..old(self)@ }),
    {
        self.compare_line = data;
    }

    pub fn set_window_y(&mut self, data: u8)
        ensures
            final(self)@ == (GpuView { window_y_offset: data, ..old(self)@ }),
    {
        self.window_y_offset = data;
    }

    pub fn set_window_x(&mut self, data: u8)
        ensures
            final(self)@ == (GpuView { window_x_offset: data, ..old(self)@ }),
    {
        self.window_x_offset = data;
    }

    pub fn get_window_y(&self) -> (data: u8)
        ensures
            data == self.window_y_offset,
    {
        self.window_y_offset
    }

    pub fn get_window_x(&self) -> (data: u8)
        ensures
            data == self.window_x_offset,
    {
        self.window_x_offset
    }

    pub fn set_background_palette(&mut self, data: u8)
        ensures
            final(self)@ == (GpuView { background_palette: palette_from_byte(data), ..old(self)@ }),
    {
        self.background_palette = Palette::from_byte(data);
    }

    pub fn set_object_palette_0(&mut self, data: u8)
        ensures
            final(self)@ == (GpuView { object_palette_0: palette_from_byte(data), ..old(self)@ }),
    {
        self.object_palette_0 = Palette::from_byte(data);
    }

    pub fn set_object_palette_1(&mut self, data: u8)
        ensures
            final(self)@ == (GpuView { object_palette_1: palette_from_byte(data), ..old(self)@ }),
    {
        self.object_palette_1 = Palette::from_byte(data);
    }
}

/// The tile number of the 0x8800 addressing, read as a signed byte counted from 0x9000.
pub open spec fn signed_tile(tile: u8) -> int {
    if tile < 128 {
        tile as int
    } else {
        tile - 256
    }
}

/// The 2-bit value of bit `b` of a tile row whose bit planes are `high` and `low`.
pub open spec fn plane_bits(high: u8, low: u8, b: u8) -> int {
    2 * ((high >> b) & 1) + ((low >> b) & 1)
}

proof fn lemma_pixel_value_planes(high: u8, low: u8, b: u8)
    requires
        b < 8,
    ensures
        pixel_value(high, low, b) == plane_bits(high, low, b),
{
    assert(((((high >> b) & 0x01) << 1) | ((low >> b) & 0x01)) == 2 * ((high >> b) & 1) + ((low >> b)
        & 1)) by (bit_vector)
        requires
            b < 8,
    ;
}

/// The offset in video RAM of the tile map that a map area selects: 0x9800 or 0x9C00.
pub open spec fn map_offset(area: TileMapArea) -> int {
    if area == TileMapArea::X9C00 {
        0x1C00
    } else {
        0x1800
    }
}

/// The offset in video RAM of the data of a background or window tile: tile number times
/// 16 with the 0x8000 addressing, or the signed tile number times 16 from 0x9000 with the
/// 0x8800 addressing.
pub open spec fn tile_data_offset(unsigned_area: bool, tile: u8) -> int {
    if unsigned_area {
        16 * tile
    } else {
        0x1000 + 16 * signed_tile(tile)
    }
}

/// A background pixel: screen column `x` of the current line, where the window is not
/// shown, shows the map pixel at (x + SCX, LY + SCY), both modulo 256. Its tile is the
/// entry of the background map for that point, and its value is the bit of the tile row
/// counted from the left, high plane giving the high bit.
pub proof fn lemma_background_pixel(g: GpuView, x: int)
    requires
        g.vram.len() == VRAM_SIZE,
        0 <= x < SCREEN_WIDTH,
        !g.shows_window(x),
    ensures
        ({
            let px = (x + g.viewport_x_offset) % 256;
            let py = (g.current_line + g.viewport_y_offset) % 256;
            let tile = g.vram[map_offset(g.background_tile_map_area) + 32 * (py / 8) + px / 8];
            let row = tile_data_offset(g.background_tile_data_area, tile) + 2 * (py % 8);
            g.bg_pixel_value(x) == plane_bits(g.vram[row + 1], g.vram[row], (7 - px % 8) as u8)
        }),
{
    let px = (x + g.viewport_x_offset) % 256;
    let py = (g.current_line + g.viewport_y_offset) % 256;
    let tile = g.vram[map_offset(g.background_tile_map_area) + 32 * (py / 8) + px / 8];
    let row = tile_data_offset(g.background_tile_data_area, tile) + 2 * (py % 8);
    let (d1, d0) = g.bg_tile_row(tile * 16, (py % 8) * 2);
    assert(d1 == g.vram[row + 1] && d0 == g.vram[row]);
    lemma_pixel_value_planes(d1, d0, (7 - px % 8) as u8);
}

/// A window pixel: where the window is shown (from line WY and column WX - 7 on), screen
/// column `x` of the current line shows the window map pixel at (x + 7 - WX, LY - WY),
/// with the tile data addressed as for the background.
pub proof fn lemma_window_pixel(g: GpuView, x: int)
    requires
        g.vram.len() == VRAM_SIZE,
        0 <= x < SCREEN_WIDTH,
        g.shows_window(x),
    ensures
        ({
            let px = x + 7 - g.window_x_offset;
            let py = g.current_line - g.window_y_offset;
            let tile = g.vram[map_offset(g.window_tile_map_area) + 32 * (py / 8) + px / 8];
            let row = tile_data_offset(g.background_tile_data_area, tile) + 2 * (py % 8);
            g.bg_pixel_value(x) == plane_bits(g.vram[row + 1], g.vram[row], (7 - px % 8) as u8)
        }),
{
    let px = x + 7 - g.window_x_offset;
    let py = g.current_line - g.window_y_offset;
    let tile = g.vram[map_offset(g.window_tile_map_area) + 32 * (py / 8) + px / 8];
    let (d1, d0) = g.bg_tile_row(tile * 16, (py % 8) * 2);
    lemma_pixel_value_planes(d1, d0, (7 - px % 8) as u8);
}

/// The grey level of a palette entry: the palette register holds colour code `c` of pixel
/// value `v` in bits 2v+1..2v, and codes 0, 1, 2, 3 are drawn 255, 192, 96 and 0.
pub proof fn lemma_palette_shade(data: u8, v: int)
    requires
        0 <= v < 4,
    ensures
        ({
            let code = (data as int / pow4(v)) % 4;
            shade(palette_color(palette_from_byte(data), v)) == if code == 0 {
                255int
            } else if code == 1 {
                192int
            } else if code == 2 {
                96int
            } else {
                0int
            }
        }),
{
}

/// 4 to the power `v`, for `v` below 4.
pub open spec fn pow4(v: int) -> int {
    if v == 0 {
        1
    } else if v == 1 {
        4
    } else if v == 2 {
        16
    } else {
        64
    }
}

/// Y flip mirrors a sprite vertically: with bit 6 of its attributes set, the tile row
/// that the sprite shows on line LY is the one that the same sprite without the flip
/// shows on the mirror line (the sprite's top + bottom - LY).
pub proof fn lemma_sprite_y_flip_mirrors(g: GpuView, s: int, mirror_line: u8)
    requires
        g.oam.len() == OAM_SIZE,
        0 <= s < NB_SPRITES_IN_OAM,
        g.sprite_attributes(s) & 0x40 != 0,
        mirror_line == 2 * g.sprite_top(s) + g.sprite_height() - 1 - g.current_line,
    ensures
        ({
            let plain = GpuView {
                oam: g.oam.update(4 * s + 3, g.sprite_attributes(s) & 0xBF),
                current_line: mirror_line,
                ..g
            };
            &&& plain.sprite_attributes(s) & 0x40 == 0
            &&& g.sprite_row_address(s) == plain.sprite_row_address(s)
        }),
{
    let attributes = g.sprite_attributes(s);
    let plain = GpuView {
        oam: g.oam.update(4 * s + 3, attributes & 0xBF),
        current_line: mirror_line,
        ..g
    };
    assert((attributes & 0xBF) & 0x40 == 0) by (bit_vector);
    assert(plain.oam[4 * s] == g.oam[4 * s]);
    assert(plain.oam[4 * s + 2] == g.oam[4 * s + 2]);
}

/// Where a sprite is and what colour it shows: sprite `s` covers the lines from its Y
/// byte minus 16 (8 lines, or 16 for 8x16 objects) and the columns from its X byte minus
/// 8 (8 columns); in front of the background (attribute bit 7 clear) or over a background
/// pixel of value 0 it takes the colour of its pixel from OBP1 when attribute bit 4 is
/// set and from OBP0 otherwise; behind any other background pixel, the background's
/// colour shows.
pub proof fn lemma_sprite_placement_and_colour(g: GpuView, s: int, x: int)
    ensures
        ({
            let y_byte = g.oam[4 * s];
            let x_byte = g.oam[4 * s + 1];
            let attributes = g.oam[4 * s + 3];
            let height = if g.object_size == ObjectSize::OS8X16 { 16int } else { 8int };
            let value = g.sprite_pixel_value(s, x - (x_byte - 8));
            let background = g.bg_line_value(x);
            let palette = if attributes & 0x10 != 0 { g.object_palette_1 } else { g.object_palette_0 };
            &&& g.sprite_on_line(s) == (y_byte - 16 <= g.current_line < y_byte - 16 + height)
            &&& g.sprite_draws(s, x) == (x_byte - 8 <= x < x_byte && value != 0)
            &&& (attributes & 0x80 == 0 || background == 0) ==> g.sprite_output(s, x) == shade(
                palette_color(palette, value as int),
            )
            &&& (attributes & 0x80 != 0 && background != 0) ==> g.sprite_output(s, x) == shade(
                palette_color(g.background_palette, background as int),
            )
        }),
{
}

/// Sprite pixels without X flip: the pixel at screen offset `k` of the sprite (0 =
/// leftmost) is bit `7 - k` of the two bytes of its tile row, the high byte giving the
/// pixel's high bit.
pub proof fn lemma_sprite_pixel_bits(g: GpuView, s: int, k: int)
    requires
        0 <= k < 8,
        g.sprite_attributes(s) & 0x20 == 0,
    ensures
        ({
            let address = g.sprite_row_address(s);
            let high = g.vram[address + 1];
            let low = g.vram[address];
            let b = (7 - k) as u8;
            g.sprite_pixel_value(s, k) == 2 * ((high >> b) & 1) + ((low >> b) & 1)
        }),
{
    let address = g.sprite_row_address(s);
    let high = g.vram[address + 1];
    let low = g.vram[address];
    let b = (7 - k) as u8;
    assert(((((high >> b) & 0x01) << 1) | ((low >> b) & 0x01)) == 2 * ((high >> b) & 1) + ((low
        >> b) & 1)) by (bit_vector)
        requires
            b < 8,
    ;
}

/// X flip mirrors a sprite: with bit 5 of its attributes set, the pixel at screen offset
/// `k` is the one that the same sprite without the flip shows at offset `7 - k`.
pub proof fn lemma_sprite_x_flip_mirrors(g: GpuView, s: int, k: int)
    requires
        g.oam.len() == OAM_SIZE,
        0 <= s < NB_SPRITES_IN_OAM,
        0 <= k < 8,
        g.sprite_attributes(s) & 0x20 != 0,
    ensures
        ({
            let plain = GpuView { oam: g.oam.update(4 * s + 3, g.sprite_attributes(s) & 0xDF), ..g };
            &&& plain.sprite_attributes(s) & 0x20 == 0
            &&& g.sprite_pixel_value(s, k) == plain.sprite_pixel_value(s, 7 - k)
        }),
{
    let attributes = g.sprite_attributes(s);
    let plain = GpuView { oam: g.oam.update(4 * s + 3, attributes & 0xDF), ..g };
    assert((attributes & 0xDF) & 0x20 == 0 && (((attributes & 0xDF) & 0x40 != 0) == (attributes
        & 0x40 != 0))) by (bit_vector);
    assert(plain.oam[4 * s] == g.oam[4 * s]);
    assert(plain.oam[4 * s + 1] == g.oam[4 * s + 1]);
    assert(plain.oam[4 * s + 2] == g.oam[4 * s + 2]);
    assert(plain.sprite_row_address(s) == g.sprite_row_address(s));
}

/// The single-bit masks, as shifts.
pub proof fn lemma_bit_masks(data: u8)
    ensures
        bit_set(data, 7) == (data & 0x80 != 0),
        bit_set(data, 6) == (data & 0x40 != 0),
        bit_set(data, 5) == (data & 0x20 != 0),
        bit_set(data, 4) == (data & 0x10 != 0),
        bit_set(data, 3) == (data & 0x08 != 0),
        bit_set(data, 2) == (data & 0x04 != 0),
        bit_set(data, 1) == (data & 0x02 != 0),
        bit_set(data, 0) == (data & 0x01 != 0),
{
    assert(1u8 << 7u8 == 0x80 && 1u8 << 6u8 == 0x40 && 1u8 << 5u8 == 0x20 && 1u8 << 4u8 == 0x10
        && 1u8 << 3u8 == 0x08 && 1u8 << 2u8 == 0x04 && 1u8 << 1u8 == 0x02 && 1u8 << 0u8 == 0x01)
        by (bit_vector);
}

/// What is written to the LCD control register reads back unchanged.
pub proof fn lemma_control_roundtrip(g: GpuView, data: u8)
    ensures
        g.with_control(data).control_byte() == data,
{
    lemma_bit_masks(data);
    let b7 = data & 0x80 != 0;
    let b6 = data & 0x40 != 0;
    let b5 = data & 0x20 != 0;
    let b4 = data & 0x10 != 0;
    let b3 = data & 0x08 != 0;
    let b2 = data & 0x04 != 0;
    let b1 = data & 0x02 != 0;
    let b0 = data & 0x01 != 0;
    assert(((if b7 { 1u8 } else { 0u8 }) << 7u8 | (if b6 { 1u8 } else { 0u8 }) << 6u8 | (if b5 {
        1u8
    } else {
        0u8
    }) << 5u8 | (if b4 { 1u8 } else { 0u8 }) << 4u8 | (if b3 { 1u8 } else { 0u8 }) << 3u8 | (if b2 {
        1u8
    } else {
        0u8
    }) << 2u8 | (if b1 { 1u8 } else { 0u8 }) << 1u8 | (if b0 { 1u8 } else { 0u8 })) == data)
        by (bit_vector)
        requires
            b7 == (data & 0x80 != 0),
            b6 == (data & 0x40 != 0),
            b5 == (data & 0x20 != 0),
            b4 == (data & 0x10 != 0),
            b3 == (data & 0x08 != 0),
            b2 == (data & 0x04 != 0),
            b1 == (data & 0x02 != 0),
            b0 == (data & 0x01 != 0),
    ;
}

/// The interrupt enables written to the status register (bits 3 to 6) read back
/// unchanged; bit 7 always reads as 1.
pub proof fn lemma_status_roundtrip(g: GpuView, data: u8)
    ensures
        g.with_status(data).status_byte() & 0x78 == data & 0x78,
        g.with_status(data).status_byte() & 0x80 == 0x80,
{
    lemma_bit_masks(data);
    let b6 = data & 0x40 != 0;
    let b5 = data & 0x20 != 0;
    let b4 = data & 0x10 != 0;
    let b3 = data & 0x08 != 0;
    let st = flag_bit(g.line_compare_state);
    let mode = mode_number(g.mode);
    assert(st <= 1);
    assert(mode <= 3);
    let byte = 0x80u8 | (if b6 { 1u8 } else { 0u8 }) << 6u8 | (if b5 { 1u8 } else { 0u8 }) << 5u8 | (if b4 {
        1u8
    } else {
        0u8
    }) << 4u8 | (if b3 { 1u8 } else { 0u8 }) << 3u8 | st << 2u8 | (mode & 0x11u8);
    assert(byte & 0x78 == data & 0x78 && byte & 0x80 == 0x80) by (bit_vector)
        requires
            byte == 0x80u8 | (if b6 { 1u8 } else { 0u8 }) << 6u8 | (if b5 { 1u8 } else { 0u8 }) << 5u8 | (
            if b4 {
                1u8
            } else {
                0u8
            }) << 4u8 | (if b3 { 1u8 } else { 0u8 }) << 3u8 | st << 2u8 | (mode & 0x11u8),
            st <= 1,
            mode <= 3,
            b6 == (data & 0x40 != 0),
            b5 == (data & 0x20 != 0),
            b4 == (data & 0x10 != 0),
            b3 == (data & 0x08 != 0),
    ;
}

/// Whether an interrupt controller is another with more requests: the enables and the
/// master enable are the same, and every request of the first is still there.
pub open spec fn only_more_requests(before: Nvic, after: Nvic) -> bool {
    &&& after.interrupt_master_enable == before.interrupt_master_enable
    &&& after.interrupt_enable == before.interrupt_enable
    &&& after.interrupt_flag & before.interrupt_flag == before.interrupt_flag
}

proof fn lemma_request_adds(n: Nvic, source: InterruptSources)
    ensures
        only_more_requests(n, n.with_request(source)),
{
    let flag = n.interrupt_flag;
    let mask = source_mask(source);
    assert((flag | mask) & flag == flag) by (bit_vector);
}

proof fn lemma_more_requests_chain(a: Nvic, b: Nvic, c: Nvic)
    requires
        only_more_requests(a, b),
        only_more_requests(b, c),
    ensures
        only_more_requests(a, c),
{
    let x = a.interrupt_flag;
    let y = b.interrupt_flag;
    let z = c.interrupt_flag;
    assert(z & x == x) by (bit_vector)
        requires
            y & x == x,
            z & y == y,
    ;
}

/// Whether a step of the picture processor kept what the processor alone writes: video
/// memory, OAM, LCDC, the STAT enables, scroll, window, LYC and palettes.
pub open spec fn keeps_settings(before: GpuView, after: GpuView) -> bool {
    &&& after.vram == before.vram
    &&& after.oam == before.oam
    &&& after.control_byte() == before.control_byte()
    &&& after.line_compare_it_enable == before.line_compare_it_enable
    &&& after.oam_interrupt_enabled == before.oam_interrupt_enabled
    &&& after.vblank_interrupt_enabled == before.vblank_interrupt_enabled
    &&& after.hblank_interrupt_enabled == before.hblank_interrupt_enabled
    &&& after.viewport_x_offset == before.viewport_x_offset
    &&& after.viewport_y_offset == before.viewport_y_offset
    &&& after.window_x_offset == before.window_x_offset
    &&& after.window_y_offset == before.window_y_offset
    &&& after.compare_line == before.compare_line
    &&& after.background_palette == before.background_palette
    &&& after.object_palette_0 == before.object_palette_0
    &&& after.object_palette_1 == before.object_palette_1
}

proof fn lemma_hblank_keeps_settings(g: GpuView, nvic: Nvic)
    ensures
        keeps_settings(g, g.step_hblank(nvic).0),
        only_more_requests(nvic, g.step_hblank(nvic).1),
{
    let flag = nvic.interrupt_flag;
    assert(flag & flag == flag) by (bit_vector);
    let st = nvic.with_request(InterruptSources::STAT);
    lemma_request_adds(nvic, InterruptSources::STAT);
    lemma_request_adds(st, InterruptSources::STAT);
    lemma_more_requests_chain(nvic, st, st.with_request(InterruptSources::STAT));
}

proof fn lemma_vblank_keeps_settings(g: GpuView, nvic: Nvic)
    ensures
        keeps_settings(g, g.step_vblank(nvic).0),
        only_more_requests(nvic, g.step_vblank(nvic).1),
{
    let flag = nvic.interrupt_flag;
    assert(flag & flag == flag) by (bit_vector);
    let v = nvic.with_request(InterruptSources::VBLANK);
    let st = nvic.with_request(InterruptSources::STAT);
    let vs = v.with_request(InterruptSources::STAT);
    lemma_request_adds(nvic, InterruptSources::STAT);
    lemma_request_adds(nvic, InterruptSources::VBLANK);
    lemma_request_adds(v, InterruptSources::STAT);
    lemma_request_adds(st, InterruptSources::STAT);
    lemma_request_adds(vs, InterruptSources::STAT);
    lemma_more_requests_chain(nvic, v, vs);
    lemma_more_requests_chain(nvic, st, st.with_request(InterruptSources::STAT));
    lemma_more_requests_chain(nvic, vs, vs.with_request(InterruptSources::STAT));
}

proof fn lemma_oam_scan_keeps_settings(g: GpuView, nvic: Nvic)
    ensures
        keeps_settings(g, g.step_oam_scan(nvic).0),
        only_more_requests(nvic, g.step_oam_scan(nvic).1),
{
    let flag = nvic.interrupt_flag;
    assert(flag & flag == flag) by (bit_vector);
    lemma_request_adds(nvic, InterruptSources::STAT);
}

proof fn lemma_draw_pixel_keeps_settings(g: GpuView, nvic: Nvic)
    ensures
        keeps_settings(g, g.step_draw_pixel(nvic).0),
        only_more_requests(nvic, g.step_draw_pixel(nvic).1),
{
    let flag = nvic.interrupt_flag;
    assert(flag & flag == flag) by (bit_vector);
}

/// The picture processor reads video memory and OAM but never writes them, keeps the
/// settings that the processor writes (LCDC, the STAT enables, scroll, window, LYC and
/// palettes), and only adds interrupt requests.
pub proof fn lemma_run_keeps_settings(g: GpuView, nvic: Nvic, cycles: u8)
    ensures
        keeps_settings(g, g.run(nvic, cycles).0),
        only_more_requests(nvic, g.run(nvic, cycles).1),
{
    let flag = nvic.interrupt_flag;
    assert(flag & flag == flag) by (bit_vector);
    if g.lcd_display_enabled {
        let started = GpuView { cycles: (g.cycles + cycles) as u16, ..g };
        match started.mode {
            GpuMode::HorizontalBlank => lemma_hblank_keeps_settings(started, nvic),
            GpuMode::VerticalBlank => lemma_vblank_keeps_settings(started, nvic),
            GpuMode::OAMScan => lemma_oam_scan_keeps_settings(started, nvic),
            GpuMode::DrawPixel => lemma_draw_pixel_keeps_settings(started, nvic),
        }
    }
}

} // verus!
