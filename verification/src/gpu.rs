//! The pixel unit: a four-mode state machine that composes one scanline of
//! background, window and sprites into the frame buffer at the end of every
//! transfer phase.

use vstd::prelude::*;

verus! {

/// Bytes of the frame buffer: 160 x 144 pixels of three bytes, row after
/// row.
pub const FRAME_SIZE: usize = 69120;

/// Bytes of video RAM.
pub const VRAM_SIZE: usize = 0x2000;

/// Entries of the object attribute table.
pub const SPRITES: usize = 40;

/// Cycles spent reading the object attribute table.
pub const OAM_READ_CYCLES: u64 = 80;

/// Cycles spent transferring a scanline.
pub const LCD_TRANSFER_CYCLES: u64 = 172;

/// Cycles of horizontal blanking.
pub const HBLANK_CYCLES: u64 = 204;

/// Cycles of one scanline, also of each of the ten lines of vertical
/// blanking.
pub const LINE_CYCLES: u64 = 456;

/// Interrupt bit raised on entry to vertical blanking.
pub const VBLANK_INTERRUPT: u8 = 1;

/// Interrupt bit raised when the scanline counter meets its compare value.
pub const STAT_INTERRUPT: u8 = 2;

#[derive(Clone, Copy, Debug, PartialEq, Eq, Structural)]
pub enum Mode {
    VBlank,
    HBlank,
    OamRead,
    LcdTransfer,
}

#[derive(Clone, Copy, Debug, PartialEq, Eq, Structural)]
pub struct Sprite {
    pub x: u8,
    pub y: u8,
    pub index: u8,
    pub attrs: u8,
}

impl Sprite {
    pub fn new() -> (sprite: Self)
        ensures
            sprite == (Sprite { x: 0, y: 0, index: 0, attrs: 0 }),
    {
        Self { x: 0, y: 0, index: 0, attrs: 0 }
    }

    /// Attribute bit 5: the sprite is mirrored left to right.
    pub open spec fn spec_x_flip(self) -> bool {
        self.attrs & 0x20 != 0
    }

    pub fn x_flip(&self) -> (flip: bool)
        ensures
            flip == self.spec_x_flip(),
    {
        self.attrs & 0x20 != 0
    }

    /// Attribute bit 6: the sprite is mirrored top to bottom.
    pub open spec fn spec_y_flip(self) -> bool {
        self.attrs & 0x40 != 0
    }

    pub fn y_flip(&self) -> (flip: bool)
        ensures
            flip == self.spec_y_flip(),
    {
        self.attrs & 0x40 != 0
    }

    /// One of the four bytes of the entry: Y, X, tile index, attributes.
    pub open spec fn field(self, n: int) -> u8 {
        if n == 0 {
            self.y
        } else if n == 1 {
            self.x
        } else if n == 2 {
            self.index
        } else {
            self.attrs
        }
    }

    /// The entry with one of its four bytes replaced.
    pub open spec fn with_field(self, n: int, value: u8) -> Sprite {
        if n == 0 {
            Sprite { y: value, ..self }
        } else if n == 1 {
            Sprite { x: value, ..self }
        } else if n == 2 {
            Sprite { index: value, ..self }
        } else {
            Sprite { attrs: value, ..self }
        }
    }
}

pub struct Gpu {
    pub mode: Mode,
    pub cycles: u64,
    pub ly: u8,
    pub lyc: u8,
    pub lcd: u8,
    pub frame: Vec<u8>,
    pub frame_count: u64,
    pub vram: Vec<u8>,
    pub interrupts: u8,
    pub oam: Vec<Sprite>,
    pub new_frame: bool,
    pub control: u8,
    pub scroll_x: u8,
    pub scroll_y: u8,
    pub window_x: u8,
    pub window_y: u8,
    pub bg_palette: u8,
    pub obj_palette_0: u8,
    pub obj_palette_1: u8,
}

/// The state of the pixel unit.
pub struct GpuView {
    pub mode: Mode,
    pub cycles: u64,
    pub ly: u8,
    pub lyc: u8,
    pub lcd: u8,
    pub frame: Seq<u8>,
    pub frame_count: u64,
    pub vram: Seq<u8>,
    pub interrupts: u8,
    pub oam: Seq<Sprite>,
    pub new_frame: bool,
    pub control: u8,
    pub scroll_x: u8,
    pub scroll_y: u8,
    pub window_x: u8,
    pub window_y: u8,
    pub bg_palette: u8,
    pub obj_palette_0: u8,
    pub obj_palette_1: u8,
}

impl View for Gpu {
    type V = GpuView;

    open spec fn view(&self) -> GpuView {
        GpuView {
            mode: self.mode,
            cycles: self.cycles,
            ly: self.ly,
            lyc: self.lyc,
            lcd: self.lcd,
            frame: self.frame@,
            frame_count: self.frame_count,
            vram: self.vram@,
            interrupts: self.interrupts,
            oam: self.oam@,
            new_frame: self.new_frame,
            control: self.control,
            scroll_x: self.scroll_x,
            scroll_y: self.scroll_y,
            window_x: self.window_x,
            window_y: self.window_y,
            bg_palette: self.bg_palette,
            obj_palette_0: self.obj_palette_0,
            obj_palette_1: self.obj_palette_1,
        }
    }
}

/// One component (0: red, 1: green, 2: blue) of one of the four colours.
pub open spec fn rgb(color: u8, component: int) -> u8 {
    if color == 0 {
        if component == 0 { 0x9B } else if component == 1 { 0xBC } else { 0x0F }
    } else if color == 1 {
        if component == 0 { 0x8B } else if component == 1 { 0xAC } else { 0x0F }
    } else if color == 2 {
        if component == 0 { 0x30 } else if component == 1 { 0x62 } else { 0x30 }
    } else {
        if component == 0 { 0x0F } else if component == 1 { 0x38 } else { 0x0F }
    }
}

/// The three bytes of one of the four colours.
pub fn color_map(color: u8) -> (bytes: (u8, u8, u8))
    requires
        color < 4,
    ensures
        bytes.0 == rgb(color, 0),
        bytes.1 == rgb(color, 1),
        bytes.2 == rgb(color, 2),
{
    if color == 0 {
        (0x9B, 0xBC, 0x0F)
    } else if color == 1 {
        (0x8B, 0xAC, 0x0F)
    } else if color == 2 {
        (0x30, 0x62, 0x30)
    } else {
        (0x0F, 0x38, 0x0F)
    }
}

/// Where in the frame buffer the first byte of pixel (`x`, `y`) stands.
pub open spec fn pixel_offset(x: int, y: int) -> int {
    (y * 160 + x) * 3
}

/// The frame buffer with pixel (`x`, `y`) painted in `color`.
pub open spec fn put_pixel(frame: Seq<u8>, x: int, y: int, color: u8) -> Seq<u8> {
    let o = pixel_offset(x, y);
    frame.update(o, rgb(color, 0)).update(o + 1, rgb(color, 1)).update(o + 2, rgb(color, 2))
}

/// Whether pixel (`x`, `y`) of the frame buffer shows background colour 0.
pub open spec fn is_blank(frame: Seq<u8>, x: int, y: int) -> bool {
    let o = pixel_offset(x, y);
    frame[o] == rgb(0, 0) && frame[o + 1] == rgb(0, 1) && frame[o + 2] == rgb(0, 2)
}

/// The frame buffer with every byte of scanline `y` set to zero.
pub open spec fn cleared_line(frame: Seq<u8>, y: int) -> Seq<u8> {
    Seq::new(
        frame.len(),
        |i: int|
            if pixel_offset(0, y) <= i < pixel_offset(0, y + 1) {
                0u8
            } else {
                frame[i]
            },
    )
}

/// Whether bit `n` of `byte` is set.
pub open spec fn bit_of(byte: u8, n: u8) -> bool {
    (byte >> n) & 1 == 1
}

/// The two-bit colour index of a pixel: bit `n` of the low plane is its
/// bit 0, bit `n` of the high plane its bit 1.
pub open spec fn spec_pixel_index(lo: u8, hi: u8, n: u8) -> u8 {
    ((if bit_of(hi, n) { 2int } else { 0int }) + (if bit_of(lo, n) { 1int } else { 0int })) as u8
}

pub fn pixel_index(lo: u8, hi: u8, n: u8) -> (index: u8)
    requires
        n < 8,
    ensures
        index == spec_pixel_index(lo, hi, n),
        index < 4,
{
    let high: u8 = if (hi >> n) & 1 == 1 { 2 } else { 0 };
    let low: u8 = if (lo >> n) & 1 == 1 { 1 } else { 0 };
    high + low
}

/// The colour that a palette gives to an index: two bits per index, index 0
/// in the lowest two.
pub open spec fn spec_palette_color(palette: u8, index: u8) -> u8 {
    if index == 0 {
        palette & 3
    } else if index == 1 {
        (palette >> 2) & 3
    } else if index == 2 {
        (palette >> 4) & 3
    } else {
        (palette >> 6) & 3
    }
}

proof fn lemma_two_bits(palette: u8)
    by (bit_vector)
    ensures
        palette & 3 < 4,
        (palette >> 2) & 3 < 4,
        (palette >> 4) & 3 < 4,
        (palette >> 6) & 3 < 4,
{
}

pub fn palette_color(palette: u8, index: u8) -> (color: u8)
    requires
        index < 4,
    ensures
        color == spec_palette_color(palette, index),
        color < 4,
{
    proof {
        lemma_two_bits(palette);
    }
    if index == 0 {
        palette & 3
    } else if index == 1 {
        (palette >> 2) & 3
    } else if index == 2 {
        (palette >> 4) & 3
    } else {
        (palette >> 6) & 3
    }
}

/// The status byte with its two low bits set to the number of `mode`.
pub open spec fn with_mode(lcd: u8, mode: Mode) -> u8 {
    let cleared = lcd & 0xFC;
    match mode {
        Mode::HBlank => cleared,
        Mode::VBlank => (cleared + 1) as u8,
        Mode::OamRead => (cleared + 2) as u8,
        Mode::LcdTransfer => (cleared + 3) as u8,
    }
}

proof fn lemma_mode_bits(lcd: u8)
    by (bit_vector)
    ensures
        lcd & 0xFC <= 0xFC,
        (lcd & 0xFC) & 3 == 0,
        (((lcd & 0xFC) + 1) as u8) & 3 == 1,
        (((lcd & 0xFC) + 2) as u8) & 3 == 2,
        (((lcd & 0xFC) + 3) as u8) & 3 == 3,
        (lcd & 0xFC) & 0xFC == lcd & 0xFC,
        (((lcd & 0xFC) + 1) as u8) & 0xFC == lcd & 0xFC,
        (((lcd & 0xFC) + 2) as u8) & 0xFC == lcd & 0xFC,
        (((lcd & 0xFC) + 3) as u8) & 0xFC == lcd & 0xFC,
{
}

/// The number that the two low bits of the status byte show for a mode.
pub open spec fn mode_number(mode: Mode) -> u8 {
    match mode {
        Mode::HBlank => 0,
        Mode::VBlank => 1,
        Mode::OamRead => 2,
        Mode::LcdTransfer => 3,
    }
}

/// The two low bits of the status byte mirror the mode, and a change of
/// mode leaves the six other bits alone.
pub proof fn lemma_mode_mirrored(lcd: u8, mode: Mode)
    ensures
        with_mode(lcd, mode) & 3 == mode_number(mode),
        with_mode(lcd, mode) & 0xFC == lcd & 0xFC,
{
    lemma_mode_bits(lcd);
}

proof fn lemma_vram_offset(address: u16)
    by (bit_vector)
    requires
        0x8000 <= address < 0xA000,
    ensures
        address & 0x1FFF == address - 0x8000,
{
}

impl GpuView {
    /// The three buffers have their sizes, and the scanline counter stays
    /// on a visible line outside vertical blanking and below 154 in it.
    pub open spec fn wf(self) -> bool {
        &&& self.frame.len() == FRAME_SIZE
        &&& self.vram.len() == VRAM_SIZE
        &&& self.oam.len() == SPRITES
        &&& self.mode == Mode::VBlank ==> self.ly < 154
        &&& self.mode != Mode::VBlank ==> self.ly < 144
    }

    /// The pixel unit at power-on.
    pub open spec fn initial() -> GpuView {
        GpuView {
            mode: Mode::HBlank,
            cycles: 0,
            ly: 0,
            lyc: 0,
            lcd: 0,
            frame: Seq::new(FRAME_SIZE as nat, |i: int| 0u8),
            frame_count: 0,
            vram: Seq::new(VRAM_SIZE as nat, |i: int| 0u8),
            interrupts: 0,
            oam: Seq::new(SPRITES as nat, |i: int| Sprite { x: 0, y: 0, index: 0, attrs: 0 }),
            new_frame: false,
            control: 0,
            scroll_x: 0,
            scroll_y: 0,
            window_x: 0,
            window_y: 0,
            bg_palette: 0,
            obj_palette_0: 0,
            obj_palette_1: 0,
        }
    }

    /// The byte of video RAM at a guest address in 0x8000-0x9FFF.
    pub open spec fn load(self, address: int) -> u8 {
        self.vram[address - 0x8000]
    }

    /// The pixel unit after a write to video RAM.
    pub open spec fn store(self, address: int, value: u8) -> GpuView {
        GpuView { vram: self.vram.update(address - 0x8000, value), ..self }
    }

    /// The byte of the object attribute table at an offset below 0xA0: four
    /// bytes per sprite.
    pub open spec fn oam_load(self, address: int) -> u8 {
        self.oam[address / 4].field(address % 4)
    }

    /// The pixel unit after a write to the object attribute table.
    pub open spec fn oam_store(self, address: int, value: u8) -> GpuView {
        GpuView {
            oam: self.oam.update(address / 4, self.oam[address / 4].with_field(address % 4, value)),
            ..self
        }
    }

    /// Control bit 7: the display is on.
    pub open spec fn lcd_on(self) -> bool {
        self.control & 0x80 != 0
    }

    /// Control bit 0: the background is shown.
    pub open spec fn bg_priority(self) -> bool {
        self.control & 0x01 != 0
    }

    /// Control bit 5: the window is shown.
    pub open spec fn window_enabled(self) -> bool {
        self.control & 0x20 != 0
    }

    /// Control bit 2 selects sprites of 16 lines instead of 8.
    pub open spec fn sprite_height(self) -> int {
        if self.control & 0x04 != 0 {
            16
        } else {
            8
        }
    }

    /// Control bit 3 selects the tile map of the background.
    pub open spec fn tile_map(self) -> int {
        if self.control & 0x08 != 0 {
            0x9C00
        } else {
            0x9800
        }
    }

    /// Control bit 6 selects the tile map of the window.
    pub open spec fn window_tile_map(self) -> int {
        if self.control & 0x40 != 0 {
            0x9C00
        } else {
            0x9800
        }
    }

    /// Where the sixteen bytes of a tile of background or window start.
    /// Control bit 4 selects the base: 0x8000 with indices 0 to 255, or
    /// 0x9000 with indices -128 to 127.
    pub open spec fn tile_address(self, tile: u8) -> int {
        if self.control & 0x10 != 0 {
            0x8000 + tile * 16
        } else if tile < 128 {
            0x9000 + tile * 16
        } else {
            0x9000 + (tile - 256) * 16
        }
    }

    /// The colour index of one pixel of a tile: `row` and `column` count
    /// from the tile's top left corner.
    pub open spec fn tile_pixel(self, tile: u8, row: int, column: int) -> u8 {
        let address = self.tile_address(tile) + row * 2;
        spec_pixel_index(self.load(address), self.load(address + 1), (7 - column) as u8)
    }

    /// The colour of the background at column `x` of the current scanline.
    pub open spec fn background_color(self, x: int) -> u8 {
        let row = ((self.scroll_y + self.ly) / 8) % 32;
        let column = ((self.scroll_x + x) / 8) % 32;
        let tile = self.load(self.tile_map() + row * 32 + column);
        spec_palette_color(
            self.bg_palette,
            self.tile_pixel(tile, (self.scroll_y + self.ly) % 8, (x + self.scroll_x) % 8),
        )
    }

    /// The frame buffer after the background has been drawn on the first `n`
    /// pixels of the current scanline.
    pub open spec fn with_background(self, frame: Seq<u8>, n: nat) -> Seq<u8>
        decreases n,
    {
        if n == 0 {
            frame
        } else {
            put_pixel(
                self.with_background(frame, (n - 1) as nat),
                n - 1,
                self.ly as int,
                self.background_color(n - 1),
            )
        }
    }

    /// Whether the window covers column `x` of the current scanline: it
    /// starts at column WX - 7 and at line WY.
    pub open spec fn window_covers(self, x: int) -> bool {
        x >= self.window_x - 7 && self.ly >= self.window_y
    }

    /// The colour of the window at column `x` of the current scanline.
    pub open spec fn window_color(self, x: int) -> u8 {
        let line = self.ly - self.window_y;
        let across = x - (self.window_x - 7);
        let tile = self.load(self.window_tile_map() + (line / 8) * 32 + across / 8);
        spec_palette_color(self.bg_palette, self.tile_pixel(tile, line % 8, across % 8))
    }

    /// The frame buffer after the window has been drawn on those of the
    /// first `n` pixels of the current scanline that it covers.
    pub open spec fn with_window(self, frame: Seq<u8>, n: nat) -> Seq<u8>
        decreases n,
    {
        if n == 0 {
            frame
        } else {
            let before = self.with_window(frame, (n - 1) as nat);
            if self.window_covers(n - 1) {
                put_pixel(before, n - 1, self.ly as int, self.window_color(n - 1))
            } else {
                before
            }
        }
    }

    /// Whether a sprite crosses the current scanline: its top line is line
    /// Y - 16.
    pub open spec fn sprite_on_line(self, sprite: Sprite) -> bool {
        sprite.y - 16 <= self.ly < sprite.y - 16 + self.sprite_height()
    }

    /// The row of the sprite's tile that the current scanline shows.
    pub open spec fn sprite_row(self, sprite: Sprite) -> int {
        let row = self.ly - (sprite.y - 16);
        if sprite.spec_y_flip() {
            self.sprite_height() - 1 - row
        } else {
            row
        }
    }

    /// The colour index of the sprite's pixel `k`, counted from its left
    /// edge on screen.
    pub open spec fn sprite_pixel(self, sprite: Sprite, k: int) -> u8 {
        let address = 0x8000 + sprite.index * 16 + self.sprite_row(sprite) * 2;
        let bit = if sprite.spec_x_flip() { k } else { 7 - k };
        spec_pixel_index(self.load(address), self.load(address + 1), bit as u8)
    }

    /// Attribute bit 4 selects the second sprite palette.
    pub open spec fn sprite_palette(self, sprite: Sprite) -> u8 {
        if sprite.attrs & 0x10 != 0 {
            self.obj_palette_1
        } else {
            self.obj_palette_0
        }
    }

    /// Whether the sprite's pixel `k` is drawn over `frame`: it is on
    /// screen, not transparent, and either the sprite has priority
    /// (attribute bit 7 clear) or the pixel below shows background colour 0.
    pub open spec fn sprite_draws(self, frame: Seq<u8>, sprite: Sprite, k: int) -> bool {
        let x = sprite.x - 8 + k;
        &&& 0 <= x < 160
        &&& self.sprite_pixel(sprite, k) != 0
        &&& (sprite.attrs & 0x80 == 0 || is_blank(frame, x, self.ly as int))
    }

    /// The frame buffer after the first `n` pixels of a sprite that crosses
    /// the current scanline.
    pub open spec fn with_sprite_pixels(self, frame: Seq<u8>, sprite: Sprite, n: nat) -> Seq<u8>
        decreases n,
    {
        if n == 0 {
            frame
        } else {
            let before = self.with_sprite_pixels(frame, sprite, (n - 1) as nat);
            if self.sprite_draws(before, sprite, n - 1) {
                put_pixel(
                    before,
                    sprite.x - 8 + (n - 1),
                    self.ly as int,
                    spec_palette_color(self.sprite_palette(sprite), self.sprite_pixel(sprite, n - 1)),
                )
            } else {
                before
            }
        }
    }

    /// The frame buffer after the first `n` sprites of the table, in table
    /// order.
    pub open spec fn with_sprites(self, frame: Seq<u8>, n: nat) -> Seq<u8>
        decreases n,
    {
        if n == 0 {
            frame
        } else {
            let before = self.with_sprites(frame, (n - 1) as nat);
            if self.sprite_on_line(self.oam[n - 1]) {
                self.with_sprite_pixels(before, self.oam[n - 1], 8)
            } else {
                before
            }
        }
    }

    /// The frame buffer with the current scanline composed: the background,
    /// or a cleared line where the display or the background is off; over
    /// it the window, where it is enabled; over both the sprites.
    pub open spec fn composed(self) -> Seq<u8> {
        let ground = if self.lcd_on() && self.bg_priority() {
            GpuView { frame: self.with_background(self.frame, 160), ..self }
        } else {
            GpuView { frame: cleared_line(self.frame, self.ly as int), ..self }
        };
        let windowed = if ground.window_enabled() {
            GpuView { frame: ground.with_window(ground.frame, 160), ..ground }
        } else {
            ground
        };
        windowed.with_sprites(windowed.frame, 40)
    }

    /// The pixel unit after the mode has gathered `cycles` more cycles and,
    /// if that fills the mode's duration, moved on to the next mode.
    pub open spec fn advanced(self, cycles: u64) -> GpuView {
        let gathered = (self.cycles + cycles) as u64;
        let quiet = GpuView { cycles: gathered, interrupts: 0, ..self };
        match self.mode {
            Mode::OamRead => if gathered >= OAM_READ_CYCLES {
                GpuView {
                    cycles: (gathered - OAM_READ_CYCLES) as u64,
                    mode: Mode::LcdTransfer,
                    lcd: with_mode(self.lcd, Mode::LcdTransfer),
                    ..quiet
                }
            } else {
                quiet
            },
            Mode::LcdTransfer => if gathered >= LCD_TRANSFER_CYCLES {
                GpuView {
                    cycles: (gathered - LCD_TRANSFER_CYCLES) as u64,
                    mode: Mode::HBlank,
                    lcd: with_mode(self.lcd, Mode::HBlank),
                    frame: self.composed(),
                    ..quiet
                }
            } else {
                quiet
            },
            Mode::HBlank => if gathered >= HBLANK_CYCLES {
                if self.ly == 143 {
                    GpuView {
                        cycles: (gathered - HBLANK_CYCLES) as u64,
                        ly: 144,
                        mode: Mode::VBlank,
                        lcd: with_mode(self.lcd, Mode::VBlank),
                        interrupts: VBLANK_INTERRUPT,
                        new_frame: true,
                        ..quiet
                    }
                } else {
                    GpuView {
                        cycles: (gathered - HBLANK_CYCLES) as u64,
                        ly: (self.ly + 1) as u8,
                        mode: Mode::OamRead,
                        lcd: with_mode(self.lcd, Mode::OamRead),
                        ..quiet
                    }
                }
            } else {
                quiet
            },
            Mode::VBlank => if gathered >= LINE_CYCLES {
                if self.ly >= 153 {
                    GpuView {
                        cycles: (gathered - LINE_CYCLES) as u64,
                        ly: 0,
                        mode: Mode::OamRead,
                        lcd: with_mode(self.lcd, Mode::OamRead),
                        ..quiet
                    }
                } else {
                    GpuView { cycles: (gathered - LINE_CYCLES) as u64, ly: (self.ly + 1) as u8, ..quiet }
                }
            } else {
                quiet
            },
        }
    }

    /// The pixel unit after one step of `cycles` cycles: the mode machine
    /// advances, and where the scanline counter then equals its compare
    /// value, bit 6 of the status byte is set. The interrupt byte holds
    /// what this step raised: vertical blanking on entry to it, and status
    /// where the counter was not yet equal to its compare value before the
    /// step.
    pub open spec fn step(self, cycles: u64) -> GpuView {
        let next = self.advanced(cycles);
        if next.ly == next.lyc {
            GpuView {
                lcd: next.lcd | 0x40,
                interrupts: if self.ly != self.lyc {
                    next.interrupts | STAT_INTERRUPT
                } else {
                    next.interrupts
                },
                ..next
            }
        } else {
            next
        }
    }
}

impl Gpu {
    pub fn new() -> (gpu: Self)
        ensures
            gpu@ == GpuView::initial(),
            gpu@.wf(),
    {
        let gpu = Gpu {
            mode: Mode::HBlank,
            lcd: 0,
            cycles: 0,
            frame_count: 0,
            ly: 0,
            lyc: 0,
            scroll_x: 0,
            scroll_y: 0,
            window_x: 0,
            window_y: 0,
            control: 0,
            interrupts: 0,
            bg_palette: 0,
            obj_palette_0: 0,
            obj_palette_1: 0,
            frame: vec![0u8; FRAME_SIZE],
            vram: vec![0u8; VRAM_SIZE],
            oam: vec![Sprite::new(); SPRITES],
            new_frame: false,
        };
        assert(gpu.frame@ =~= GpuView::initial().frame);
        assert(gpu.vram@ =~= GpuView::initial().vram);
        assert(gpu.oam@ =~= GpuView::initial().oam);
        gpu
    }

    pub fn set_mode(&mut self, mode: Mode)
        ensures
            final(self)@ == (GpuView { mode, lcd: with_mode(old(self).lcd, mode), ..old(self)@ }),
    {
        proof {
            lemma_mode_bits(self.lcd);
        }
        let cleared: u8 = self.lcd & 0xFC;
        match mode {
            Mode::HBlank => self.lcd = cleared,
            Mode::VBlank => self.lcd = cleared + 1,
            Mode::OamRead => self.lcd = cleared + 2,
            Mode::LcdTransfer => self.lcd = cleared + 3,
        }
        self.mode = mode;
    }

    pub fn load(&self, address: u16) -> (value: u8)
        requires
            self@.wf(),
            0x8000 <= address < 0xA000,
        ensures
            value == self@.load(address as int),
    {
        proof {
            lemma_vram_offset(address);
        }
        self.vram[(address & 0x1FFF) as usize]
    }

    pub fn store(&mut self, address: u16, value: u8)
        requires
            old(self)@.wf(),
            0x8000 <= address < 0xA000,
        ensures
            final(self)@ == old(self)@.store(address as int, value),
            final(self)@.wf(),
    {
        proof {
            lemma_vram_offset(address);
        }
        self.vram[(address & 0x1FFF) as usize] = value;
    }

    pub fn oam_load(&self, address: u16) -> (value: u8)
        requires
            self@.wf(),
            address < 0xA0,
        ensures
            value == self@.oam_load(address as int),
    {
        let idx: usize = (address / 4) as usize;
        let attr: u16 = address % 4;
        let sprite = self.oam[idx];
        if attr == 0 {
            sprite.y
        } else if attr == 1 {
            sprite.x
        } else if attr == 2 {
            sprite.index
        } else {
            sprite.attrs
        }
    }

    pub fn oam_store(&mut self, address: u16, value: u8)
        requires
            old(self)@.wf(),
            address < 0xA0,
        ensures
            final(self)@ == old(self)@.oam_store(address as int, value),
            final(self)@.wf(),
    {
        let idx: usize = (address / 4) as usize;
        let attr: u16 = address % 4;
        let mut sprite = self.oam[idx];
        if attr == 0 {
            sprite.y = value;
        } else if attr == 1 {
            sprite.x = value;
        } else if attr == 2 {
            sprite.index = value;
        } else {
            sprite.attrs = value;
        }
        self.oam[idx] = sprite;
    }

    pub fn lcd_on(&self) -> (on: bool)
        ensures
            on == self@.lcd_on(),
    {
        self.control & 0x80 != 0
    }

    pub fn bg_priority(&self) -> (on: bool)
        ensures
            on == self@.bg_priority(),
    {
        self.control & 0x01 != 0
    }

    pub fn window_enabled(&self) -> (on: bool)
        ensures
            on == self@.window_enabled(),
    {
        self.control & 0x20 != 0
    }

    pub fn tile_map(&self) -> (base: u16)
        ensures
            base == self@.tile_map(),
    {
        if self.control & 0x08 != 0 {
            0x9C00
        } else {
            0x9800
        }
    }

    pub fn window_tile_map(&self) -> (base: u16)
        ensures
            base == self@.window_tile_map(),
    {
        if self.control & 0x40 != 0 {
            0x9C00
        } else {
            0x9800
        }
    }

    /// The base of the tile data of background and window.
    pub fn tile_data(&self) -> (base: u16)
        ensures
            base == (if self.control & 0x10 != 0 { 0x8000int } else { 0x9000int }),
    {
        if self.control & 0x10 != 0 {
            0x8000
        } else {
            0x9000
        }
    }

    /// Where the sixteen bytes of a tile of background or window start.
    pub fn tile_address(&self, tile: u8) -> (address: u16)
        ensures
            address == self@.tile_address(tile),
            0x8000 <= address <= 0x97F0,
    {
        if self.tile_data() == 0x8000 {
            0x8000 + (tile as u16) * 16
        } else if tile < 128 {
            0x9000 + (tile as u16) * 16
        } else {
            0x8800 + (tile as u16 - 128) * 16
        }
    }

    /// The colour index of one pixel of a tile of background or window.
    pub fn tile_pixel(&self, tile: u8, row: u16, column: u16) -> (index: u8)
        requires
            self@.wf(),
            row < 8,
            column < 8,
        ensures
            index == self@.tile_pixel(tile, row as int, column as int),
            index < 4,
    {
        let address: u16 = self.tile_address(tile) + row * 2;
        let lo = self.load(address);
        let hi = self.load(address + 1);
        pixel_index(lo, hi, (7 - column) as u8)
    }

    pub fn set_pixel(&mut self, x: u8, y: u8, color: u8)
        requires
            old(self).frame@.len() == FRAME_SIZE,
            x < 160,
            y < 144,
            color < 4,
        ensures
            final(self)@ == (GpuView {
                frame: put_pixel(old(self)@.frame, x as int, y as int, color),
                ..old(self)@
            }),
            final(self).frame@.len() == FRAME_SIZE,
    {
        let offset: usize = (y as usize * 160 + x as usize) * 3;
        let (r, g, b) = color_map(color);
        self.frame[offset] = r;
        self.frame[offset + 1] = g;
        self.frame[offset + 2] = b;
    }

    pub fn is_pixel_blank(&self, x: u8, y: u8) -> (blank: bool)
        requires
            self.frame@.len() == FRAME_SIZE,
            x < 160,
            y < 144,
        ensures
            blank == is_blank(self.frame@, x as int, y as int),
    {
        let offset: usize = (y as usize * 160 + x as usize) * 3;
        self.frame[offset] == 0x9B && self.frame[offset + 1] == 0xBC && self.frame[offset + 2] == 0x0F
    }

    /// Sets every byte of the current scanline to zero.
    pub fn clear_line(&mut self)
        requires
            old(self)@.wf(),
            old(self).ly < 144,
        ensures
            final(self)@ == (GpuView {
                frame: cleared_line(old(self)@.frame, old(self).ly as int),
                ..old(self)@
            }),
    {
        let base: usize = self.ly as usize * 480;
        let mut i: usize = 0;
        while i < 480
            invariant
                i <= 480,
                base == self.ly * 480,
                self.ly < 144,
                self.frame@.len() == FRAME_SIZE,
                self@ == (GpuView { frame: self.frame@, ..old(self)@ }),
                forall|j: int|
                    0 <= j < FRAME_SIZE ==> self.frame@[j] == (if base <= j < base + i {
                        0u8
                    } else {
                        old(self).frame@[j]
                    }),
            decreases 480 - i,
        {
            self.frame[base + i] = 0;
            i += 1;
        }
        assert(self.frame@ =~= cleared_line(old(self)@.frame, old(self).ly as int));
    }

    /// Draws the background on the current scanline.
    pub fn render_background(&mut self)
        requires
            old(self)@.wf(),
            old(self).ly < 144,
        ensures
            final(self)@ == (GpuView {
                frame: old(self)@.with_background(old(self)@.frame, 160),
                ..old(self)@
            }),
            final(self)@.wf(),
    {
        let palette = self.bg_palette;
        let ly: u16 = self.ly as u16;
        let scroll_x: u16 = self.scroll_x as u16;
        let scroll_y: u16 = self.scroll_y as u16;
        let tile_map: u16 = self.tile_map();
        let row: u16 = ((scroll_y + ly) / 8) % 32;
        let row_offset: u16 = (scroll_y + ly) % 8;
        let mut px: u16 = 0;
        while px < 160
            invariant
                px <= 160,
                old(self)@.wf(),
                self@ == (GpuView { frame: self.frame@, ..old(self)@ }),
                self.frame@.len() == FRAME_SIZE,
                self.frame@ == old(self)@.with_background(old(self)@.frame, px as nat),
                palette == self.bg_palette,
                ly == self.ly,
                ly < 144,
                scroll_x == self.scroll_x,
                scroll_y == self.scroll_y,
                tile_map == self@.tile_map(),
                row == ((scroll_y + ly) / 8) % 32,
                row_offset == (scroll_y + ly) % 8,
            decreases 160 - px,
        {
            let column: u16 = ((scroll_x + px) / 8) % 32;
            let tile = self.load(tile_map + row * 32 + column);
            let index = self.tile_pixel(tile, row_offset, (px + scroll_x) % 8);
            let color = palette_color(palette, index);
            self.set_pixel(px as u8, ly as u8, color);
            px += 1;
        }
    }

    /// Draws the window over the current scanline, where it covers it.
    pub fn render_window(&mut self)
        requires
            old(self)@.wf(),
            old(self).ly < 144,
        ensures
            final(self)@ == (GpuView {
                frame: old(self)@.with_window(old(self)@.frame, 160),
                ..old(self)@
            }),
            final(self)@.wf(),
    {
        let palette = self.bg_palette;
        let ly: u16 = self.ly as u16;
        let window_x: u16 = self.window_x as u16;
        let window_y: u16 = self.window_y as u16;
        let tile_map: u16 = self.window_tile_map();
        let mut px: u16 = 0;
        while px < 160
            invariant
                px <= 160,
                old(self)@.wf(),
                self@ == (GpuView { frame: self.frame@, ..old(self)@ }),
                self.frame@.len() == FRAME_SIZE,
                self.frame@ == old(self)@.with_window(old(self)@.frame, px as nat),
                palette == self.bg_palette,
                ly == self.ly,
                ly < 144,
                window_x == self.window_x,
                window_y == self.window_y,
                tile_map == self@.window_tile_map(),
            decreases 160 - px,
        {
            if px + 7 >= window_x && ly >= window_y {
                let line: u16 = ly - window_y;
                let across: u16 = px + 7 - window_x;
                let tile = self.load(tile_map + (line / 8) * 32 + across / 8);
                let index = self.tile_pixel(tile, line % 8, across % 8);
                let color = palette_color(palette, index);
                self.set_pixel(px as u8, ly as u8, color);
            }
            px += 1;
        }
    }

    /// The colour that a sprite palette gives to a colour index; index 0 is
    /// transparent and has none.
    pub fn sprite_pixel_color(&self, palette: u8, pixel: u8) -> (color: u8)
        requires
            0 < pixel < 4,
        ensures
            color == spec_palette_color(palette, pixel),
            color < 4,
    {
        palette_color(palette, pixel)
    }

    /// Draws the sprites that cross the current scanline, in table order.
    pub fn render_sprites(&mut self)
        requires
            old(self)@.wf(),
            old(self).ly < 144,
        ensures
            final(self)@ == (GpuView { frame: old(self)@.with_sprites(old(self)@.frame, 40), ..old(self)@ }),
            final(self)@.wf(),
    {
        let height: i32 = if self.control & 4 != 0 { 16 } else { 8 };
        let ly: i32 = self.ly as i32;
        let mut n: usize = 0;
        while n < 40
            invariant
                n <= 40,
                old(self)@.wf(),
                self@ == (GpuView { frame: self.frame@, ..old(self)@ }),
                self.frame@.len() == FRAME_SIZE,
                self.frame@ == old(self)@.with_sprites(old(self)@.frame, n as nat),
                height == self@.sprite_height(),
                ly == self.ly,
                ly < 144,
            decreases 40 - n,
        {
            let sprite = self.oam[n];
            let top: i32 = sprite.y as i32 - 16;
            let left: i32 = sprite.x as i32 - 8;
            if top <= ly && ly < top + height {
                let row: i32 = if sprite.y_flip() { height - 1 - (ly - top) } else { ly - top };
                let address: u16 = 0x8000 + (sprite.index as u16) * 16 + (row as u16) * 2;
                let lo = self.load(address);
                let hi = self.load(address + 1);
                let palette = if sprite.attrs & 0x10 != 0 { self.obj_palette_1 } else { self.obj_palette_0 };
                let ghost before = self.frame@;
                let mut k: i32 = 0;
                while k < 8
                    invariant
                        0 <= k <= 8,
                        n < 40,
                        old(self)@.wf(),
                        self@ == (GpuView { frame: self.frame@, ..old(self)@ }),
                        self.frame@.len() == FRAME_SIZE,
                        sprite == old(self)@.oam[n as int],
                        old(self)@.sprite_on_line(sprite),
                        self.frame@ == old(self)@.with_sprite_pixels(before, sprite, k as nat),
                        left == sprite.x - 8,
                        ly == self.ly,
                        ly < 144,
                        address == 0x8000 + sprite.index * 16 + old(self)@.sprite_row(sprite) * 2,
                        lo == old(self)@.load(address as int),
                        hi == old(self)@.load(address + 1),
                        palette == old(self)@.sprite_palette(sprite),
                    decreases 8 - k,
                {
                    let x: i32 = left + k;
                    if 0 <= x && x < 160 {
                        let bit: i32 = if sprite.x_flip() { k } else { 7 - k };
                        let pixel = pixel_index(lo, hi, bit as u8);
                        if pixel != 0 && (sprite.attrs & 0x80 == 0 || self.is_pixel_blank(x as u8, ly as u8)) {
                            let color = self.sprite_pixel_color(palette, pixel);
                            self.set_pixel(x as u8, ly as u8, color);
                        }
                    }
                    k += 1;
                }
            }
            n += 1;
        }
    }

    /// Composes the current scanline into the frame buffer.
    pub fn compose(&mut self)
        requires
            old(self)@.wf(),
            old(self).ly < 144,
        ensures
            final(self)@ == (GpuView { frame: old(self)@.composed(), ..old(self)@ }),
            final(self)@.wf(),
    {
        if self.lcd_on() && self.bg_priority() {
            self.render_background();
        } else {
            self.clear_line();
        }
        if self.window_enabled() {
            self.render_window();
        }
        self.render_sprites();
    }

    /// Advances the pixel unit by `cycles` cycles: at most one change of
    /// mode, then the comparison of the scanline counter.
    pub fn step(&mut self, cycles: u64)
        requires
            old(self)@.wf(),
            old(self).cycles + cycles <= u64::MAX,
        ensures
            final(self)@ == old(self)@.step(cycles),
            final(self)@.wf(),
    {
        let was_equal: bool = self.ly == self.lyc;
        let gathered: u64 = self.cycles + cycles;
        let composing: bool = match self.mode {
            Mode::LcdTransfer => gathered >= LCD_TRANSFER_CYCLES,
            _ => false,
        };
        if composing {
            self.compose();
        }
        self.interrupts = 0;
        match self.mode {
            Mode::OamRead => {
                if gathered >= OAM_READ_CYCLES {
                    self.cycles = gathered - OAM_READ_CYCLES;
                    self.set_mode(Mode::LcdTransfer);
                } else {
                    self.cycles = gathered;
                }
            },
            Mode::LcdTransfer => {
                if gathered >= LCD_TRANSFER_CYCLES {
                    self.cycles = gathered - LCD_TRANSFER_CYCLES;
                    self.set_mode(Mode::HBlank);
                } else {
                    self.cycles = gathered;
                }
            },
            Mode::HBlank => {
                if gathered >= HBLANK_CYCLES {
                    self.cycles = gathered - HBLANK_CYCLES;
                    self.ly += 1;
                    if self.ly == 144 {
                        self.interrupts = VBLANK_INTERRUPT;
                        self.new_frame = true;
                        self.set_mode(Mode::VBlank);
                    } else {
                        self.set_mode(Mode::OamRead);
                    }
                } else {
                    self.cycles = gathered;
                }
            },
            Mode::VBlank => {
                if gathered >= LINE_CYCLES {
                    self.cycles = gathered - LINE_CYCLES;
                    if self.ly >= 153 {
                        self.ly = 0;
                        self.set_mode(Mode::OamRead);
                    } else {
                        self.ly += 1;
                    }
                } else {
                    self.cycles = gathered;
                }
            },
        }
        if self.ly == self.lyc {
            self.lcd = self.lcd | 0x40;
            if !was_equal {
                self.interrupts = self.interrupts | STAT_INTERRUPT;
            }
        }
    }
}

/// Cycles of one frame: 154 scanlines of 456 cycles.
pub const FRAME_CYCLES: u64 = 70224;

/// Cycles from the start of a frame to the start of vertical blanking.
pub const VISIBLE_CYCLES: u64 = 65664;

impl GpuView {
    /// The cycles that the current mode lasts.
    pub open spec fn duration(self) -> int {
        match self.mode {
            Mode::OamRead => OAM_READ_CYCLES as int,
            Mode::LcdTransfer => LCD_TRANSFER_CYCLES as int,
            Mode::HBlank => HBLANK_CYCLES as int,
            Mode::VBlank => LINE_CYCLES as int,
        }
    }

    /// Whether the pixel unit keeps pace: its clock has not filled the
    /// duration of the mode, and the scanline counter fits the mode.
    pub open spec fn in_pace(self) -> bool {
        &&& self.cycles < self.duration()
        &&& self.mode == Mode::VBlank ==> 144 <= self.ly < 154
        &&& self.mode != Mode::VBlank ==> self.ly < 144
    }

    /// The cycles since the start of the frame.
    pub open spec fn position(self) -> int {
        self.ly * LINE_CYCLES + self.cycles + match self.mode {
            Mode::OamRead | Mode::VBlank => 0int,
            Mode::LcdTransfer => OAM_READ_CYCLES as int,
            Mode::HBlank => OAM_READ_CYCLES + LCD_TRANSFER_CYCLES,
        }
    }

    /// Whether the last step raised the interrupt of vertical blanking.
    pub open spec fn raised_vblank(self) -> bool {
        self.interrupts & VBLANK_INTERRUPT != 0
    }
}

/// The sum of the lengths of a run of steps.
pub open spec fn total(steps: Seq<u64>) -> int
    decreases steps.len(),
{
    if steps.len() == 0 {
        0
    } else {
        steps[0] + total(steps.drop_first())
    }
}

/// How many steps of a run raise the interrupt of vertical blanking.
pub open spec fn vblanks(gpu: GpuView, steps: Seq<u64>) -> int
    decreases steps.len(),
{
    if steps.len() == 0 {
        0
    } else {
        let next = gpu.step(steps[0]);
        (if next.raised_vblank() { 1int } else { 0int }) + vblanks(next, steps.drop_first())
    }
}

proof fn lemma_raised_bits()
    by (bit_vector)
    ensures
        0u8 & 1 == 0,
        1u8 & 1 != 0,
        (0u8 | 2) & 1 == 0,
        (1u8 | 2) & 1 != 0,
{
}

/// A step of at most 80 cycles moves a pixel unit that keeps pace on by as
/// many cycles within the frame, leaves it keeping pace, and raises the
/// interrupt of vertical blanking exactly when it crosses the start of
/// vertical blanking.
pub proof fn lemma_step_position(gpu: GpuView, cycles: u64)
    requires
        gpu.in_pace(),
        cycles <= OAM_READ_CYCLES,
    ensures
        gpu.step(cycles).in_pace(),
        gpu.step(cycles).position() == (gpu.position() + cycles) % (FRAME_CYCLES as int),
        gpu.step(cycles).raised_vblank() == (gpu.position() < VISIBLE_CYCLES <= gpu.position() + cycles),
{
    lemma_raised_bits();
}

/// The steps of a run that stays within one frame raise the interrupt of
/// vertical blanking once if the run crosses the start of vertical
/// blanking, and never otherwise.
pub proof fn lemma_vblanks_within_frame(gpu: GpuView, steps: Seq<u64>)
    requires
        gpu.in_pace(),
        forall|i: int| 0 <= i < steps.len() ==> steps[i] <= OAM_READ_CYCLES,
        gpu.position() + total(steps) <= FRAME_CYCLES,
    ensures
        vblanks(gpu, steps) == (if gpu.position() < VISIBLE_CYCLES <= gpu.position() + total(steps) {
            1int
        } else {
            0int
        }),
    decreases steps.len(),
{
    if steps.len() > 0 {
        let rest = steps.drop_first();
        lemma_total_nonnegative(rest);
        lemma_step_position(gpu, steps[0]);
        let next = gpu.step(steps[0]);
        assert forall|i: int| 0 <= i < rest.len() implies rest[i] <= OAM_READ_CYCLES by {
            assert(rest[i] == steps[i + 1]);
        }
        lemma_vblanks_within_frame(next, rest);
    }
}

proof fn lemma_total_nonnegative(steps: Seq<u64>)
    ensures
        total(steps) >= 0,
    decreases steps.len(),
{
    if steps.len() > 0 {
        lemma_total_nonnegative(steps.drop_first());
    }
}

/// Over the 70,224 cycles of one frame, begun at the start of a frame and
/// made in steps of at most 80 cycles, the pixel unit raises the interrupt
/// of vertical blanking exactly once.
pub proof fn lemma_one_vblank_per_frame(gpu: GpuView, steps: Seq<u64>)
    requires
        gpu.in_pace(),
        gpu.position() == 0,
        forall|i: int| 0 <= i < steps.len() ==> steps[i] <= OAM_READ_CYCLES,
        total(steps) == FRAME_CYCLES,
    ensures
        vblanks(gpu, steps) == 1,
{
    lemma_vblanks_within_frame(gpu, steps);
}

/// Painting a pixel changes its three bytes and no other byte.
pub proof fn lemma_put_pixel(frame: Seq<u8>, x: int, y: int, color: u8, i: int)
    requires
        frame.len() == FRAME_SIZE,
        0 <= x < 160,
        0 <= y < 144,
        0 <= i < FRAME_SIZE,
    ensures
        put_pixel(frame, x, y, color).len() == FRAME_SIZE,
        put_pixel(frame, x, y, color)[i] == (if pixel_offset(x, y) <= i < pixel_offset(x, y) + 3 {
            rgb(color, i - pixel_offset(x, y))
        } else {
            frame[i]
        }),
{
}

/// After the background has been drawn on the first `n` pixels of the
/// current scanline, each of them shows the colour of the background at
/// its column, and every other byte of the frame buffer is as it was.
pub proof fn lemma_background_line(gpu: GpuView, frame: Seq<u8>, n: nat, i: int)
    requires
        frame.len() == FRAME_SIZE,
        gpu.ly < 144,
        n <= 160,
        0 <= i < FRAME_SIZE,
    ensures
        gpu.with_background(frame, n).len() == FRAME_SIZE,
        gpu.with_background(frame, n)[i] == (if pixel_offset(0, gpu.ly as int) <= i < pixel_offset(
            n as int,
            gpu.ly as int,
        ) {
            rgb(gpu.background_color((i - pixel_offset(0, gpu.ly as int)) / 3), i % 3)
        } else {
            frame[i]
        }),
    decreases n,
{
    if n > 0 {
        lemma_background_line(gpu, frame, (n - 1) as nat, i);
        lemma_put_pixel(
            gpu.with_background(frame, (n - 1) as nat),
            n - 1,
            gpu.ly as int,
            gpu.background_color(n - 1),
            i,
        );
    }
}

/// After the window has been drawn on the first `n` pixels of the current
/// scanline, each of them that the window covers shows the colour of the
/// window at its column, and every other byte of the frame buffer is as it
/// was.
pub proof fn lemma_window_line(gpu: GpuView, frame: Seq<u8>, n: nat, i: int)
    requires
        frame.len() == FRAME_SIZE,
        gpu.ly < 144,
        n <= 160,
        0 <= i < FRAME_SIZE,
    ensures
        gpu.with_window(frame, n).len() == FRAME_SIZE,
        gpu.with_window(frame, n)[i] == (if pixel_offset(0, gpu.ly as int) <= i < pixel_offset(
            n as int,
            gpu.ly as int,
        ) && gpu.window_covers((i - pixel_offset(0, gpu.ly as int)) / 3) {
            rgb(gpu.window_color((i - pixel_offset(0, gpu.ly as int)) / 3), i % 3)
        } else {
            frame[i]
        }),
    decreases n,
{
    if n > 0 {
        lemma_window_line(gpu, frame, (n - 1) as nat, i);
        if gpu.window_covers(n - 1) {
            lemma_put_pixel(
                gpu.with_window(frame, (n - 1) as nat),
                n - 1,
                gpu.ly as int,
                gpu.window_color(n - 1),
                i,
            );
        }
    }
}

/// Drawing the pixels of a sprite changes no byte outside the current
/// scanline.
pub proof fn lemma_sprite_pixels_stay_on_line(gpu: GpuView, frame: Seq<u8>, sprite: Sprite, n: nat, i: int)
    requires
        frame.len() == FRAME_SIZE,
        gpu.ly < 144,
        0 <= i < FRAME_SIZE,
    ensures
        gpu.with_sprite_pixels(frame, sprite, n).len() == FRAME_SIZE,
        !(pixel_offset(0, gpu.ly as int) <= i < pixel_offset(160, gpu.ly as int)) ==> gpu.with_sprite_pixels(
            frame,
            sprite,
            n,
        )[i] == frame[i],
    decreases n,
{
    if n > 0 {
        lemma_sprite_pixels_stay_on_line(gpu, frame, sprite, (n - 1) as nat, i);
        let before = gpu.with_sprite_pixels(frame, sprite, (n - 1) as nat);
        if gpu.sprite_draws(before, sprite, n - 1) {
            lemma_put_pixel(
                before,
                sprite.x - 8 + (n - 1),
                gpu.ly as int,
                spec_palette_color(gpu.sprite_palette(sprite), gpu.sprite_pixel(sprite, n - 1)),
                i,
            );
        }
    }
}

/// Drawing the sprites changes no byte outside the current scanline.
pub proof fn lemma_sprites_stay_on_line(gpu: GpuView, frame: Seq<u8>, n: nat, i: int)
    requires
        frame.len() == FRAME_SIZE,
        gpu.ly < 144,
        0 <= i < FRAME_SIZE,
    ensures
        gpu.with_sprites(frame, n).len() == FRAME_SIZE,
        !(pixel_offset(0, gpu.ly as int) <= i < pixel_offset(160, gpu.ly as int)) ==> gpu.with_sprites(
            frame,
            n,
        )[i] == frame[i],
    decreases n,
{
    if n > 0 {
        lemma_sprites_stay_on_line(gpu, frame, (n - 1) as nat, i);
        let before = gpu.with_sprites(frame, (n - 1) as nat);
        if gpu.sprite_on_line(gpu.oam[n - 1]) {
            lemma_sprite_pixels_stay_on_line(gpu, before, gpu.oam[n - 1], 8, i);
        }
    }
}

/// Composing the current scanline keeps the size of the frame buffer and
/// changes no byte of any other scanline.
pub proof fn lemma_composed_line(gpu: GpuView, i: int)
    requires
        gpu.frame.len() == FRAME_SIZE,
        gpu.ly < 144,
        0 <= i < FRAME_SIZE,
    ensures
        gpu.composed().len() == FRAME_SIZE,
        !(pixel_offset(0, gpu.ly as int) <= i < pixel_offset(160, gpu.ly as int)) ==> gpu.composed()[i]
            == gpu.frame[i],
{
    let ground = if gpu.lcd_on() && gpu.bg_priority() {
        GpuView { frame: gpu.with_background(gpu.frame, 160), ..gpu }
    } else {
        GpuView { frame: cleared_line(gpu.frame, gpu.ly as int), ..gpu }
    };
    lemma_background_line(gpu, gpu.frame, 160, i);
    let windowed = if ground.window_enabled() {
        GpuView { frame: ground.with_window(ground.frame, 160), ..ground }
    } else {
        ground
    };
    lemma_window_line(ground, ground.frame, 160, i);
    lemma_sprites_stay_on_line(windowed, windowed.frame, 40, i);
}

} // verus!
