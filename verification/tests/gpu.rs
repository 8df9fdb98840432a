use yeeboy::gpu::{color_map, palette_color, pixel_index, Gpu, Mode, Sprite};

fn pixel(gpu: &Gpu, x: usize, y: usize) -> (u8, u8, u8) {
    let offset = (y * 160 + x) * 3;
    (gpu.frame[offset], gpu.frame[offset + 1], gpu.frame[offset + 2])
}

const COLORS: [(u8, u8, u8); 4] = [(0x9B, 0xBC, 0x0F), (0x8B, 0xAC, 0x0F), (0x30, 0x62, 0x30), (0x0F, 0x38, 0x0F)];

#[test]
fn power_on_state() {
    let gpu = Gpu::new();
    assert!(matches!(gpu.mode, Mode::HBlank));
    assert_eq!(gpu.lcd, 0);
    assert_eq!(gpu.ly, 0);
    assert_eq!(gpu.frame.len(), 160 * 144 * 3);
    assert_eq!(gpu.vram.len(), 0x2000);
    assert_eq!(gpu.oam.len(), 40);
    assert!(!gpu.new_frame);
    assert!(!gpu.lcd_on());
}

#[test]
fn fixed_colors() {
    for color in 0..4u8 {
        assert_eq!(color_map(color), COLORS[color as usize]);
    }
    assert_eq!(palette_color(0b11_10_01_00, 0), 0);
    assert_eq!(palette_color(0b11_10_01_00, 1), 1);
    assert_eq!(palette_color(0b11_10_01_00, 2), 2);
    assert_eq!(palette_color(0b11_10_01_00, 3), 3);
    assert_eq!(palette_color(0b00_01_10_11, 0), 3);
    assert_eq!(palette_color(0b00_01_10_11, 3), 0);
    assert_eq!(pixel_index(0b1000_0000, 0b1000_0000, 7), 3);
    assert_eq!(pixel_index(0b1000_0000, 0b0000_0000, 7), 1);
    assert_eq!(pixel_index(0b0000_0000, 0b1000_0000, 7), 2);
    assert_eq!(pixel_index(0b0111_1111, 0b0111_1111, 7), 0);
}

#[test]
fn mode_machine_follows_the_durations() {
    let mut gpu = Gpu::new();
    gpu.lyc = 0xFF;
    gpu.step(203);
    assert!(matches!(gpu.mode, Mode::HBlank));
    gpu.step(1);
    assert!(matches!(gpu.mode, Mode::OamRead));
    assert_eq!(gpu.ly, 1);
    assert_eq!(gpu.lcd & 3, 2);
    assert_eq!(gpu.cycles, 0);
    gpu.step(79);
    assert!(matches!(gpu.mode, Mode::OamRead));
    gpu.step(4);
    assert!(matches!(gpu.mode, Mode::LcdTransfer));
    assert_eq!(gpu.lcd & 3, 3);
    assert_eq!(gpu.cycles, 3);
    gpu.step(169);
    assert!(matches!(gpu.mode, Mode::HBlank));
    assert_eq!(gpu.lcd & 3, 0);
    assert_eq!(gpu.cycles, 0);
    assert_eq!(gpu.interrupts, 0);
}

#[test]
fn one_change_of_mode_per_step() {
    let mut gpu = Gpu::new();
    gpu.lyc = 0xFF;
    gpu.step(204 + 80 + 5);
    assert!(matches!(gpu.mode, Mode::OamRead));
    assert_eq!(gpu.cycles, 85);
    gpu.step(0);
    assert!(matches!(gpu.mode, Mode::LcdTransfer));
    assert_eq!(gpu.cycles, 5);
}

#[test]
fn vertical_blanking_raises_its_interrupt_once_per_frame() {
    let mut gpu = Gpu::new();
    gpu.lyc = 0xFF;
    // to the start of the next frame
    let mut guard = 0;
    while !(matches!(gpu.mode, Mode::OamRead) && gpu.ly == 0 && gpu.cycles == 0) {
        gpu.step(4);
        guard += 1;
        assert!(guard < 20_000);
    }
    gpu.new_frame = false;
    let mut raised = 0;
    for _ in 0..(70_224 / 4) {
        gpu.step(4);
        if gpu.interrupts & 1 != 0 {
            raised += 1;
            assert_eq!(gpu.ly, 144);
            assert!(matches!(gpu.mode, Mode::VBlank));
            assert_eq!(gpu.lcd & 3, 1);
            assert!(gpu.new_frame);
        }
    }
    assert_eq!(raised, 1);
    assert!(matches!(gpu.mode, Mode::OamRead));
    assert_eq!(gpu.ly, 0);
    assert_eq!(gpu.cycles, 0);
}

#[test]
fn scanline_counter_runs_to_153() {
    let mut gpu = Gpu::new();
    gpu.lyc = 0xFF;
    let mut highest = 0;
    for _ in 0..40_000 {
        gpu.step(4);
        if gpu.ly > highest {
            highest = gpu.ly;
        }
    }
    assert_eq!(highest, 153);
}

#[test]
fn compare_sets_bit_six_and_raises_status_on_entry() {
    let mut gpu = Gpu::new();
    gpu.lyc = 1;
    gpu.lcd = 0;
    gpu.step(204);
    assert_eq!(gpu.ly, 1);
    assert_eq!(gpu.lcd & 0x40, 0x40);
    assert_eq!(gpu.interrupts, 2);
    gpu.step(4);
    assert_eq!(gpu.interrupts, 0);
    assert_eq!(gpu.lcd & 0x40, 0x40);
}

fn tile_row(gpu: &mut Gpu, address: u16, lo: u8, hi: u8) {
    gpu.store(address, lo);
    gpu.store(address + 1, hi);
}

#[test]
fn background_unsigned_tiles() {
    let mut gpu = Gpu::new();
    gpu.control = 0x91;
    gpu.bg_palette = 0b11_10_01_00;
    // tile 1, row 0: indices 3 2 1 0 3 2 1 0
    tile_row(&mut gpu, 0x8010, 0b1010_1010, 0b1100_1100);
    gpu.store(0x9800, 1);
    gpu.render_background();
    assert_eq!(pixel(&gpu, 0, 0), COLORS[3]);
    assert_eq!(pixel(&gpu, 1, 0), COLORS[2]);
    assert_eq!(pixel(&gpu, 2, 0), COLORS[1]);
    assert_eq!(pixel(&gpu, 3, 0), COLORS[0]);
    assert_eq!(pixel(&gpu, 7, 0), COLORS[0]);
    // tile 0 is empty
    assert_eq!(pixel(&gpu, 8, 0), COLORS[0]);
    assert_eq!(pixel(&gpu, 159, 0), COLORS[0]);
    // nothing below the line
    assert_eq!(pixel(&gpu, 0, 1), (0, 0, 0));
}

#[test]
fn background_scrolls_and_maps_through_the_palette() {
    let mut gpu = Gpu::new();
    gpu.control = 0x91 | 0x08;
    gpu.bg_palette = 0b00_01_10_11;
    gpu.scroll_x = 3;
    gpu.scroll_y = 9;
    gpu.ly = 2;
    // line 11 of the map: tile row 1, row 3 of the tile
    tile_row(&mut gpu, 0x8020 + 6, 0b1010_1010, 0b1100_1100);
    gpu.store(0x9C00 + 32, 2);
    gpu.render_background();
    // column 0 shows pixel 3 of the tile: index 0, colour 3
    assert_eq!(pixel(&gpu, 0, 2), COLORS[3]);
    // column 1 shows pixel 4: index 3, colour 0
    assert_eq!(pixel(&gpu, 1, 2), COLORS[0]);
    assert_eq!(pixel(&gpu, 2, 2), COLORS[1]);
    assert_eq!(pixel(&gpu, 3, 2), COLORS[2]);
    assert_eq!(pixel(&gpu, 4, 2), COLORS[3]);
    // the map wraps after 256 pixels: column 253 shows pixel 0 again
    gpu.scroll_x = 253;
    gpu.render_background();
    assert_eq!(pixel(&gpu, 3, 2), COLORS[0]);
    assert_eq!(pixel(&gpu, 4, 2), COLORS[1]);
}

#[test]
fn background_signed_tiles() {
    let mut gpu = Gpu::new();
    gpu.control = 0x81;
    gpu.bg_palette = 0b11_10_01_00;
    // tile -128 at 0x8800, tile 127 at 0x97F0, tile 0 at 0x9000
    tile_row(&mut gpu, 0x8800, 0xFF, 0x00);
    tile_row(&mut gpu, 0x97F0, 0x00, 0xFF);
    tile_row(&mut gpu, 0x9000, 0xFF, 0xFF);
    gpu.store(0x9800, 0x80);
    gpu.store(0x9801, 0x7F);
    gpu.store(0x9802, 0x00);
    gpu.render_background();
    assert_eq!(pixel(&gpu, 0, 0), COLORS[1]);
    assert_eq!(pixel(&gpu, 8, 0), COLORS[2]);
    assert_eq!(pixel(&gpu, 16, 0), COLORS[3]);
}

#[test]
fn window_starts_at_wx_minus_seven_and_wy() {
    let mut gpu = Gpu::new();
    gpu.control = 0x91 | 0x20 | 0x40;
    gpu.bg_palette = 0b11_10_01_00;
    tile_row(&mut gpu, 0x8010, 0xFF, 0xFF);
    gpu.store(0x9C00, 1);
    gpu.window_x = 7 + 4;
    gpu.window_y = 1;
    gpu.compose();
    // line 0: above the window
    assert_eq!(pixel(&gpu, 4, 0), COLORS[0]);
    gpu.ly = 1;
    gpu.compose();
    assert_eq!(pixel(&gpu, 3, 1), COLORS[0]);
    assert_eq!(pixel(&gpu, 4, 1), COLORS[3]);
    assert_eq!(pixel(&gpu, 11, 1), COLORS[3]);
    assert_eq!(pixel(&gpu, 12, 1), COLORS[0]);
    // a window that starts left of the screen
    gpu.window_x = 3;
    gpu.compose();
    assert_eq!(pixel(&gpu, 0, 1), COLORS[3]);
    assert_eq!(pixel(&gpu, 3, 1), COLORS[3]);
    assert_eq!(pixel(&gpu, 4, 1), COLORS[0]);
}

#[test]
fn line_is_cleared_when_the_background_is_off() {
    let mut gpu = Gpu::new();
    gpu.control = 0x91;
    gpu.ly = 5;
    gpu.compose();
    assert_eq!(pixel(&gpu, 0, 5), COLORS[0]);
    gpu.control = 0x90;
    gpu.compose();
    assert_eq!(pixel(&gpu, 0, 5), (0, 0, 0));
    assert_eq!(pixel(&gpu, 159, 5), (0, 0, 0));
    gpu.ly = 6;
    gpu.control = 0x91;
    gpu.compose();
    gpu.ly = 5;
    gpu.control = 0x11;
    gpu.clear_line();
    assert_eq!(pixel(&gpu, 0, 6), COLORS[0]);
    assert_eq!(pixel(&gpu, 0, 4), (0, 0, 0));
}

fn put_sprite(gpu: &mut Gpu, n: u16, y: u8, x: u8, index: u8, attrs: u8) {
    gpu.oam_store(n * 4, y);
    gpu.oam_store(n * 4 + 1, x);
    gpu.oam_store(n * 4 + 2, index);
    gpu.oam_store(n * 4 + 3, attrs);
}

#[test]
fn object_table_bytes() {
    let mut gpu = Gpu::new();
    put_sprite(&mut gpu, 39, 1, 2, 3, 4);
    assert_eq!(gpu.oam_load(39 * 4), 1);
    assert_eq!(gpu.oam_load(39 * 4 + 1), 2);
    assert_eq!(gpu.oam_load(39 * 4 + 2), 3);
    assert_eq!(gpu.oam_load(39 * 4 + 3), 4);
    assert_eq!(gpu.oam_load(0), 0);
    let sprite = Sprite::new();
    assert!(!sprite.x_flip());
    assert!(!sprite.y_flip());
    assert!(gpu.oam[39].attrs == 4);
}

#[test]
fn sprites_over_the_background() {
    let mut gpu = Gpu::new();
    gpu.control = 0x91;
    gpu.bg_palette = 0b11_10_01_00;
    gpu.obj_palette_0 = 0b11_10_01_00;
    gpu.obj_palette_1 = 0b00_01_10_11;
    // tile 2, row 0: indices 1 2 3 0 0 0 0 0; row 7: all 3
    tile_row(&mut gpu, 0x8020, 0b1010_0000, 0b0110_0000);
    tile_row(&mut gpu, 0x8020 + 14, 0xFF, 0xFF);
    put_sprite(&mut gpu, 0, 16, 8, 2, 0x00);
    put_sprite(&mut gpu, 39, 16, 28, 2, 0x10);
    gpu.compose();
    assert_eq!(pixel(&gpu, 0, 0), COLORS[1]);
    assert_eq!(pixel(&gpu, 1, 0), COLORS[2]);
    assert_eq!(pixel(&gpu, 2, 0), COLORS[3]);
    // index 0 is transparent
    assert_eq!(pixel(&gpu, 3, 0), COLORS[0]);
    // the last entry of the table, with the second palette
    assert_eq!(pixel(&gpu, 20, 0), COLORS[2]);
    assert_eq!(pixel(&gpu, 21, 0), COLORS[1]);
    assert_eq!(pixel(&gpu, 22, 0), COLORS[0]);
    // the sprite is 8 lines high
    gpu.ly = 7;
    gpu.compose();
    assert_eq!(pixel(&gpu, 0, 7), COLORS[3]);
    assert_eq!(pixel(&gpu, 7, 7), COLORS[3]);
    assert_eq!(pixel(&gpu, 8, 7), COLORS[0]);
    gpu.ly = 8;
    gpu.compose();
    assert_eq!(pixel(&gpu, 0, 8), COLORS[0]);
}

#[test]
fn sprite_flips() {
    let mut gpu = Gpu::new();
    gpu.control = 0x91;
    gpu.obj_palette_0 = 0b11_10_01_00;
    tile_row(&mut gpu, 0x8020, 0b1010_0000, 0b0110_0000);
    put_sprite(&mut gpu, 0, 16, 8, 2, 0x20);
    gpu.compose();
    assert_eq!(pixel(&gpu, 7, 0), COLORS[1]);
    assert_eq!(pixel(&gpu, 6, 0), COLORS[2]);
    assert_eq!(pixel(&gpu, 5, 0), COLORS[3]);
    assert_eq!(pixel(&gpu, 0, 0), COLORS[0]);
    // mirrored top to bottom, row 0 of the tile shows on the last line
    put_sprite(&mut gpu, 0, 16, 8, 2, 0x40);
    gpu.compose();
    assert_eq!(pixel(&gpu, 0, 0), COLORS[0]);
    gpu.ly = 7;
    gpu.compose();
    assert_eq!(pixel(&gpu, 0, 7), COLORS[1]);
}

#[test]
fn tall_sprites() {
    let mut gpu = Gpu::new();
    gpu.control = 0x91 | 0x04;
    gpu.obj_palette_0 = 0b11_10_01_00;
    // row 15 of a sprite of 16 lines that starts at tile 2
    tile_row(&mut gpu, 0x8020 + 30, 0xFF, 0x00);
    put_sprite(&mut gpu, 0, 16, 8, 2, 0x00);
    gpu.ly = 15;
    gpu.compose();
    assert_eq!(pixel(&gpu, 0, 15), COLORS[1]);
    gpu.ly = 16;
    gpu.compose();
    assert_eq!(pixel(&gpu, 0, 16), COLORS[0]);
}

#[test]
fn sprite_behind_the_background_shows_over_color_zero_only() {
    let mut gpu = Gpu::new();
    gpu.control = 0x91;
    gpu.bg_palette = 0b11_10_01_00;
    gpu.obj_palette_0 = 0b11_10_01_00;
    // background tile 1: left half index 0, right half index 1
    tile_row(&mut gpu, 0x8010, 0x0F, 0x00);
    gpu.store(0x9800, 1);
    tile_row(&mut gpu, 0x8020, 0xFF, 0xFF);
    put_sprite(&mut gpu, 0, 16, 8, 2, 0x80);
    gpu.compose();
    assert_eq!(pixel(&gpu, 0, 0), COLORS[3]);
    assert_eq!(pixel(&gpu, 3, 0), COLORS[3]);
    assert_eq!(pixel(&gpu, 4, 0), COLORS[1]);
    assert_eq!(pixel(&gpu, 7, 0), COLORS[1]);
    // with priority it covers everything
    put_sprite(&mut gpu, 0, 16, 8, 2, 0x00);
    gpu.compose();
    assert_eq!(pixel(&gpu, 4, 0), COLORS[3]);
}

#[test]
fn sprites_at_the_edges_of_the_screen() {
    let mut gpu = Gpu::new();
    gpu.control = 0x91;
    gpu.obj_palette_0 = 0b11_10_01_00;
    tile_row(&mut gpu, 0x8020, 0xFF, 0xFF);
    gpu.ly = 143;
    // half off the left edge, half off the right edge, and off the screen
    put_sprite(&mut gpu, 0, 143 + 16, 4, 2, 0x00);
    put_sprite(&mut gpu, 1, 143 + 16, 164, 2, 0x00);
    put_sprite(&mut gpu, 2, 143 + 16, 168, 2, 0x00);
    put_sprite(&mut gpu, 3, 143 + 16, 0, 2, 0x00);
    gpu.compose();
    assert_eq!(pixel(&gpu, 0, 143), COLORS[3]);
    assert_eq!(pixel(&gpu, 3, 143), COLORS[3]);
    assert_eq!(pixel(&gpu, 4, 143), COLORS[0]);
    assert_eq!(pixel(&gpu, 155, 143), COLORS[0]);
    assert_eq!(pixel(&gpu, 156, 143), COLORS[3]);
    assert_eq!(pixel(&gpu, 159, 143), COLORS[3]);
    assert_eq!(gpu.frame.len(), 160 * 144 * 3);
}

#[test]
fn scanline_is_composed_at_the_end_of_the_transfer() {
    let mut gpu = Gpu::new();
    gpu.control = 0x91;
    gpu.lyc = 0xFF;
    gpu.step(204);
    gpu.step(80);
    assert_eq!(pixel(&gpu, 0, 1), (0, 0, 0));
    gpu.step(171);
    assert_eq!(pixel(&gpu, 0, 1), (0, 0, 0));
    gpu.step(1);
    assert!(matches!(gpu.mode, Mode::HBlank));
    assert_eq!(pixel(&gpu, 0, 1), COLORS[0]);
    assert_eq!(pixel(&gpu, 159, 1), COLORS[0]);
    assert_eq!(pixel(&gpu, 0, 0), (0, 0, 0));
    assert_eq!(pixel(&gpu, 0, 2), (0, 0, 0));
}
