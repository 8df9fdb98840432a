use yeeboy::cartridge::Cartridge;
use yeeboy::gpu::Mode;
use yeeboy::input::Button;
use yeeboy::memory::Memory;

fn image(kind: u8, len: usize) -> Vec<u8> {
    let mut rom = vec![0u8; len];
    for (index, byte) in rom.iter_mut().enumerate() {
        *byte = (index / 0x4000) as u8;
    }
    rom[0x147] = kind;
    rom
}

fn memory(kind: u8) -> Memory {
    Memory::new(Cartridge::load(image(kind, 0x10000)))
}

#[test]
fn rom_windows_read_the_cartridge() {
    let mut memory = memory(0x01);
    assert_eq!(memory.load(0x0147), 0x01);
    assert_eq!(memory.load(0x4000), 1);
    // writes reach the bank controller
    memory.store(0x2000, 0x02);
    assert_eq!(memory.load(0x4000), 2);
    assert_eq!(memory.load(0x7FFF), 2);
    assert_eq!(memory.load(0x3FFF), 0);
}

#[test]
fn rom_only_ignores_writes() {
    let mut memory = memory(0x00);
    memory.store(0x0100, 0x42);
    memory.store(0x2000, 0x02);
    assert_eq!(memory.load(0x0100), 0);
    assert!(memory.can_store(0x0000));
    assert!(memory.can_store(0x7FFF));
    assert!(memory.can_store(0x8000));
    assert!(!memory.can_store(0xA000));
    assert!(!memory.can_store(0xBFFF));
    assert!(memory.can_store(0xC000));
    assert!(!memory.can_store16(0x9FFF));
    assert!(!memory.can_store16(0xBFFF));
    assert!(memory.can_store16(0xFFFF));
    assert_eq!(memory.load(0x4000), 1);
    assert!(memory.can_load(0x7FFF));
    assert!(!memory.can_load(0xA000));
    assert!(!memory.can_load(0xBFFF));
    assert!(memory.can_load(0xC000));
    assert!(!memory.can_load16(0x9FFF));
    assert!(memory.can_load16(0xBFFF) == false);
    assert!(memory.can_load16(0xFFFF));
}

#[test]
fn cartridges_with_a_controller_take_writes_to_the_ram_window() {
    assert!(memory(0x01).can_store(0xA000));
    assert!(memory(0x13).can_store16(0xBFFE));
    let mut memory = memory(0x01);
    memory.store(0xA000, 0x42);
    assert_eq!(memory.load(0xA000), 0);
}

#[test]
fn stored_bytes_read_back() {
    let mut memory = memory(0x13);
    for address in [
        0x8000u16, 0x9FFF, 0xA000, 0xBFFF, 0xC000, 0xDFFF, 0xE000, 0xFDFF, 0xFE00, 0xFE9F, 0xFF80, 0xFFFE, 0xFFFF,
        0xFF0F, 0xFF02, 0xFF7F,
    ] {
        let value = (address >> 8) as u8 ^ address as u8 ^ 0xA5;
        memory.store(address, value);
        assert_eq!(memory.load(address), value);
    }
}

#[test]
fn echo_mirrors_work_ram() {
    let mut memory = memory(0x00);
    for address in [0xC000u16, 0xC123, 0xDDFF] {
        memory.store(address, 0x5A);
        assert_eq!(memory.load(address), 0x5A);
        assert_eq!(memory.load(address + 0x2000), 0x5A);
        memory.store(address + 0x2000, 0xA5);
        assert_eq!(memory.load(address), 0xA5);
        assert_eq!(memory.load(address + 0x2000), 0xA5);
    }
    memory.store(0xDE00, 0x11);
    assert_eq!(memory.load(0xDE00), 0x11);
}

#[test]
fn unusable_region_reads_zero() {
    let mut memory = memory(0x00);
    memory.store(0xFEA0, 0x12);
    memory.store(0xFEFF, 0x34);
    assert_eq!(memory.load(0xFEA0), 0);
    assert_eq!(memory.load(0xFEFF), 0);
}

#[test]
fn sixteen_bit_accesses_are_little_endian() {
    let mut memory = memory(0x00);
    memory.store16(0xC000, 0x1234);
    assert_eq!(memory.load(0xC000), 0x34);
    assert_eq!(memory.load(0xC001), 0x12);
    assert_eq!(memory.load16(0xC000), 0x1234);
    memory.store16(0xDFFF, 0xBEEF);
    assert_eq!(memory.load(0xDFFF), 0xEF);
    assert_eq!(memory.load(0xE000), 0xBE);
    assert_eq!(memory.load(0xC000), 0xBE);
    assert_eq!(memory.load16(0xDFFF), 0xBEEF);
    memory.store16(0xFF80, 0xCAFE);
    assert_eq!(memory.load16(0xFF80), 0xCAFE);
    memory.store16(0x8000, 0x0102);
    assert_eq!(memory.load16(0x8000), 0x0102);
    memory.store16(0xFE00, 0x0304);
    assert_eq!(memory.load16(0xFE00), 0x0304);
}

#[test]
fn timer_registers() {
    let mut memory = memory(0x00);
    memory.timer.div = 0x77;
    assert_eq!(memory.load(0xFF04), 0x77);
    memory.store(0xFF04, 0x12);
    assert_eq!(memory.load(0xFF04), 0);
    memory.store(0xFF05, 0x11);
    memory.store(0xFF06, 0x22);
    memory.store(0xFF07, 0x05);
    assert_eq!(memory.timer.tima, 0x11);
    assert_eq!(memory.timer.tma, 0x22);
    assert_eq!(memory.timer.tac, 0x05);
    assert_eq!(memory.load(0xFF05), 0x11);
    assert_eq!(memory.load(0xFF06), 0x22);
    assert_eq!(memory.load(0xFF07), 0x05);
}

#[test]
fn pixel_unit_registers() {
    let mut memory = memory(0x00);
    for (address, value) in [
        (0xFF40u16, 0x91u8),
        (0xFF41, 0x48),
        (0xFF42, 0x12),
        (0xFF43, 0x34),
        (0xFF45, 0x56),
        (0xFF47, 0xE4),
        (0xFF48, 0xD2),
        (0xFF49, 0x1B),
        (0xFF4A, 0x10),
        (0xFF4B, 0x20),
    ] {
        memory.store(address, value);
        assert_eq!(memory.load(address), value);
    }
    assert_eq!(memory.gpu.control, 0x91);
    assert_eq!(memory.gpu.lcd, 0x48);
    assert_eq!(memory.gpu.scroll_y, 0x12);
    assert_eq!(memory.gpu.scroll_x, 0x34);
    assert_eq!(memory.gpu.lyc, 0x56);
    assert_eq!(memory.gpu.bg_palette, 0xE4);
    assert_eq!(memory.gpu.obj_palette_0, 0xD2);
    assert_eq!(memory.gpu.obj_palette_1, 0x1B);
    assert_eq!(memory.gpu.window_y, 0x10);
    assert_eq!(memory.gpu.window_x, 0x20);
    // a write to the scanline counter resets it
    memory.gpu.ly = 0x42;
    assert_eq!(memory.load(0xFF44), 0x42);
    memory.store(0xFF44, 0x99);
    assert_eq!(memory.load(0xFF44), 0);
    assert!(matches!(memory.gpu.mode, Mode::HBlank));
}

#[test]
fn joypad_register() {
    let mut memory = memory(0x00);
    assert_eq!(memory.load(0xFF00), 0xCF);
    memory.input.key_down(Button::Down);
    memory.store(0xFF00, 0x20);
    assert_eq!(memory.load(0xFF00), 0xE0 | 0b0111);
    memory.store(0xFF00, 0x10);
    assert_eq!(memory.load(0xFF00), 0xD0 | 0b1111);
}

#[test]
fn serial_bytes_are_kept_in_order() {
    let mut memory = memory(0x00);
    memory.store(0xFF01, b'o');
    memory.store(0xFF01, b'k');
    assert_eq!(memory.serial, vec!['o', 'k']);
    assert_eq!(memory.load(0xFF01), 0);
}

#[test]
fn object_table_through_the_map() {
    let mut memory = memory(0x00);
    memory.store(0xFE00, 0x10);
    memory.store(0xFE01, 0x08);
    memory.store(0xFE02, 0x02);
    memory.store(0xFE03, 0x80);
    assert_eq!(memory.gpu.oam[0].y, 0x10);
    assert_eq!(memory.gpu.oam[0].x, 0x08);
    assert_eq!(memory.gpu.oam[0].index, 0x02);
    assert_eq!(memory.gpu.oam[0].attrs, 0x80);
    memory.store(0xFE9F, 0x7F);
    assert_eq!(memory.gpu.oam[39].attrs, 0x7F);
    assert_eq!(memory.load(0xFE9F), 0x7F);
}
