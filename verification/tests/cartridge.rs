use yeeboy::cartridge::{Cartridge, CartridgeType, Controller, Headers, MBC, MBC1, MBC3, RomOnly};

fn image(kind: u8, rom_size: u8, ram_size: u8, len: usize) -> Vec<u8> {
    let mut rom = vec![0u8; len];
    for (index, byte) in rom.iter_mut().enumerate() {
        *byte = (index / 0x4000) as u8;
    }
    rom[0x147] = kind;
    rom[0x148] = rom_size;
    rom[0x149] = ram_size;
    rom
}

#[test]
fn header_fields() {
    assert!(matches!(Headers::cartridge_type(0x00), CartridgeType::RomOnly));
    assert!(matches!(Headers::cartridge_type(0x01), CartridgeType::MBC1));
    assert!(matches!(Headers::cartridge_type(0x03), CartridgeType::MBC1));
    assert!(matches!(Headers::cartridge_type(0x0F), CartridgeType::MBC3));
    assert!(matches!(Headers::cartridge_type(0x13), CartridgeType::MBC3));
    assert_eq!(Headers::rom_size(0), 0x8000);
    assert_eq!(Headers::rom_size(1), 0x10000);
    assert_eq!(Headers::rom_size(6), 0x200000);
    assert_eq!(Headers::ram_size(0), 0);
    assert_eq!(Headers::ram_size(1), 0x800);
    assert_eq!(Headers::ram_size(2), 0x2000);
    assert_eq!(Headers::ram_size(3), 0x8000);
}

#[test]
fn header_validation() {
    assert!(Headers::valid(&image(0x00, 0, 0, 0x8000)));
    assert!(Headers::valid(&image(0x13, 6, 3, 0x8000)));
    assert!(!Headers::valid(&image(0x04, 0, 0, 0x8000)));
    assert!(!Headers::valid(&image(0x0E, 0, 0, 0x8000)));
    assert!(!Headers::valid(&image(0x14, 0, 0, 0x8000)));
    assert!(!Headers::valid(&image(0x00, 17, 0, 0x8000)));
    assert!(!Headers::valid(&image(0x00, 0, 4, 0x8000)));
    assert!(!Headers::valid(&vec![0u8; 0x149]));
    assert!(Headers::valid(&vec![0u8; 0x14A]));
}

#[test]
fn load_selects_the_controller() {
    let cart = Cartridge::load(image(0x00, 0, 0, 0x8000));
    assert!(matches!(cart.headers.cartridge_type, CartridgeType::RomOnly));
    assert!(matches!(cart.mbc, Controller::RomOnly(_)));
    assert_eq!(cart.headers.rom_size, 0x8000);
    let cart = Cartridge::load(image(0x02, 2, 1, 0x20000));
    assert!(matches!(cart.mbc, Controller::MBC1(_)));
    assert_eq!(cart.headers.rom_size, 0x20000);
    assert_eq!(cart.headers.ram_size, 0x800);
    let cart = Cartridge::load(image(0x10, 1, 3, 0x10000));
    assert!(matches!(cart.mbc, Controller::MBC3(_)));
    assert_eq!(cart.headers.ram_size, 0x8000);
}

#[test]
fn rom_only_reads_the_image_and_ignores_writes() {
    let mut mbc = RomOnly::new(image(0x00, 0, 0, 0x8000));
    assert_eq!(mbc.load(0x0147), 0x00);
    assert_eq!(mbc.load(0x3FFF), 0);
    assert_eq!(mbc.load(0x4000), 1);
    assert_eq!(mbc.load(0x7FFF), 1);
    mbc.store(0x2000, 0x05);
    mbc.store(0x4000, 0x7F);
    assert_eq!(mbc.load(0x4000), 1);
    assert!(mbc.can_store(0x0000));
    assert!(mbc.can_store(0x7FFF));
    assert!(!mbc.can_store(0x8000));
    assert!(!mbc.can_store(0xA000));
    assert!(mbc.can_load(0x7FFF));
    assert!(!mbc.can_load(0xA000));
    let short = RomOnly::new(vec![0u8; 0x2000]);
    assert!(short.can_load(0x1FFF));
    assert!(!short.can_load(0x2000));
}

#[test]
fn mbc1_banks() {
    let mut mbc = MBC1::new(image(0x01, 6, 0, 0x200000));
    assert_eq!(mbc.load(0x0000), 0);
    assert_eq!(mbc.load(0x4000), 1);
    mbc.store(0x2000, 0x05);
    assert_eq!(mbc.load(0x4000), 5);
    assert_eq!(mbc.load(0x7FFF), 5);
    // 0 is taken as 1
    mbc.store(0x3FFF, 0x00);
    assert_eq!(mbc.load(0x4000), 1);
    // only five bits are taken
    mbc.store(0x2000, 0xE3);
    assert_eq!(mbc.load(0x4000), 3);
    // the two high bits, in ROM mode
    mbc.store(0x4000, 0x02);
    assert_eq!(mbc.rom_bank, 0x43);
    assert_eq!(mbc.load(0x4000), 0x43);
    mbc.store(0x2000, 0x1F);
    assert_eq!(mbc.rom_bank, 0x5F);
    // in RAM mode the same write selects the RAM bank
    mbc.store(0x6000, 0x01);
    mbc.store(0x4000, 0x07);
    assert_eq!(mbc.ram_bank, 3);
    assert_eq!(mbc.rom_bank, 0x5F);
    mbc.store(0x6000, 0x00);
    mbc.store(0x4000, 0x00);
    assert_eq!(mbc.rom_bank, 0x1F);
    // RAM enable has no effect, RAM is not stored
    mbc.store(0x0000, 0x0A);
    assert!(mbc.can_store(0xA000));
    assert!(mbc.can_store(0xBFFF));
    assert!(!mbc.can_store(0xC000));
    mbc.store(0xA000, 0x55);
    assert_eq!(mbc.load(0xA000), 0);
    assert!(mbc.can_load(0xBFFF));
}

#[test]
fn mbc1_bank_beyond_the_image_cannot_be_read() {
    let mut mbc = MBC1::new(image(0x01, 1, 0, 0x10000));
    assert!(mbc.can_load(0x4000));
    mbc.store(0x2000, 0x03);
    assert!(mbc.can_load(0x7FFF));
    mbc.store(0x2000, 0x04);
    assert!(!mbc.can_load(0x4000));
    assert!(mbc.can_load(0x3FFF));
}

#[test]
fn mbc3_banks_and_ram() {
    let mut mbc = MBC3::new(image(0x13, 6, 3, 0x200000));
    assert_eq!(mbc.load(0x4000), 1);
    mbc.store(0x2000, 0x7F);
    assert_eq!(mbc.load(0x4000), 0x7F);
    mbc.store(0x2000, 0x80);
    assert_eq!(mbc.load(0x4000), 1);
    mbc.store(0xA000, 0x11);
    mbc.store(0xBFFF, 0x22);
    mbc.store(0x4000, 0x03);
    assert_eq!(mbc.load(0xA000), 0);
    mbc.store(0xA000, 0x33);
    mbc.store(0x4000, 0x04);
    assert_eq!(mbc.load(0xA000), 0x11);
    assert_eq!(mbc.load(0xBFFF), 0x22);
    mbc.store(0x4000, 0x07);
    assert_eq!(mbc.load(0xA000), 0x33);
    // the clock latch is ignored
    mbc.store(0x6000, 0x01);
    assert_eq!(mbc.load(0xA000), 0x33);
    assert_eq!(mbc.load(0x4000), 1);
}
