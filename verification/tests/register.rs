use yeeboy::register::{join, split, Flag, Register16, Register8, Registers};

#[test]
fn reset_values() {
    let regs = Registers::new();
    assert_eq!(regs.a, 0x01);
    assert_eq!(regs.f, 0xB0);
    assert_eq!(regs.get16(Register16::BC), 0x0013);
    assert_eq!(regs.get16(Register16::DE), 0x00D8);
    assert_eq!(regs.get16(Register16::HL), 0x014D);
    assert_eq!(regs.sp, 0xFFFE);
}

#[test]
fn pairs_are_big_endian() {
    let mut regs = Registers::new();
    regs.set16(Register16::BC, 0x1234);
    assert_eq!(regs.b, 0x12);
    assert_eq!(regs.c, 0x34);
    regs.set(Register8::H, 0xAB);
    regs.set(Register8::L, 0xCD);
    assert_eq!(regs.get16(Register16::HL), 0xABCD);
    assert_eq!(join(0xAB, 0xCD), 0xABCD);
    assert_eq!(split(0xABCD), (0xAB, 0xCD));
}

#[test]
fn sixteen_bit_write_reads_back_masked() {
    for value in [0x0000u16, 0xFFFF, 0x1234, 0x00FF, 0xA5F7] {
        for pair in [Register16::BC, Register16::DE, Register16::HL, Register16::SP] {
            let mut regs = Registers::new();
            regs.set16(pair, value);
            assert_eq!(regs.get16(pair), value);
        }
        let mut regs = Registers::new();
        regs.set16(Register16::AF, value);
        assert_eq!(regs.get16(Register16::AF), value & 0xFFF0);
        assert_eq!(regs.f & 0x0F, 0);
    }
}

#[test]
fn write_to_f_masks_low_nibble() {
    let mut regs = Registers::new();
    regs.set(Register8::F, 0xFF);
    assert_eq!(regs.get(Register8::F), 0xF0);
}

#[test]
fn flags_live_in_the_high_nibble() {
    let mut regs = Registers::new();
    regs.set(Register8::F, 0);
    regs.flag(Flag::Z, true);
    assert_eq!(regs.f, 0x80);
    regs.flag(Flag::N, true);
    assert_eq!(regs.f, 0xC0);
    regs.flag(Flag::H, true);
    assert_eq!(regs.f, 0xE0);
    regs.flag(Flag::C, true);
    assert_eq!(regs.f, 0xF0);
    regs.flag(Flag::N, false);
    assert_eq!(regs.f, 0xB0);
    assert!(regs.has_flag(Flag::Z));
    assert!(!regs.has_flag(Flag::N));
    assert!(regs.has_flag(Flag::H));
    assert!(regs.has_flag(Flag::C));
    regs.unset_flag(Flag::Z);
    regs.set_flag(Flag::N);
    assert_eq!(regs.f, 0x70);
}
