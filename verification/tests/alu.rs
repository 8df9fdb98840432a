use yeeboy::alu::{
    adc8, add16, add8, add_sp, and8, bit8, cp8, daa8, dec8, inc8, offset, or8, res8, rl8, rlc8, rr8, rrc8, sbc8,
    set8, sla8, sra8, srl8, sub8, swap8, xor8,
};
use yeeboy::register::FlagUpdate;

fn all(z: bool, n: bool, h: bool, c: bool) -> FlagUpdate {
    FlagUpdate { z: Some(z), n: Some(n), h: Some(h), c: Some(c) }
}

#[test]
fn addition() {
    assert_eq!(add8(0x3A, 0xC6), (0x00, all(true, false, true, true)));
    assert_eq!(add8(0x0F, 0x01), (0x10, all(false, false, true, false)));
    assert_eq!(add8(0xF0, 0x20), (0x10, all(false, false, false, true)));
    assert_eq!(adc8(0xE1, 0x0F, true), (0xF1, all(false, false, true, false)));
    assert_eq!(adc8(0xFF, 0x00, true), (0x00, all(true, false, true, true)));
    assert_eq!(adc8(0x01, 0x02, false), (0x03, all(false, false, false, false)));
}

#[test]
fn subtraction() {
    assert_eq!(sub8(0x3E, 0x3E), (0x00, all(true, true, false, false)));
    assert_eq!(sub8(0x3E, 0x0F), (0x2F, all(false, true, true, false)));
    assert_eq!(sub8(0x3E, 0x40), (0xFE, all(false, true, false, true)));
    assert_eq!(cp8(0x3C, 0x2F), all(false, true, true, false));
    assert_eq!(cp8(0x3C, 0x3C), all(true, true, false, false));
    assert_eq!(cp8(0x3C, 0x40), all(false, true, false, true));
    assert_eq!(sbc8(0x3B, 0x2A, true), (0x10, all(false, true, false, false)));
    assert_eq!(sbc8(0x3B, 0x3A, true), (0x00, all(true, true, false, false)));
    assert_eq!(sbc8(0x3B, 0x4F, true), (0xEB, all(false, true, true, true)));
    assert_eq!(sbc8(0x00, 0xFF, true), (0x00, all(true, true, true, true)));
}

#[test]
fn logic() {
    assert_eq!(and8(0x5A, 0x3F), (0x1A, all(false, false, true, false)));
    assert_eq!(and8(0x5A, 0x00), (0x00, all(true, false, true, false)));
    assert_eq!(or8(0x5A, 0x0F), (0x5F, all(false, false, false, false)));
    assert_eq!(or8(0x00, 0x00), (0x00, all(true, false, false, false)));
    assert_eq!(xor8(0xFF, 0x0F), (0xF0, all(false, false, false, false)));
    assert_eq!(xor8(0xFF, 0xFF), (0x00, all(true, false, false, false)));
}

#[test]
fn increment_and_decrement_leave_carry_alone() {
    assert_eq!(inc8(0xFF), (0x00, FlagUpdate { z: Some(true), n: Some(false), h: Some(true), c: None }));
    assert_eq!(inc8(0x0F), (0x10, FlagUpdate { z: Some(false), n: Some(false), h: Some(true), c: None }));
    assert_eq!(inc8(0x12), (0x13, FlagUpdate { z: Some(false), n: Some(false), h: Some(false), c: None }));
    assert_eq!(dec8(0x01), (0x00, FlagUpdate { z: Some(true), n: Some(true), h: Some(false), c: None }));
    assert_eq!(dec8(0x10), (0x0F, FlagUpdate { z: Some(false), n: Some(true), h: Some(true), c: None }));
    assert_eq!(dec8(0x00), (0xFF, FlagUpdate { z: Some(false), n: Some(true), h: Some(true), c: None }));
}

#[test]
fn rotates_and_shifts() {
    assert_eq!(rlc8(0x85), (0x0B, all(false, false, false, true)));
    assert_eq!(rlc8(0x00), (0x00, all(true, false, false, false)));
    assert_eq!(rl8(0x80, false), (0x00, all(true, false, false, true)));
    assert_eq!(rl8(0x11, true), (0x23, all(false, false, false, false)));
    assert_eq!(rrc8(0x01), (0x80, all(false, false, false, true)));
    assert_eq!(rr8(0x01, false), (0x00, all(true, false, false, true)));
    assert_eq!(rr8(0x8A, true), (0xC5, all(false, false, false, false)));
    assert_eq!(sla8(0x80), (0x00, all(true, false, false, true)));
    assert_eq!(sla8(0xFF), (0xFE, all(false, false, false, true)));
    assert_eq!(sra8(0x8A), (0xC5, all(false, false, false, false)));
    assert_eq!(sra8(0x01), (0x00, all(true, false, false, true)));
    assert_eq!(srl8(0x01), (0x00, all(true, false, false, true)));
    assert_eq!(srl8(0xFF), (0x7F, all(false, false, false, true)));
    assert_eq!(swap8(0xF1), (0x1F, all(false, false, false, false)));
    assert_eq!(swap8(0x00), (0x00, all(true, false, false, false)));
}

#[test]
fn bit_operations() {
    assert_eq!(bit8(7, 0x80), FlagUpdate { z: Some(false), n: Some(false), h: Some(true), c: None });
    assert_eq!(bit8(4, 0xEF), FlagUpdate { z: Some(true), n: Some(false), h: Some(true), c: None });
    assert_eq!(res8(7, 0x80), 0x00);
    assert_eq!(res8(1, 0x3B), 0x39);
    assert_eq!(set8(3, 0x80), 0x88);
    assert_eq!(set8(7, 0x3B), 0xBB);
}

#[test]
fn decimal_adjust() {
    // 0x45 + 0x38 = 0x7D, adjusted to 0x83
    assert_eq!(daa8(0x7D, false, false, false), (0x83, FlagUpdate { z: Some(false), n: None, h: Some(false), c: Some(false) }));
    // 0x83 - 0x38 = 0x4B with half carry, adjusted to 0x45
    assert_eq!(daa8(0x4B, true, true, false), (0x45, FlagUpdate { z: Some(false), n: None, h: Some(false), c: Some(false) }));
    // 0x99 + 0x01 = 0x9A, adjusted to 0x00 with carry
    assert_eq!(daa8(0x9A, false, false, false), (0x00, FlagUpdate { z: Some(true), n: None, h: Some(false), c: Some(true) }));
    assert_eq!(daa8(0x00, false, false, true), (0x60, FlagUpdate { z: Some(false), n: None, h: Some(false), c: Some(true) }));
}

#[test]
fn sixteen_bit_addition() {
    assert_eq!(add16(0x8A23, 0x0605), (0x9028, FlagUpdate { z: None, n: Some(false), h: Some(true), c: Some(false) }));
    assert_eq!(add16(0x8A23, 0x8A23), (0x1446, FlagUpdate { z: None, n: Some(false), h: Some(true), c: Some(true) }));
    assert_eq!(add16(0x0001, 0x0002), (0x0003, FlagUpdate { z: None, n: Some(false), h: Some(false), c: Some(false) }));
}

#[test]
fn stack_pointer_offsets() {
    assert_eq!(add_sp(0xFFF8, 0x02), (0xFFFA, all(false, false, false, false)));
    assert_eq!(add_sp(0xFFFE, 0xFE), (0xFFFC, all(false, false, true, true)));
    assert_eq!(add_sp(0x00FF, 0x01), (0x0100, all(false, false, true, true)));
    assert_eq!(add_sp(0x0000, 0xFF), (0xFFFF, all(false, false, false, false)));
    assert_eq!(offset(0x0102, 0xFB), 0x00FD);
    assert_eq!(offset(0x0102, 0x05), 0x0107);
    assert_eq!(offset(0x0000, 0x80), 0xFF80);
    assert_eq!(offset(0xFFFF, 0x7F), 0x007E);
}
