use yeeboy::cartridge::{Cartridge, CartridgeType, Controller, Headers, RomOnly};
use yeeboy::cpu::{Cpu, Instruction, Storage};
use yeeboy::register::{Flag, Register16, Register8};

/// A processor on a cartridge without bank controller whose 8 KiB image is
/// zero but for the given bytes.
fn make_cpu_with(program: &[(u16, u8)]) -> Cpu {
    let mut rom = vec![0; 0x2000];
    for &(address, byte) in program {
        rom[address as usize] = byte;
    }
    let headers = Headers { cartridge_type: CartridgeType::RomOnly, rom_size: 0, ram_size: 0 };
    let mbc = RomOnly::new(rom);
    let cart = Cartridge { mbc: Controller::RomOnly(mbc), headers };
    Cpu::new(cart, false)
}

#[test]
fn test_load_byte() {
    let cpu = make_cpu_with(&[(0x100, 0x42)]);
    assert_eq!(cpu.load_byte(), 0x42);
}

#[test]
fn test_load_word() {
    let cpu = make_cpu_with(&[(0x100, 0x42), (0x101, 0x12)]);
    assert_eq!(cpu.load_word(), 0x1242);
}

#[test]
fn test_load_and_bump_pc() {
    let mut cpu = make_cpu_with(&[(0x1234, 0x42)]);
    cpu.pc = 0x1234;
    assert_eq!(cpu.load_and_bump_pc(), 0x42);
    assert_eq!(cpu.pc, 0x1235);
}

#[test]
fn test_ld_n() {
    let mut cpu = make_cpu_with(&[(0x100, 0x06), (0x101, 0x42)]);
    cpu.step();
    assert_eq!(cpu.registers.b, 0x42);
    assert_eq!(cpu.cycles, 8);
    assert_eq!(cpu.pc, 0x102);
}

#[test]
fn test_ld_nn() {
    let mut cpu = make_cpu_with(&[(0x100, 0x01), (0x101, 0x34), (0x102, 0x12)]);
    cpu.step();
    assert_eq!(cpu.registers.b, 0x12);
    assert_eq!(cpu.registers.c, 0x34);
    assert_eq!(cpu.cycles, 12);
    assert_eq!(cpu.pc, 0x103);
}

#[test]
fn test_inc() {
    let mut cpu = make_cpu_with(&[(0x100, 0x04)]);
    cpu.registers.b = 0x12;
    cpu.registers.flag(Flag::N, true);
    cpu.step();
    assert_eq!(cpu.registers.b, 0x13);
    assert!(!cpu.registers.has_flag(Flag::N));
    assert_eq!(cpu.cycles, 4);
}

#[test]
fn test_ld_rr() {
    let mut cpu = make_cpu_with(&[(0x100, 0x47)]);
    cpu.registers.a = 0x43;
    cpu.registers.b = 0x12;
    cpu.step();
    assert_eq!(cpu.registers.b, 0x43);
}

#[test]
fn test_dec() {
    let mut cpu = make_cpu_with(&[(0x100, 0x05)]);
    cpu.registers.b = 0x4;
    cpu.registers.flag(Flag::N, false);
    cpu.step();
    assert_eq!(cpu.registers.b, 0x3);
    assert!(cpu.registers.has_flag(Flag::N));
    assert_eq!(cpu.cycles, 4);
}

#[test]
fn test_jp() {
    let mut cpu = make_cpu_with(&[(0x100, 0xC3), (0x101, 0x34), (0x102, 0x12)]);
    cpu.step();
    assert_eq!(cpu.pc, 0x1234);
    assert_eq!(cpu.cycles, 16);
}

#[test]
fn jr() {
    let mut cpu = make_cpu_with(&[(0x100, 0x20), (0x101, -5 as i8 as u8)]);
    cpu.registers.flag(Flag::Z, false);
    cpu.step();
    // +2 bytes for the instruction and the operand
    assert_eq!(cpu.pc, 0x100 + 2 - 5);
    assert_eq!(cpu.cycles, 12);

    let mut cpu = make_cpu_with(&[(0x100, 0x20), (0x101, 5)]);
    cpu.registers.flag(Flag::Z, false);
    cpu.step();
    // +2 bytes for the instruction and the operand
    assert_eq!(cpu.pc, 0x100 + 2 + 5);
    assert_eq!(cpu.cycles, 12);

    let mut cpu = make_cpu_with(&[(0x100, 0x20)]);
    cpu.registers.flag(Flag::Z, true);
    cpu.step();
    assert_eq!(cpu.pc, 0x102);
    assert_eq!(cpu.cycles, 8);
}

#[test]
fn test_nop() {
    let mut cpu = make_cpu_with(&[(0x100, 0x00)]);
    cpu.step();
    assert_eq!(cpu.cycles, 4);
}

#[test]
fn boot_state() {
    let cpu = make_cpu_with(&[]);
    assert_eq!(cpu.pc, 0x100);
    assert!(cpu.ime);
    assert!(!cpu.halted);
    assert_eq!(cpu.cycles, 0);
    assert_eq!(cpu.registers.get16(Register16::AF), 0x01B0);
    assert_eq!(cpu.registers.get16(Register16::BC), 0x0013);
    assert_eq!(cpu.registers.get16(Register16::DE), 0x00D8);
    assert_eq!(cpu.registers.get16(Register16::HL), 0x014D);
    assert_eq!(cpu.registers.get16(Register16::SP), 0xFFFE);
}

#[test]
fn decode_tables() {
    assert!(matches!(Cpu::decode(0x00), (Instruction::NOP, 4, "NOP")));
    assert!(matches!(Cpu::decode(0x06), (Instruction::LdN(Register8::B), 8, _)));
    assert!(matches!(Cpu::decode(0x10), (Instruction::Stop, 4, _)));
    assert!(matches!(Cpu::decode(0x76), (Instruction::Halt, 4, _)));
    assert!(matches!(Cpu::decode(0xC3), (Instruction::Jp, 16, _)));
    assert!(matches!(Cpu::decode(0xCD), (Instruction::Call, 24, _)));
    assert!(matches!(Cpu::decode_cb(0x37), (Instruction::Swap(Storage::Register(Register8::A)), 8, _)));
    assert!(matches!(Cpu::decode_cb(0x7E), (Instruction::Bit(7, Storage::Pointer(Register16::HL)), 12, _)));
    assert!(matches!(Cpu::decode_cb(0x87), (Instruction::Res(0, Storage::Register(Register8::A)), 8, _)));
    assert!(matches!(Cpu::decode_cb(0xFF), (Instruction::SetBit(7, Storage::Register(Register8::A)), 8, _)));
}

#[test]
fn undefined_opcodes_cannot_step() {
    for opcode in [0xD3u8, 0xDB, 0xDD, 0xE3, 0xE4, 0xEB, 0xEC, 0xED, 0xF4, 0xFC, 0xFD] {
        assert!(matches!(Cpu::decode(opcode), (Instruction::Undefined, _, _)));
        let cpu = make_cpu_with(&[(0x100, opcode)]);
        assert!(!cpu.can_step());
    }
    let cpu = make_cpu_with(&[(0x100, 0x00)]);
    assert!(cpu.can_step());
}

#[test]
fn store_to_next_byte_cannot_execute() {
    let cpu = make_cpu_with(&[]);
    assert!(!cpu.can_execute(Instruction::Inc(Storage::NextByte)));
    assert!(cpu.can_execute(Instruction::Inc(Storage::Register(Register8::A))));
    assert!(!cpu.can_execute(Instruction::Bit(8, Storage::Register(Register8::A))));
}

#[test]
fn read_outside_the_image_cannot_step() {
    let mut cpu = make_cpu_with(&[]);
    cpu.pc = 0x2000;
    assert!(!cpu.can_step());
    cpu.pc = 0xA000;
    assert!(!cpu.can_step());
    cpu.pc = 0xC000;
    assert!(cpu.can_step());
}

#[test]
fn write_to_missing_cartridge_ram_cannot_step() {
    // LD (HL), A with HL in the RAM window of a cartridge that has none
    let mut cpu = make_cpu_with(&[(0x100, 0x77)]);
    cpu.registers.set16(Register16::HL, 0xA000);
    assert!(!cpu.can_step());
    cpu.registers.set16(Register16::HL, 0xC000);
    assert!(cpu.can_step());
    // PUSH BC with the stack there
    let mut cpu = make_cpu_with(&[(0x100, 0xC5)]);
    cpu.registers.sp = 0xA002;
    assert!(!cpu.can_push());
    assert!(!cpu.can_step());
    cpu.registers.sp = 0xC002;
    assert!(cpu.can_push());
    assert!(cpu.can_step());
}

#[test]
fn interrupts_cannot_be_resolved_without_a_stack() {
    let mut cpu = make_cpu_with(&[]);
    cpu.memory.store(0xFFFF, 0x01);
    cpu.request_interrupt(0x01);
    cpu.registers.sp = 0xA002;
    assert!(!cpu.can_interrupt());
    cpu.ime = false;
    assert!(cpu.can_interrupt());
    cpu.ime = true;
    cpu.registers.sp = 0xFFFE;
    assert!(cpu.can_interrupt());
}

#[test]
fn add_sets_flags() {
    // ADD A, d8 with A = 0x3A and d8 = 0xC6: result 0, half carry and carry
    let mut cpu = make_cpu_with(&[(0x100, 0xC6), (0x101, 0xC6)]);
    cpu.registers.a = 0x3A;
    cpu.step();
    assert_eq!(cpu.registers.a, 0x00);
    assert!(cpu.registers.has_flag(Flag::Z));
    assert!(!cpu.registers.has_flag(Flag::N));
    assert!(cpu.registers.has_flag(Flag::H));
    assert!(cpu.registers.has_flag(Flag::C));
    assert_eq!(cpu.cycles, 8);
    assert_eq!(cpu.pc, 0x102);
}

#[test]
fn sub_and_cp_set_flags() {
    // SUB B with A = 0x10, B = 0x01
    let mut cpu = make_cpu_with(&[(0x100, 0x90), (0x101, 0xB8)]);
    cpu.registers.a = 0x10;
    cpu.registers.b = 0x01;
    cpu.step();
    assert_eq!(cpu.registers.a, 0x0F);
    assert!(!cpu.registers.has_flag(Flag::Z));
    assert!(cpu.registers.has_flag(Flag::N));
    assert!(cpu.registers.has_flag(Flag::H));
    assert!(!cpu.registers.has_flag(Flag::C));
    // CP B with A = 0x0F, B = 0x10 keeps A
    cpu.registers.b = 0x10;
    cpu.step();
    assert_eq!(cpu.registers.a, 0x0F);
    assert!(!cpu.registers.has_flag(Flag::Z));
    assert!(cpu.registers.has_flag(Flag::N));
    assert!(!cpu.registers.has_flag(Flag::H));
    assert!(cpu.registers.has_flag(Flag::C));
}

#[test]
fn push_then_pop_restores() {
    // PUSH BC; POP DE
    let mut cpu = make_cpu_with(&[(0x100, 0xC5), (0x101, 0xD1)]);
    cpu.registers.set16(Register16::BC, 0xBEEF);
    let sp = cpu.registers.sp;
    cpu.step();
    assert_eq!(cpu.registers.sp, sp - 2);
    assert_eq!(cpu.memory.load16(cpu.registers.sp), 0xBEEF);
    cpu.step();
    assert_eq!(cpu.registers.get16(Register16::DE), 0xBEEF);
    assert_eq!(cpu.registers.sp, sp);
    assert_eq!(cpu.cycles, 16 + 12);
}

#[test]
fn pop_af_masks_low_nibble() {
    // PUSH BC; POP AF
    let mut cpu = make_cpu_with(&[(0x100, 0xC5), (0x101, 0xF1)]);
    cpu.registers.set16(Register16::BC, 0x12FF);
    cpu.step();
    cpu.step();
    assert_eq!(cpu.registers.get16(Register16::AF), 0x12F0);
    assert_eq!(cpu.registers.f, 0xF0);
}

#[test]
fn call_and_ret() {
    // CALL 0x0200 ... RET
    let mut cpu = make_cpu_with(&[(0x100, 0xCD), (0x101, 0x00), (0x102, 0x02), (0x200, 0xC9)]);
    cpu.step();
    assert_eq!(cpu.pc, 0x0200);
    assert_eq!(cpu.registers.sp, 0xFFFC);
    assert_eq!(cpu.memory.load16(0xFFFC), 0x0103);
    assert_eq!(cpu.cycles, 24);
    cpu.step();
    assert_eq!(cpu.pc, 0x0103);
    assert_eq!(cpu.registers.sp, 0xFFFE);
    assert_eq!(cpu.cycles, 24 + 16);
}

#[test]
fn conditional_call_and_return_charge_twelve_more() {
    // CALL NZ, 0x0200 with Z clear; RET Z with Z clear; RET NZ
    let mut cpu = make_cpu_with(&[(0x100, 0xC4), (0x101, 0x00), (0x102, 0x02), (0x200, 0xC8), (0x201, 0xC0)]);
    cpu.registers.flag(Flag::Z, false);
    cpu.step();
    assert_eq!(cpu.pc, 0x0200);
    assert_eq!(cpu.cycles, 4 + 12);
    cpu.step();
    assert_eq!(cpu.pc, 0x0201);
    assert_eq!(cpu.cycles, 16 + 8);
    cpu.step();
    assert_eq!(cpu.pc, 0x0103);
    assert_eq!(cpu.cycles, 24 + 8 + 12);
}

#[test]
fn rst_pushes_pc() {
    let mut cpu = make_cpu_with(&[(0x100, 0xEF)]);
    cpu.step();
    assert_eq!(cpu.pc, 0x0028);
    assert_eq!(cpu.memory.load16(cpu.registers.sp), 0x0101);
    assert_eq!(cpu.cycles, 16);
}

#[test]
fn halt_stops_fetching() {
    let mut cpu = make_cpu_with(&[(0x100, 0x76), (0x101, 0x04)]);
    cpu.step();
    assert!(cpu.halted);
    assert_eq!(cpu.cycles, 4);
    cpu.step();
    assert_eq!(cpu.pc, 0x101);
    assert_eq!(cpu.cycles, 8);
    assert_eq!(cpu.registers.b, 0);
}

#[test]
fn stop_is_a_four_cycle_no_op() {
    let mut cpu = make_cpu_with(&[(0x100, 0x10)]);
    cpu.step();
    assert_eq!(cpu.pc, 0x101);
    assert_eq!(cpu.cycles, 4);
    assert!(!cpu.halted);
}

#[test]
fn prefixed_opcodes_take_two_bytes() {
    // SWAP A; BIT 7, A; SET 0, A; RES 4, A
    let mut cpu = make_cpu_with(&[
        (0x100, 0xCB),
        (0x101, 0x37),
        (0x102, 0xCB),
        (0x103, 0x7F),
        (0x104, 0xCB),
        (0x105, 0xC7),
        (0x106, 0xCB),
        (0x107, 0xA7),
    ]);
    cpu.registers.a = 0x1F;
    cpu.step();
    assert_eq!(cpu.registers.a, 0xF1);
    assert_eq!(cpu.pc, 0x102);
    assert_eq!(cpu.cycles, 8);
    assert!(!cpu.registers.has_flag(Flag::Z));
    cpu.step();
    assert!(!cpu.registers.has_flag(Flag::Z));
    assert!(cpu.registers.has_flag(Flag::H));
    cpu.registers.a = 0x10;
    cpu.step();
    assert_eq!(cpu.registers.a, 0x11);
    cpu.step();
    assert_eq!(cpu.registers.a, 0x01);
}

#[test]
fn daa_adjusts_after_addition() {
    // 0x15 + 0x27 = 0x3C, adjusted to 0x42
    let mut cpu = make_cpu_with(&[(0x100, 0xC6), (0x101, 0x27), (0x102, 0x27)]);
    cpu.registers.a = 0x15;
    cpu.step();
    assert_eq!(cpu.registers.a, 0x3C);
    cpu.step();
    assert_eq!(cpu.registers.a, 0x42);
    assert!(!cpu.registers.has_flag(Flag::C));
    assert!(!cpu.registers.has_flag(Flag::H));
}

#[test]
fn add_hl_and_add_sp() {
    // ADD HL, BC; ADD SP, -2
    let mut cpu = make_cpu_with(&[(0x100, 0x09), (0x101, 0xE8), (0x102, 0xFE)]);
    cpu.registers.set16(Register16::HL, 0x0FFF);
    cpu.registers.set16(Register16::BC, 0x0001);
    cpu.registers.flag(Flag::Z, true);
    cpu.step();
    assert_eq!(cpu.registers.get16(Register16::HL), 0x1000);
    assert!(cpu.registers.has_flag(Flag::Z));
    assert!(cpu.registers.has_flag(Flag::H));
    assert!(!cpu.registers.has_flag(Flag::C));
    cpu.registers.sp = 0xFFFE;
    cpu.step();
    assert_eq!(cpu.registers.sp, 0xFFFC);
    assert!(!cpu.registers.has_flag(Flag::Z));
    assert!(cpu.registers.has_flag(Flag::H));
    assert!(cpu.registers.has_flag(Flag::C));
    assert_eq!(cpu.cycles, 8 + 16);
}

#[test]
fn oam_dma_copies_a_page_and_charges_160_cycles() {
    // LD A, 0xC0; LDH (0x46), A
    let mut cpu = make_cpu_with(&[(0x100, 0x3E), (0x101, 0xC0), (0x102, 0xE0), (0x103, 0x46)]);
    for offset in 0..0xA0u16 {
        cpu.memory.store(0xC000 + offset, offset as u8 ^ 0x5A);
    }
    cpu.step();
    assert!(cpu.can_step());
    cpu.step();
    assert_eq!(cpu.cycles, 8 + 12 + 160);
    for offset in 0..0xA0u16 {
        assert_eq!(cpu.memory.load(0xFE00 + offset), offset as u8 ^ 0x5A);
    }
}

#[test]
fn oam_dma_from_an_unreadable_page_cannot_step() {
    // LD A, 0xA0; LDH (0x46), A on a cartridge without RAM
    let mut cpu = make_cpu_with(&[(0x100, 0x3E), (0x101, 0xA0), (0x102, 0xE0), (0x103, 0x46)]);
    cpu.step();
    assert!(!cpu.can_step());
}

#[test]
fn interrupt_dispatch_takes_the_lowest_pending() {
    let mut cpu = make_cpu_with(&[]);
    cpu.memory.store(0xFFFF, 0b0000_0110);
    cpu.request_interrupt(0b0000_0100);
    cpu.request_interrupt(0b0000_0011);
    assert!(cpu.has_interrupt());
    assert!(cpu.is_interrupt_requested(0));
    assert!(!cpu.is_interrupt_enabled(0));
    cpu.halted = true;
    cpu.pc = 0x1234;
    cpu.interrupt();
    assert!(!cpu.halted);
    assert!(!cpu.ime);
    assert_eq!(cpu.pc, 0x48);
    assert_eq!(cpu.memory.load(0xFF0F), 0b0000_0101);
    assert_eq!(cpu.memory.load16(cpu.registers.sp), 0x1234);
    assert_eq!(cpu.registers.sp, 0xFFFC);
    // with interrupts disabled nothing more is dispatched
    cpu.interrupt();
    assert_eq!(cpu.pc, 0x48);
}

#[test]
fn joypad_interrupt_uses_the_last_vector() {
    let mut cpu = make_cpu_with(&[]);
    cpu.memory.store(0xFFFF, 0x1F);
    cpu.request_interrupt(0x10);
    cpu.interrupt();
    assert_eq!(cpu.pc, 0x60);
    assert_eq!(cpu.memory.load(0xFF0F), 0);
}

#[test]
fn pending_interrupt_wakes_a_halted_processor_without_dispatch() {
    let mut cpu = make_cpu_with(&[]);
    cpu.memory.store(0xFFFF, 0x01);
    cpu.request_interrupt(0x01);
    cpu.halted = true;
    cpu.ime = false;
    cpu.interrupt();
    assert!(!cpu.halted);
    assert_eq!(cpu.pc, 0x100);
    assert_eq!(cpu.memory.load(0xFF0F), 0x01);
}
