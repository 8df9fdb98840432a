use yeeboy::cartridge::Cartridge;
use yeeboy::console::Console;
use yeeboy::gpu::Mode;
use yeeboy::input::Button;
use yeeboy::register::Flag;

/// A console on a cartridge without bank controller whose 32 KiB image is
/// zero but for the given bytes at 0x100.
fn console_with(program: &[u8]) -> Console {
    let mut rom = vec![0u8; 0x8000];
    rom[0x100..0x100 + program.len()].copy_from_slice(program);
    Console::new(Cartridge::load(rom), false)
}

#[test]
fn nop_only() {
    let mut console = console_with(&[]);
    let mut steps: u64 = 0;
    while steps < 1_000_000 && console.try_step() {
        steps += 1;
        assert_eq!(console.cpu.cycles, 4 * steps);
        assert_eq!(console.pc() as u64, 0x100 + steps);
    }
    // the program counter runs through the image and through video RAM; the
    // cartridge has no RAM to go on in
    assert_eq!(steps, 0xA000 - 0x100);
    assert_eq!(console.pc(), 0xA000);
    assert_eq!(console.cpu.cycles, 4 * (0xA000 - 0x100));
}

#[test]
fn immediate_load() {
    let mut console = console_with(&[0x06, 0x42]);
    assert!(console.can_advance());
    console.step();
    assert_eq!(console.cpu.registers.b, 0x42);
    assert_eq!(console.pc(), 0x102);
    assert_eq!(console.cpu.cycles, 8);
}

#[test]
fn relative_jump_not_taken() {
    let mut console = console_with(&[0x20, 0xFB]);
    console.cpu.registers.flag(Flag::Z, true);
    console.step();
    assert_eq!(console.pc(), 0x102);
    assert_eq!(console.cpu.cycles, 8);
}

#[test]
fn relative_jump_taken() {
    let mut console = console_with(&[0x20, 0xFB]);
    console.cpu.registers.flag(Flag::Z, false);
    console.step();
    assert_eq!(console.pc(), 0x0FD);
    assert_eq!(console.cpu.cycles, 12);
}

#[test]
fn jump_absolute() {
    let mut console = console_with(&[0xC3, 0x34, 0x12]);
    console.step();
    assert_eq!(console.pc(), 0x1234);
    assert_eq!(console.cpu.cycles, 16);
}

#[test]
fn vblank_arrival() {
    let mut console = console_with(&[]);
    console.cpu.memory.store(0xFF40, 0x80);
    assert!(!console.new_frame());
    let mut steps = 0;
    while !console.new_frame() {
        assert!(console.try_step());
        steps += 1;
        assert!(steps < 100_000);
    }
    assert_eq!(console.cpu.memory.gpu.ly, 144);
    assert!(matches!(console.cpu.memory.gpu.mode, Mode::VBlank));
    assert_eq!(console.cpu.memory.load(0xFF0F) & 1, 1);
    assert_eq!(console.cpu.memory.load(0xFF44), 144);
    assert_eq!(console.cpu.memory.load(0xFF41) & 3, 1);
    // the first line is 204 cycles short
    assert_eq!(console.cpu.cycles, 144 * 456 - 252);
    assert_eq!(console.frame().len(), 160 * 144 * 3);
    console.end_frame();
    assert!(!console.new_frame());
}

#[test]
fn every_step_takes_at_least_four_cycles() {
    // LD A, 0x12; INC A; JR -3
    let mut console = console_with(&[0x3E, 0x12, 0x3C, 0x18, 0xFD]);
    let mut before = console.cpu.cycles;
    for _ in 0..1000 {
        assert!(console.try_step());
        assert!(console.cpu.cycles - before >= 4);
        before = console.cpu.cycles;
    }
}

#[test]
fn vblank_interrupt_is_dispatched_when_enabled() {
    // EI is the state at start; enable the interrupt of vertical blanking
    let mut console = console_with(&[]);
    console.cpu.memory.store(0xFFFF, 0x01);
    let mut steps = 0;
    while !console.new_frame() {
        console.step();
        steps += 1;
        assert!(steps < 100_000);
    }
    assert_eq!(console.pc(), 0x40);
    assert!(!console.cpu.ime);
    assert_eq!(console.cpu.memory.load(0xFF0F) & 1, 0);
    assert_eq!(console.cpu.registers.sp, 0xFFFC);
    assert_eq!(console.cpu.memory.load16(0xFFFC), 0x100 + steps as u16);
    assert_eq!(console.cpu.memory.gpu.interrupts, 0);
}

#[test]
fn timer_interrupt_wakes_a_halted_processor() {
    // HALT; then NOPs
    let mut console = console_with(&[0x76]);
    console.cpu.ime = false;
    console.cpu.memory.store(0xFFFF, 0x04);
    console.cpu.memory.store(0xFF06, 0xF0);
    console.cpu.memory.store(0xFF05, 0xFF);
    console.cpu.memory.store(0xFF07, 0x05);
    console.step();
    assert!(console.cpu.halted);
    assert_eq!(console.pc(), 0x101);
    // 16 cycles after the timer was started the counter overflows
    console.step();
    console.step();
    assert!(console.cpu.halted);
    console.step();
    assert!(!console.cpu.halted);
    assert_eq!(console.cpu.memory.load(0xFF05), 0xF0);
    assert_eq!(console.cpu.memory.load(0xFF0F) & 4, 4);
    assert_eq!(console.pc(), 0x101);
    assert_eq!(console.cpu.cycles, 16);
    console.step();
    assert_eq!(console.pc(), 0x102);
}

#[test]
fn try_step_tells_where_it_stopped() {
    // an undefined opcode: nothing changes
    let mut console = console_with(&[0xD3]);
    assert!(!console.can_advance());
    assert!(!console.try_step());
    assert_eq!(console.pc(), 0x100);
    assert_eq!(console.cpu.cycles, 0);
    // a pending interrupt and no stack to push to: the instruction is
    // executed, the interrupt stays pending
    let mut console = console_with(&[0x00]);
    console.cpu.memory.store(0xFFFF, 0x01);
    console.cpu.request_interrupt(0x01);
    console.cpu.registers.sp = 0xA002;
    assert!(console.can_advance());
    assert!(!console.try_step());
    assert_eq!(console.pc(), 0x101);
    assert_eq!(console.cpu.cycles, 4);
    assert!(console.cpu.ime);
    assert_eq!(console.cpu.memory.load(0xFF0F) & 1, 1);
    assert_eq!(console.cpu.registers.sp, 0xA002);
}

#[test]
fn keys_reach_the_joypad() {
    let mut console = console_with(&[]);
    console.key_down(Button::A);
    console.key_down(Button::Left);
    console.cpu.memory.store(0xFF00, 0x10);
    assert_eq!(console.cpu.memory.load(0xFF00), 0xD0 | 0b1110);
    console.cpu.memory.store(0xFF00, 0x20);
    assert_eq!(console.cpu.memory.load(0xFF00), 0xE0 | 0b1101);
    console.key_up(Button::Left);
    assert_eq!(console.cpu.memory.load(0xFF00), 0xE0 | 0b1111);
}

#[test]
fn registers_as_text() {
    let console = console_with(&[]);
    assert_eq!(console.regs(), "AF:01B0 BC:0013 DE:00D8 HL:014D SP:FFFE [CH-Z] 0100");
}

#[test]
fn trace_line() {
    let mut console = console_with(&[0x06, 0x42, 0xC3]);
    console.cpu.registers.flag(Flag::H, false);
    let mnemonic = yeeboy::cpu::Cpu::decode(0x06).2;
    assert!(console.cpu.can_trace());
    assert_eq!(
        console.cpu.trace(mnemonic),
        "AF:0190 BC:0013 DE:00D8 HL:014D SP:FFFE [C--Z] 0100: 06 42 C3  LD B, n"
    );
}

#[test]
fn trace_of_the_next_instruction() {
    // SWAP A; HALT
    let mut console = console_with(&[0xCB, 0x37, 0x76]);
    assert_eq!(console.cpu.mnemonic(), "SWAP A");
    assert_eq!(
        console.cpu.trace_next().unwrap(),
        "AF:01B0 BC:0013 DE:00D8 HL:014D SP:FFFE [CH-Z] 0100: CB 37 76  SWAP A"
    );
    console.step();
    assert_eq!(console.cpu.mnemonic(), "HALT");
    console.step();
    assert!(console.cpu.halted);
    assert!(console.cpu.trace_next().is_none());
    // below the missing cartridge RAM the three bytes cannot be read
    let mut console = console_with(&[]);
    console.cpu.pc = 0x9FFE;
    assert!(!console.cpu.can_trace());
    assert!(console.cpu.trace_next().is_none());
    console.cpu.pc = 0x9FFD;
    assert!(console.cpu.can_trace());
}

#[test]
fn hexadecimal_digits() {
    let mut text = String::new();
    for n in 0..16u8 {
        text.push_str(yeeboy::trace::hex_digit(n));
    }
    assert_eq!(text, "0123456789ABCDEF");
    let mut text = String::new();
    yeeboy::trace::push_hex2(&mut text, 0x0A);
    yeeboy::trace::push_hex2(&mut text, 0xF0);
    yeeboy::trace::push_hex4(&mut text, 0x01EF);
    assert_eq!(text, "0AF001EF");
}

#[test]
fn arbitrary_programs_run_until_try_step_declines() {
    let mut seed: u64 = 0x2545_F491_4F6C_DD1D;
    for kind in [0x00u8, 0x01, 0x13] {
        for _ in 0..8 {
            let mut rom = vec![0u8; 0x8000];
            for byte in rom.iter_mut() {
                seed = seed.wrapping_mul(6364136223846793005).wrapping_add(1442695040888963407);
                *byte = (seed >> 56) as u8;
            }
            rom[0x147] = kind;
            rom[0x148] = 0;
            rom[0x149] = 0;
            let mut console = Console::new(Cartridge::load(rom), false);
            let mut steps = 0;
            let mut before = console.cpu.cycles;
            while steps < 20_000 && console.try_step() {
                assert!(console.cpu.cycles - before >= 4);
                assert!(console.cpu.cycles - before <= 24 + 160);
                assert_eq!(console.cpu.registers.f & 0x0F, 0);
                assert!(console.cpu.memory.gpu.ly < 154);
                before = console.cpu.cycles;
                steps += 1;
            }
            if steps < 20_000 {
                assert!(!console.can_advance() || !console.cpu.can_interrupt());
            }
        }
    }
}
