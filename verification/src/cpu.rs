//! The processor: fetches, decodes and executes one instruction at a time
//! against the register file and the memory map, and dispatches interrupts.

use vstd::prelude::*;
use crate::alu::add16;
use crate::alu::add8;
use crate::alu::add_sp;
use crate::alu::adc8;
use crate::alu::and8;
use crate::alu::bit8;
use crate::alu::cp8;
use crate::alu::daa8;
use crate::alu::dec8;
use crate::alu::inc8;
use crate::alu::offset;
use crate::alu::or8;
use crate::alu::res8;
use crate::alu::rl8;
use crate::alu::rlc8;
use crate::alu::rr8;
use crate::alu::rrc8;
use crate::alu::sbc8;
use crate::alu::set8;
use crate::alu::sla8;
use crate::alu::sra8;
use crate::alu::srl8;
use crate::alu::sub8;
use crate::alu::swap8;
use crate::alu::xor8;
use crate::alu::short_form;
use crate::alu::spec_adc;
use crate::alu::spec_add16;
use crate::alu::spec_add_sp;
use crate::alu::spec_and;
use crate::alu::spec_bit;
use crate::alu::spec_daa;
use crate::alu::spec_dec;
use crate::alu::spec_inc;
use crate::alu::spec_offset;
use crate::alu::spec_or;
use crate::alu::spec_res;
use crate::alu::spec_rl;
use crate::alu::spec_rlc;
use crate::alu::spec_rr;
use crate::alu::spec_rrc;
use crate::alu::spec_sbc;
use crate::alu::spec_set;
use crate::alu::spec_sla;
use crate::alu::spec_sra;
use crate::alu::spec_srl;
use crate::alu::spec_swap;
use crate::alu::spec_xor;
use crate::cartridge::Cartridge;
use crate::cartridge::CartridgeView;
use crate::memory::lemma_store_keeps_readable;
use crate::memory::lemma_store16_load16;
use crate::memory::Memory;
use crate::memory::MemoryView;
use crate::opcodes::lookup_cb;
use crate::opcodes::cb_opcode_entry;
use crate::opcodes::lookup;
use crate::opcodes::opcode_entry;
use crate::opcodes::PREFIX;
use crate::register::lemma_set16_get16;
use crate::register::lemma_update_flags;
use crate::register::Flag;
use crate::register::FlagUpdate;
use crate::register::Register16;
use crate::register::Register8;
use crate::register::Registers;

verus! {

/// Address of the interrupt request byte.
pub const INTERRUPT_FLAG: u16 = 0xFF0F;

/// Address of the interrupt enable byte.
pub const INTERRUPT_ENABLE: u16 = 0xFFFF;

/// Address of the register that starts a transfer to the object attribute
/// table.
pub const DMA_REGISTER: u16 = 0xFF46;

/// Bytes that such a transfer copies, and cycles that it costs.
pub const DMA_LENGTH: u16 = 160;

/// The cycle counter must leave room for one more step.
pub const CYCLE_LIMIT: u64 = 0xFFFF_FFFF_FFFF_FEFF;

/// Cycles charged while the processor is halted.
pub const HALT_CYCLES: u64 = 4;

/// Where an 8-bit operand lives.
#[derive(Clone, Copy, Debug, PartialEq, Eq, Structural)]
pub enum Storage {
    /// In a register.
    Register(Register8),
    /// In memory, at the address that a register pair holds.
    Pointer(Register16),
    /// In the byte that follows the instruction.
    NextByte,
}

/// The instruction forms: a family and the shape of its operands.
#[derive(Clone, Copy, Debug, PartialEq, Eq, Structural)]
pub enum Instruction {
    Adc(Storage),
    Bit(u8, Storage),
    Add(Storage),
    AddHlR16(Register16),
    AddSpE8,
    And(Storage),
    Call,
    CallCond(Flag, bool),
    Ccf,
    Cp(Storage),
    Cpl,
    Daa,
    Dec(Storage),
    Dec16(Register16),
    Di,
    Ei,
    Inc(Storage),
    Inc16(Register16),
    Halt,
    Jp,
    JpCond(Flag, bool),
    JpHl,
    Jr(Flag, bool),
    JrE8,
    Lda16A,
    Lda16Sp,
    LdAA16,
    LdAR16(Register16),
    LddAHl,
    LddHlA,
    LdHlD8,
    LdHlR(Register8),
    LdHlSpE8,
    LdRHl(Register8),
    LdiAHl,
    LdiHlA,
    LdN(Register8),
    LdNN(Register16),
    LdR16A(Register16),
    LdReadIoC,
    LdReadIoN,
    LdRR(Register8, Register8),
    LdSp,
    LdSpHl,
    LdWriteIoC,
    LdWriteIoN,
    NOP,
    Or(Storage),
    Pop16(Register16),
    Push16(Register16),
    Ret,
    Reti,
    Res(u8, Storage),
    RetCond(Flag, bool),
    Rr(Storage),
    Rl(Storage),
    Rla,
    Rlc(Storage),
    Rlca,
    Rra,
    Rrc(Storage),
    Rrca,
    Rst(u16),
    Sbc(Storage),
    Scf,
    SetBit(u8, Storage),
    Sla(Storage),
    Sra(Storage),
    Srl(Storage),
    Stop,
    Sub(Storage),
    Swap(Storage),
    Xor(Register8),
    XorD8,
    XorHl,
    /// What the prefix byte decodes to in the first table: no instruction
    /// by itself.
    NotImplemented,
    /// What the eleven bytes decode to that the processor leaves undefined.
    Undefined,
}

pub struct Cpu {
    /// The program counter.
    pub pc: u16,
    pub registers: Registers,
    pub memory: Memory,
    /// Cycles charged since the console started.
    pub cycles: u64,
    /// Interrupt master enable.
    pub ime: bool,
    /// Set by HALT, cleared by a pending interrupt.
    pub halted: bool,
    /// Whether the host asked for a trace line per instruction.
    pub trace: bool,
}

/// The state of the processor and of all that it addresses.
pub struct CpuView {
    pub pc: u16,
    pub registers: Registers,
    pub memory: MemoryView,
    pub cycles: u64,
    pub ime: bool,
    pub halted: bool,
    pub trace: bool,
}

impl View for Cpu {
    type V = CpuView;

    open spec fn view(&self) -> CpuView {
        CpuView {
            pc: self.pc,
            registers: self.registers,
            memory: self.memory@,
            cycles: self.cycles,
            ime: self.ime,
            halted: self.halted,
            trace: self.trace,
        }
    }
}

/// The address of byte `k` of the page that a transfer to the object
/// attribute table copies.
pub open spec fn dma_source(page: u8, k: int) -> u16 {
    (page * 256 + k) as u16
}

/// The memory after the first `n` bytes of a transfer from `page` to the
/// object attribute table.
pub open spec fn dma_copied(memory: MemoryView, page: u8, n: nat) -> MemoryView
    decreases n,
{
    if n == 0 {
        memory
    } else {
        let before = dma_copied(memory, page, (n - 1) as nat);
        before.store((0xFE00 + (n - 1)) as u16, before.load(dma_source(page, n - 1)))
    }
}

/// The address in the I/O page that a byte selects.
pub open spec fn io_address(byte: u8) -> u16 {
    (0xFF00 + byte) as u16
}

/// The vector of interrupt `n`: 0x40 for vertical blanking, then status,
/// timer, serial and joypad, eight bytes apart.
pub open spec fn vector(n: u8) -> u16 {
    (0x40 + 8 * n) as u16
}

impl Instruction {
    /// Whether the form has an executor: all but the two that stand for
    /// bytes that are no instruction.
    pub open spec fn implemented(self) -> bool {
        self != Instruction::NotImplemented && self != Instruction::Undefined
    }

    /// The forms that combine the accumulator with an operand.
    pub open spec fn is_alu(self) -> bool {
        match self {
            Instruction::Adc(_)
            | Instruction::Add(_)
            | Instruction::And(_)
            | Instruction::Cp(_)
            | Instruction::Or(_)
            | Instruction::Sbc(_)
            | Instruction::Sub(_)
            | Instruction::Xor(_)
            | Instruction::XorD8
            | Instruction::XorHl => true,
            _ => false,
        }
    }

    /// The forms that read an operand, change it and write it back, and the
    /// bit test, which only reads it.
    pub open spec fn is_unary(self) -> bool {
        match self {
            Instruction::Inc(_)
            | Instruction::Dec(_)
            | Instruction::Rl(_)
            | Instruction::Rlc(_)
            | Instruction::Rr(_)
            | Instruction::Rrc(_)
            | Instruction::Sla(_)
            | Instruction::Sra(_)
            | Instruction::Srl(_)
            | Instruction::Swap(_)
            | Instruction::Res(_, _)
            | Instruction::SetBit(_, _)
            | Instruction::Bit(_, _) => true,
            _ => false,
        }
    }

    /// The forms that work on the accumulator and the flags alone.
    pub open spec fn is_accumulator(self) -> bool {
        match self {
            Instruction::Rla
            | Instruction::Rlca
            | Instruction::Rra
            | Instruction::Rrca
            | Instruction::Daa
            | Instruction::Cpl
            | Instruction::Ccf
            | Instruction::Scf => true,
            _ => false,
        }
    }

    /// The forms that work on 16-bit values.
    pub open spec fn is_wide(self) -> bool {
        match self {
            Instruction::AddHlR16(_)
            | Instruction::AddSpE8
            | Instruction::LdHlSpE8
            | Instruction::Inc16(_)
            | Instruction::Dec16(_)
            | Instruction::LdNN(_)
            | Instruction::LdSp
            | Instruction::LdSpHl
            | Instruction::Pop16(_)
            | Instruction::Push16(_)
            | Instruction::Lda16Sp => true,
            _ => false,
        }
    }

    /// The forms that move one byte.
    pub open spec fn is_load(self) -> bool {
        match self {
            Instruction::LdN(_)
            | Instruction::LdRR(_, _)
            | Instruction::LdRHl(_)
            | Instruction::LdHlR(_)
            | Instruction::LdHlD8
            | Instruction::LdAR16(_)
            | Instruction::LdR16A(_)
            | Instruction::LdAA16
            | Instruction::Lda16A
            | Instruction::LddAHl
            | Instruction::LddHlA
            | Instruction::LdiAHl
            | Instruction::LdiHlA
            | Instruction::LdReadIoC
            | Instruction::LdReadIoN
            | Instruction::LdWriteIoC
            | Instruction::LdWriteIoN => true,
            _ => false,
        }
    }

    /// The forms that change the program counter.
    pub open spec fn is_jump(self) -> bool {
        match self {
            Instruction::Call
            | Instruction::CallCond(_, _)
            | Instruction::Jp
            | Instruction::JpCond(_, _)
            | Instruction::JpHl
            | Instruction::Jr(_, _)
            | Instruction::JrE8
            | Instruction::Ret
            | Instruction::Reti
            | Instruction::RetCond(_, _)
            | Instruction::Rst(_) => true,
            _ => false,
        }
    }
}

impl CpuView {
    pub open spec fn wf(self) -> bool {
        self.registers.wf() && self.memory.wf()
    }

    /// The processor when the console starts.
    pub open spec fn initial(cartridge: CartridgeView, trace: bool) -> CpuView {
        CpuView {
            pc: 0x100,
            registers: Registers::initial(),
            memory: MemoryView::initial(cartridge),
            cycles: 0,
            ime: true,
            halted: false,
            trace,
        }
    }

    /// The byte at the program counter.
    pub open spec fn next_byte(self) -> u8 {
        self.memory.load(self.pc)
    }

    /// The 16-bit value at the program counter.
    pub open spec fn next_word(self) -> u16 {
        self.memory.load16(self.pc)
    }

    /// The processor with the program counter moved on by `n`.
    pub open spec fn skip(self, n: u16) -> CpuView {
        CpuView { pc: self.pc.wrapping_add(n), ..self }
    }

    /// The processor with the program counter at `pc`.
    pub open spec fn at(self, pc: u16) -> CpuView {
        CpuView { pc, ..self }
    }

    /// The processor with `extra` cycles charged.
    pub open spec fn charge(self, extra: u64) -> CpuView {
        CpuView { cycles: (self.cycles + extra) as u64, ..self }
    }

    /// The processor with a new value in the accumulator and the flags
    /// updated.
    pub open spec fn with_result(self, value: u8, flags: FlagUpdate) -> CpuView {
        CpuView { registers: (Registers { a: value, ..self.registers }).spec_update_flags(flags), ..self }
    }

    /// The processor with the flags updated.
    pub open spec fn with_flags(self, flags: FlagUpdate) -> CpuView {
        CpuView { registers: self.registers.spec_update_flags(flags), ..self }
    }

    /// The processor with new registers.
    pub open spec fn with_registers(self, registers: Registers) -> CpuView {
        CpuView { registers, ..self }
    }

    /// Whether the operand in `storage` can be read.
    pub open spec fn storage_readable(self, storage: Storage) -> bool {
        match storage {
            Storage::NextByte => self.memory.readable(self.pc),
            Storage::Register(_) => true,
            Storage::Pointer(r) => self.memory.readable(self.registers.spec_get16(r)),
        }
    }

    /// The operand in `storage`.
    pub open spec fn storage_value(self, storage: Storage) -> u8 {
        match storage {
            Storage::NextByte => self.next_byte(),
            Storage::Register(r) => self.registers.spec_get(r),
            Storage::Pointer(r) => self.memory.load(self.registers.spec_get16(r)),
        }
    }

    /// The processor after the operand in `storage` has been read: an
    /// immediate operand moves the program counter past it.
    pub open spec fn storage_loaded(self, storage: Storage) -> CpuView {
        match storage {
            Storage::NextByte => self.skip(1),
            _ => self,
        }
    }

    /// Whether every byte of the page that a transfer to the object
    /// attribute table copies can be read.
    pub open spec fn dma_readable(self, page: u8) -> bool {
        forall|k: int| 0 <= k < DMA_LENGTH ==> #[trigger] self.memory.readable(dma_source(page, k))
    }

    /// The processor after a transfer of 160 bytes from `page` to the
    /// object attribute table, which costs 160 cycles.
    pub open spec fn oam_dma(self, page: u8) -> CpuView {
        CpuView { memory: dma_copied(self.memory, page, DMA_LENGTH as nat), ..self }.charge(DMA_LENGTH as u64)
    }

    /// Whether the processor can write `value` at `address`: the memory
    /// map takes the write, and a write that starts a transfer names a page
    /// that can be read.
    pub open spec fn writable(self, address: u16, value: u8) -> bool {
        self.memory.writable(address) && (address == DMA_REGISTER ==> self.dma_readable(value))
    }

    /// The processor after an 8-bit write: a write to the transfer register
    /// starts a transfer, any other goes to the memory map.
    pub open spec fn store(self, address: u16, value: u8) -> CpuView {
        if address == DMA_REGISTER {
            self.oam_dma(value)
        } else {
            CpuView { memory: self.memory.store(address, value), ..self }
        }
    }

    /// Whether `value` can be written to `storage`: never to an immediate
    /// operand.
    pub open spec fn storage_writable(self, storage: Storage, value: u8) -> bool {
        match storage {
            Storage::NextByte => false,
            Storage::Register(_) => true,
            Storage::Pointer(r) => self.writable(self.registers.spec_get16(r), value),
        }
    }

    /// The processor after `value` has been written to `storage`.
    pub open spec fn storage_stored(self, storage: Storage, value: u8) -> CpuView {
        match storage {
            Storage::NextByte => self,
            Storage::Register(r) => self.with_registers(self.registers.spec_set(r, value)),
            Storage::Pointer(r) => self.store(self.registers.spec_get16(r), value),
        }
    }

    /// Whether a 16-bit value can be pushed: the two bytes below the stack
    /// pointer take a write.
    pub open spec fn pushable(self) -> bool {
        self.memory.writable16(self.registers.sp.wrapping_sub(2))
    }

    /// The processor after `value` has been pushed: the stack pointer goes
    /// down by two, and the value stands at the new stack pointer, low byte
    /// first.
    pub open spec fn push16(self, value: u16) -> CpuView {
        let sp = self.registers.sp.wrapping_sub(2);
        CpuView {
            memory: self.memory.store16(sp, value),
            registers: Registers { sp, ..self.registers },
            ..self
        }
    }

    /// The 16-bit value on top of the stack.
    pub open spec fn top(self) -> u16 {
        self.memory.load16(self.registers.sp)
    }

    /// The processor after the top of the stack has been dropped.
    pub open spec fn dropped(self) -> CpuView {
        self.with_registers(Registers { sp: self.registers.sp.wrapping_add(2), ..self.registers })
    }

    /// The operand of a form that combines the accumulator with an operand.
    pub open spec fn alu_operand(instruction: Instruction) -> Storage {
        match instruction {
            Instruction::Adc(s)
            | Instruction::Add(s)
            | Instruction::And(s)
            | Instruction::Cp(s)
            | Instruction::Or(s)
            | Instruction::Sbc(s)
            | Instruction::Sub(s) => s,
            Instruction::Xor(r) => Storage::Register(r),
            Instruction::XorHl => Storage::Pointer(Register16::HL),
            _ => Storage::NextByte,
        }
    }

    /// The new accumulator and the flags of a form that combines the
    /// accumulator `a` with the operand `b`. A comparison keeps the
    /// accumulator.
    pub open spec fn alu_result(instruction: Instruction, a: u8, b: u8, carry: bool) -> (u8, FlagUpdate) {
        match instruction {
            Instruction::Adc(_) => spec_adc(a, b, carry),
            Instruction::Add(_) => spec_adc(a, b, false),
            Instruction::And(_) => spec_and(a, b),
            Instruction::Cp(_) => (a, spec_sbc(a, b, false).1),
            Instruction::Or(_) => spec_or(a, b),
            Instruction::Sbc(_) => spec_sbc(a, b, carry),
            Instruction::Sub(_) => spec_sbc(a, b, false),
            _ => spec_xor(a, b),
        }
    }

    /// The processor after a form that combines the accumulator with an
    /// operand.
    pub open spec fn execute_alu(self, instruction: Instruction) -> CpuView {
        let storage = Self::alu_operand(instruction);
        let result = Self::alu_result(
            instruction,
            self.registers.a,
            self.storage_value(storage),
            self.registers.spec_has_flag(Flag::C),
        );
        self.storage_loaded(storage).with_result(result.0, result.1)
    }

    /// The operand of a form that changes an operand in place.
    pub open spec fn unary_operand(instruction: Instruction) -> Storage {
        match instruction {
            Instruction::Inc(s)
            | Instruction::Dec(s)
            | Instruction::Rl(s)
            | Instruction::Rlc(s)
            | Instruction::Rr(s)
            | Instruction::Rrc(s)
            | Instruction::Sla(s)
            | Instruction::Sra(s)
            | Instruction::Srl(s)
            | Instruction::Swap(s)
            | Instruction::Res(_, s)
            | Instruction::SetBit(_, s)
            | Instruction::Bit(_, s) => s,
            _ => Storage::NextByte,
        }
    }

    /// The new operand and the flags of a form that changes the operand `a`
    /// in place. The two forms that set and clear a bit touch no flag.
    pub open spec fn unary_result(instruction: Instruction, a: u8, carry: bool) -> (u8, FlagUpdate) {
        match instruction {
            Instruction::Inc(_) => spec_inc(a),
            Instruction::Dec(_) => spec_dec(a),
            Instruction::Rl(_) => spec_rl(a, carry),
            Instruction::Rlc(_) => spec_rlc(a),
            Instruction::Rr(_) => spec_rr(a, carry),
            Instruction::Rrc(_) => spec_rrc(a),
            Instruction::Sla(_) => spec_sla(a),
            Instruction::Sra(_) => spec_sra(a),
            Instruction::Srl(_) => spec_srl(a),
            Instruction::Swap(_) => spec_swap(a),
            Instruction::Res(n, _) => (spec_res(n, a), FlagUpdate { z: None, n: None, h: None, c: None }),
            Instruction::SetBit(n, _) => (spec_set(n, a), FlagUpdate { z: None, n: None, h: None, c: None }),
            Instruction::Bit(n, _) => (a, spec_bit(n, a)),
            _ => (a, FlagUpdate { z: None, n: None, h: None, c: None }),
        }
    }

    /// The bit that the form names, for the three forms that name one.
    pub open spec fn bit_number(instruction: Instruction) -> u8 {
        match instruction {
            Instruction::Res(n, _) | Instruction::SetBit(n, _) | Instruction::Bit(n, _) => n,
            _ => 0,
        }
    }

    /// The processor after a form that changes an operand in place: the
    /// operand is read, the result written back where the operand was, then
    /// the flags are updated. The bit test writes nothing back.
    pub open spec fn execute_unary(self, instruction: Instruction) -> CpuView {
        let storage = Self::unary_operand(instruction);
        let result = Self::unary_result(
            instruction,
            self.storage_value(storage),
            self.registers.spec_has_flag(Flag::C),
        );
        let loaded = self.storage_loaded(storage);
        if instruction is Bit {
            loaded.with_flags(result.1)
        } else {
            loaded.storage_stored(storage, result.0).with_flags(result.1)
        }
    }

    /// The new accumulator and the flags of a form that works on the
    /// accumulator alone.
    pub open spec fn accumulator_result(self, instruction: Instruction) -> (u8, FlagUpdate) {
        let a = self.registers.a;
        let carry = self.registers.spec_has_flag(Flag::C);
        match instruction {
            Instruction::Rla => short_form(spec_rl(a, carry)),
            Instruction::Rlca => short_form(spec_rlc(a)),
            Instruction::Rra => short_form(spec_rr(a, carry)),
            Instruction::Rrca => short_form(spec_rrc(a)),
            Instruction::Daa => spec_daa(
                a,
                self.registers.spec_has_flag(Flag::N),
                self.registers.spec_has_flag(Flag::H),
                carry,
            ),
            Instruction::Cpl => (a ^ 0xFF, FlagUpdate { z: None, n: Some(true), h: Some(true), c: None }),
            Instruction::Ccf => (a, FlagUpdate { z: None, n: Some(false), h: Some(false), c: Some(!carry) }),
            _ => (a, FlagUpdate { z: None, n: Some(false), h: Some(false), c: Some(true) }),
        }
    }

    /// The processor after a form that works on the accumulator alone.
    pub open spec fn execute_accumulator(self, instruction: Instruction) -> CpuView {
        let result = self.accumulator_result(instruction);
        self.with_result(result.0, result.1)
    }

    /// The processor after a form that works on 16-bit values.
    pub open spec fn execute_wide(self, instruction: Instruction) -> CpuView {
        let regs = self.registers;
        match instruction {
            Instruction::AddHlR16(r) => {
                let result = spec_add16(regs.spec_get16(Register16::HL), regs.spec_get16(r));
                self.with_registers(regs.spec_set16(Register16::HL, result.0).spec_update_flags(result.1))
            },
            Instruction::AddSpE8 => {
                let result = spec_add_sp(regs.sp, self.next_byte());
                self.skip(1).with_registers((Registers { sp: result.0, ..regs }).spec_update_flags(result.1))
            },
            Instruction::LdHlSpE8 => {
                let result = spec_add_sp(regs.sp, self.next_byte());
                self.skip(1).with_registers(
                    regs.spec_set16(Register16::HL, result.0).spec_update_flags(result.1),
                )
            },
            Instruction::Inc16(r) => self.with_registers(regs.spec_set16(r, regs.spec_get16(r).wrapping_add(1))),
            Instruction::Dec16(r) => self.with_registers(regs.spec_set16(r, regs.spec_get16(r).wrapping_sub(1))),
            Instruction::LdNN(r) => self.skip(2).with_registers(regs.spec_set16(r, self.next_word())),
            Instruction::LdSp => self.skip(2).with_registers(Registers { sp: self.next_word(), ..regs }),
            Instruction::LdSpHl => self.with_registers(
                Registers { sp: regs.spec_get16(Register16::HL), ..regs },
            ),
            Instruction::Pop16(r) => self.with_registers(
                Registers { sp: regs.sp.wrapping_add(2), ..regs.spec_set16(r, self.top()) },
            ),
            Instruction::Push16(r) => self.push16(regs.spec_get16(r)),
            Instruction::Lda16Sp => CpuView {
                memory: self.memory.store16(self.next_word(), regs.sp),
                ..self.skip(2)
            },
            _ => self,
        }
    }

    /// The processor after a form that moves one byte.
    pub open spec fn execute_load(self, instruction: Instruction) -> CpuView {
        let regs = self.registers;
        let hl = regs.spec_get16(Register16::HL);
        match instruction {
            Instruction::LdN(r) => self.skip(1).with_registers(regs.spec_set(r, self.next_byte())),
            Instruction::LdRR(to, from) => self.with_registers(regs.spec_set(to, regs.spec_get(from))),
            Instruction::LdRHl(r) => self.with_registers(regs.spec_set(r, self.memory.load(hl))),
            Instruction::LdHlR(r) => self.store(hl, regs.spec_get(r)),
            Instruction::LdHlD8 => self.skip(1).store(hl, self.next_byte()),
            Instruction::LdAR16(r) => self.with_registers(
                Registers { a: self.memory.load(regs.spec_get16(r)), ..regs },
            ),
            Instruction::LdR16A(r) => self.store(regs.spec_get16(r), regs.a),
            Instruction::LdAA16 => self.skip(2).with_registers(
                Registers { a: self.memory.load(self.next_word()), ..regs },
            ),
            Instruction::Lda16A => self.skip(2).store(self.next_word(), regs.a),
            Instruction::LddAHl => self.with_registers(
                (Registers { a: self.memory.load(hl), ..regs }).spec_set16(Register16::HL, hl.wrapping_sub(1)),
            ),
            Instruction::LddHlA => {
                let stored = self.store(hl, regs.a);
                stored.with_registers(stored.registers.spec_set16(Register16::HL, hl.wrapping_sub(1)))
            },
            Instruction::LdiAHl => self.with_registers(
                (Registers { a: self.memory.load(hl), ..regs }).spec_set16(Register16::HL, hl.wrapping_add(1)),
            ),
            Instruction::LdiHlA => {
                let stored = self.store(hl, regs.a);
                stored.with_registers(stored.registers.spec_set16(Register16::HL, hl.wrapping_add(1)))
            },
            Instruction::LdReadIoC => self.with_registers(
                Registers { a: self.memory.load(io_address(regs.c)), ..regs },
            ),
            Instruction::LdReadIoN => self.skip(1).with_registers(
                Registers { a: self.memory.load(io_address(self.next_byte())), ..regs },
            ),
            Instruction::LdWriteIoC => self.store(io_address(regs.c), regs.a),
            Instruction::LdWriteIoN => self.skip(1).store(io_address(self.next_byte()), regs.a),
            _ => self,
        }
    }

    /// The processor after a call of `address`: the address of the next
    /// instruction is pushed.
    pub open spec fn called(self) -> CpuView {
        CpuView { pc: self.next_word(), ..self.push16(self.pc.wrapping_add(2)) }
    }

    /// The processor after a return: the program counter is popped.
    pub open spec fn returned(self) -> CpuView {
        CpuView { pc: self.top(), ..self.dropped() }
    }

    /// Whether a conditional form finds its condition met.
    pub open spec fn condition(self, flag: Flag, expected: bool) -> bool {
        self.registers.spec_has_flag(flag) == expected
    }

    /// The processor after a form that changes the program counter. A
    /// conditional form whose condition holds costs 4 cycles more for a
    /// jump and 12 more for a call or a return.
    pub open spec fn execute_jump(self, instruction: Instruction) -> CpuView {
        match instruction {
            Instruction::Call => self.called(),
            Instruction::CallCond(flag, expected) => if self.condition(flag, expected) {
                self.called().charge(12)
            } else {
                self.skip(2)
            },
            Instruction::Jp => CpuView { pc: self.next_word(), ..self },
            Instruction::JpCond(flag, expected) => if self.condition(flag, expected) {
                CpuView { pc: self.next_word(), ..self }.charge(4)
            } else {
                self.skip(2)
            },
            Instruction::JpHl => CpuView { pc: self.registers.spec_get16(Register16::HL), ..self },
            Instruction::Jr(flag, expected) => if self.condition(flag, expected) {
                CpuView { pc: spec_offset(self.pc.wrapping_add(1), self.next_byte()), ..self }.charge(4)
            } else {
                self.skip(1)
            },
            Instruction::JrE8 => CpuView { pc: spec_offset(self.pc.wrapping_add(1), self.next_byte()), ..self },
            Instruction::Ret => self.returned(),
            Instruction::Reti => CpuView { ime: true, ..self.returned() },
            Instruction::RetCond(flag, expected) => if self.condition(flag, expected) {
                self.returned().charge(12)
            } else {
                self
            },
            Instruction::Rst(address) => CpuView { pc: address, ..self.push16(self.pc) },
            _ => self,
        }
    }

    /// The processor after one instruction, the program counter standing
    /// behind the opcode at the start.
    #[verifier::opaque]
    pub open spec fn execute(self, instruction: Instruction) -> CpuView {
        if instruction.is_alu() {
            self.execute_alu(instruction)
        } else if instruction.is_unary() {
            self.execute_unary(instruction)
        } else if instruction.is_accumulator() {
            self.execute_accumulator(instruction)
        } else if instruction.is_wide() {
            self.execute_wide(instruction)
        } else if instruction.is_load() {
            self.execute_load(instruction)
        } else if instruction.is_jump() {
            self.execute_jump(instruction)
        } else {
            match instruction {
                Instruction::Di => CpuView { ime: false, ..self },
                Instruction::Ei => CpuView { ime: true, ..self },
                Instruction::Halt => CpuView { halted: true, ..self },
                _ => self,
            }
        }
    }

    /// Whether a form that combines the accumulator with an operand can be
    /// executed.
    pub open spec fn alu_executable(self, instruction: Instruction) -> bool {
        self.storage_readable(Self::alu_operand(instruction))
    }

    /// Whether a form that changes an operand in place, or the bit test,
    /// can be executed.
    pub open spec fn unary_executable(self, instruction: Instruction) -> bool {
        let storage = Self::unary_operand(instruction);
        &&& Self::bit_number(instruction) < 8
        &&& self.storage_readable(storage)
        &&& instruction is Bit || self.storage_writable(
            storage,
            Self::unary_result(
                instruction,
                self.storage_value(storage),
                self.registers.spec_has_flag(Flag::C),
            ).0,
        )
    }

    /// Whether a form that works on 16-bit values can be executed.
    pub open spec fn wide_executable(self, instruction: Instruction) -> bool {
        match instruction {
            Instruction::AddSpE8 | Instruction::LdHlSpE8 => self.memory.readable(self.pc),
            Instruction::LdNN(_) | Instruction::LdSp => self.memory.readable16(self.pc),
            Instruction::Lda16Sp => self.memory.readable16(self.pc) && self.memory.writable16(
                self.next_word(),
            ),
            Instruction::Pop16(_) => self.memory.readable16(self.registers.sp),
            Instruction::Push16(_) => self.pushable(),
            _ => true,
        }
    }

    /// Whether a form that moves one byte can be executed.
    pub open spec fn load_executable(self, instruction: Instruction) -> bool {
        let regs = self.registers;
        let hl = regs.spec_get16(Register16::HL);
        match instruction {
            Instruction::LdN(_) | Instruction::LdReadIoN => self.memory.readable(self.pc),
            Instruction::LdRHl(_) | Instruction::LddAHl | Instruction::LdiAHl => self.memory.readable(hl),
            Instruction::LdHlR(r) => self.writable(hl, regs.spec_get(r)),
            Instruction::LdHlD8 => self.memory.readable(self.pc) && self.writable(hl, self.next_byte()),
            Instruction::LdAR16(r) => self.memory.readable(regs.spec_get16(r)),
            Instruction::LdR16A(r) => self.writable(regs.spec_get16(r), regs.a),
            Instruction::LdAA16 => self.memory.readable16(self.pc) && self.memory.readable(self.next_word()),
            Instruction::Lda16A => self.memory.readable16(self.pc) && self.writable(self.next_word(), regs.a),
            Instruction::LddHlA | Instruction::LdiHlA => self.writable(hl, regs.a),
            Instruction::LdWriteIoC => self.writable(io_address(regs.c), regs.a),
            Instruction::LdWriteIoN => self.memory.readable(self.pc) && self.writable(
                io_address(self.next_byte()),
                regs.a,
            ),
            _ => true,
        }
    }

    /// Whether a form that changes the program counter can be executed.
    pub open spec fn jump_executable(self, instruction: Instruction) -> bool {
        match instruction {
            Instruction::Jp | Instruction::JpCond(_, _) => self.memory.readable16(self.pc),
            Instruction::Call => self.memory.readable16(self.pc) && self.pushable(),
            Instruction::CallCond(flag, expected) => self.condition(flag, expected) ==> self.memory.readable16(
                self.pc,
            ) && self.pushable(),
            Instruction::Rst(_) => self.pushable(),
            Instruction::Jr(_, _) | Instruction::JrE8 => self.memory.readable(self.pc),
            Instruction::Ret | Instruction::Reti => self.memory.readable16(self.registers.sp),
            Instruction::RetCond(flag, expected) => self.condition(flag, expected) ==> self.memory.readable16(
                self.registers.sp,
            ),
            _ => true,
        }
    }

    /// Whether the instruction can be executed: it has an executor, every
    /// byte that it reads can be read and every byte that it writes
    /// written, it does not write to an immediate operand, it names no bit
    /// above 7, and the cycle counter has room.
    #[verifier::opaque]
    pub open spec fn executable(self, instruction: Instruction) -> bool {
        &&& self.cycles <= CYCLE_LIMIT
        &&& instruction.implemented()
        &&& if instruction.is_alu() {
            self.alu_executable(instruction)
        } else if instruction.is_unary() {
            self.unary_executable(instruction)
        } else if instruction.is_wide() {
            self.wide_executable(instruction)
        } else if instruction.is_load() {
            self.load_executable(instruction)
        } else if instruction.is_jump() {
            self.jump_executable(instruction)
        } else {
            true
        }
    }

    /// The address at which the instruction writes a byte through the
    /// processor's 8-bit store, if it does.
    pub open spec fn written_address(self, instruction: Instruction) -> Option<u16> {
        let regs = self.registers;
        let hl = regs.spec_get16(Register16::HL);
        if instruction.is_unary() {
            match Self::unary_operand(instruction) {
                Storage::Pointer(r) => if instruction is Bit {
                    None
                } else {
                    Some(regs.spec_get16(r))
                },
                _ => None,
            }
        } else {
            match instruction {
                Instruction::LdHlR(_) | Instruction::LdHlD8 | Instruction::LddHlA | Instruction::LdiHlA => Some(
                    hl,
                ),
                Instruction::LdR16A(r) => Some(regs.spec_get16(r)),
                Instruction::Lda16A => Some(self.next_word()),
                Instruction::LdWriteIoC => Some(io_address(regs.c)),
                Instruction::LdWriteIoN => Some(io_address(self.next_byte())),
                _ => None,
            }
        }
    }

    /// The cycles that the execution of an instruction adds to its base
    /// cycles: 4 for a conditional jump that is taken, 12 for a conditional
    /// call or return that is taken, 160 for a write to the transfer
    /// register.
    pub open spec fn adjustment(self, instruction: Instruction) -> u64 {
        match instruction {
            Instruction::Jr(flag, expected) | Instruction::JpCond(flag, expected) => if self.condition(
                flag,
                expected,
            ) {
                4
            } else {
                0
            },
            Instruction::CallCond(flag, expected) | Instruction::RetCond(flag, expected) => if self.condition(
                flag,
                expected,
            ) {
                12
            } else {
                0
            },
            _ => if self.written_address(instruction) == Some(DMA_REGISTER) {
                DMA_LENGTH as u64
            } else {
                0
            },
        }
    }

    /// The instruction at the program counter and its base cycles: the byte
    /// there selects an entry of the first table, or, where it is the
    /// prefix, the byte behind it selects one of the second.
    pub open spec fn decoded(self) -> (Instruction, u64) {
        if self.next_byte() == PREFIX {
            let entry = cb_opcode_entry(self.memory.load(self.pc.wrapping_add(1)));
            (entry.0, entry.1)
        } else {
            let entry = opcode_entry(self.next_byte());
            (entry.0, entry.1)
        }
    }

    /// The length of the opcode at the program counter: 2 with the prefix,
    /// else 1.
    pub open spec fn opcode_length(self) -> u16 {
        if self.next_byte() == PREFIX {
            2
        } else {
            1
        }
    }

    /// Whether the processor can make a step: it is halted, or the opcode
    /// at the program counter can be read and its instruction executed.
    pub open spec fn can_step(self) -> bool {
        &&& self.cycles <= CYCLE_LIMIT
        &&& !self.halted ==> {
            &&& self.memory.readable(self.pc)
            &&& self.next_byte() == PREFIX ==> self.memory.readable(self.pc.wrapping_add(1))
            &&& self.skip(self.opcode_length()).executable(self.decoded().0)
        }
    }

    /// The processor after one step: 4 cycles while it is halted, else the
    /// instruction at the program counter and its base cycles.
    pub open spec fn step(self) -> CpuView {
        if self.halted {
            self.charge(HALT_CYCLES)
        } else {
            self.skip(self.opcode_length()).execute(self.decoded().0).charge(self.decoded().1)
        }
    }

    /// The interrupt request byte.
    pub open spec fn requested(self) -> u8 {
        self.memory.load(INTERRUPT_FLAG)
    }

    /// The interrupt enable byte.
    pub open spec fn enabled(self) -> u8 {
        self.memory.load(INTERRUPT_ENABLE)
    }

    /// Whether interrupt `n` is requested and enabled.
    pub open spec fn pending(self, n: u8) -> bool {
        self.requested() & (1u8 << n) != 0 && self.enabled() & (1u8 << n) != 0
    }

    /// The processor after the interrupt bits `bits` have been requested.
    pub open spec fn request_interrupt(self, bits: u8) -> CpuView {
        CpuView { memory: self.memory.store(INTERRUPT_FLAG, self.requested() | bits), ..self }
    }

    /// The processor after interrupt `n` has been dispatched: its request
    /// bit is cleared, interrupts are disabled, the program counter is
    /// pushed and replaced by the vector.
    pub open spec fn dispatched(self, n: u8) -> CpuView {
        let acknowledged = CpuView {
            memory: self.memory.store(INTERRUPT_FLAG, self.requested() & !(1u8 << n)),
            ..self
        };
        CpuView { ime: false, pc: vector(n), ..acknowledged.push16(self.pc) }
    }

    /// The processor after the interrupts from `n` up have been looked at:
    /// the first that is pending is dispatched.
    pub open spec fn check_interrupts(self, n: u8) -> CpuView
        decreases 5 - n,
    {
        if n >= 5 {
            self
        } else if self.pending(n) {
            self.dispatched(n)
        } else {
            self.check_interrupts((n + 1) as u8)
        }
    }

    /// Whether the interrupts from `n` up can be looked at: where one is
    /// pending, the program counter can be pushed.
    pub open spec fn checkable(self, n: u8) -> bool
        decreases 5 - n,
    {
        if n >= 5 {
            true
        } else if self.pending(n) {
            self.pushable()
        } else {
            self.checkable((n + 1) as u8)
        }
    }

    /// Whether interrupts can be resolved: nothing is dispatched, or the
    /// program counter can be pushed.
    pub open spec fn resolvable(self) -> bool {
        self.ime ==> self.checkable(0)
    }

    /// The processor after interrupts have been resolved: a pending
    /// interrupt ends a halt, and where interrupts are enabled the pending
    /// interrupt of lowest number is dispatched.
    pub open spec fn interrupt(self) -> CpuView {
        let woken = if self.requested() & self.enabled() != 0 {
            CpuView { halted: false, ..self }
        } else {
            self
        };
        if woken.ime {
            woken.check_interrupts(0)
        } else {
            woken
        }
    }
}

impl Storage {
    /// Tells whether the operand can be read.
    pub fn can_load(&self, cpu: &Cpu) -> (ok: bool)
        requires
            cpu@.wf(),
        ensures
            ok == cpu@.storage_readable(*self),
    {
        match *self {
            Storage::NextByte => cpu.memory.can_load(cpu.pc),
            Storage::Register(_) => true,
            Storage::Pointer(r) => cpu.memory.can_load(cpu.registers.get16(r)),
        }
    }

    /// Reads the operand. An immediate operand moves the program counter
    /// past it.
    pub fn load(&self, cpu: &mut Cpu) -> (value: u8)
        requires
            old(cpu)@.wf(),
            old(cpu)@.storage_readable(*self),
        ensures
            value == old(cpu)@.storage_value(*self),
            final(cpu)@ == old(cpu)@.storage_loaded(*self),
    {
        match *self {
            Storage::NextByte => cpu.load_and_bump_pc(),
            Storage::Register(r) => cpu.registers.get(r),
            Storage::Pointer(r) => {
                let address = cpu.registers.get16(r);
                cpu.load(address)
            },
        }
    }

    /// Tells whether `value` can be written to the operand.
    pub fn can_store(&self, cpu: &Cpu, value: u8) -> (ok: bool)
        requires
            cpu@.wf(),
        ensures
            ok == cpu@.storage_writable(*self, value),
    {
        match *self {
            Storage::NextByte => false,
            Storage::Register(_) => true,
            Storage::Pointer(r) => cpu.can_store(cpu.registers.get16(r), value),
        }
    }

    /// Writes `value` to the operand.
    pub fn store(&self, cpu: &mut Cpu, value: u8)
        requires
            old(cpu)@.wf(),
            old(cpu)@.storage_writable(*self, value),
            old(cpu).cycles + DMA_LENGTH <= u64::MAX,
        ensures
            final(cpu)@ == old(cpu)@.storage_stored(*self, value),
            final(cpu)@.wf(),
    {
        match *self {
            Storage::NextByte => {},
            Storage::Register(r) => {
                cpu.registers.set(r, value);
            },
            Storage::Pointer(r) => {
                let address = cpu.registers.get16(r);
                cpu.store(address, value)
            },
        }
    }
}

impl Cpu {
    pub fn new(cartridge: Cartridge, trace: bool) -> (cpu: Self)
        requires
            cartridge@.wf(),
        ensures
            cpu@ == CpuView::initial(cartridge@, trace),
            cpu@.wf(),
    {
        let memory = Memory::new(cartridge);
        Self { registers: Registers::new(), pc: 0x100, cycles: 0, ime: true, halted: false, trace, memory }
    }

    /// The entry of the first decoding table for an opcode byte.
    pub fn decode(opcode: u8) -> (entry: (Instruction, u64, &'static str))
        ensures
            entry == opcode_entry(opcode),
    {
        lookup(opcode)
    }

    /// The entry of the second decoding table for the byte behind the
    /// prefix.
    pub fn decode_cb(opcode: u8) -> (entry: (Instruction, u64, &'static str))
        ensures
            entry == cb_opcode_entry(opcode),
    {
        lookup_cb(opcode)
    }

    pub fn load(&self, address: u16) -> (value: u8)
        requires
            self@.wf(),
            self@.memory.readable(address),
        ensures
            value == self@.memory.load(address),
    {
        self.memory.load(address)
    }

    /// Reads the byte at the program counter.
    pub fn load_byte(&self) -> (value: u8)
        requires
            self@.wf(),
            self@.memory.readable(self.pc),
        ensures
            value == self@.next_byte(),
    {
        self.load(self.pc)
    }

    /// Reads the 16-bit value at the program counter.
    pub fn load_word(&self) -> (value: u16)
        requires
            self@.wf(),
            self@.memory.readable16(self.pc),
        ensures
            value == self@.next_word(),
    {
        self.memory.load16(self.pc)
    }

    /// Reads the byte at the program counter and moves the program counter
    /// past it.
    pub fn load_and_bump_pc(&mut self) -> (value: u8)
        requires
            old(self)@.wf(),
            old(self)@.memory.readable(old(self).pc),
        ensures
            value == old(self)@.next_byte(),
            final(self)@ == old(self)@.skip(1),
    {
        let byte = self.load_byte();
        self.pc = self.pc.wrapping_add(1);
        byte
    }

    /// Reads the 16-bit value at the program counter and moves the program
    /// counter past it.
    pub fn load_word_and_bump_pc(&mut self) -> (value: u16)
        requires
            old(self)@.wf(),
            old(self)@.memory.readable16(old(self).pc),
        ensures
            value == old(self)@.next_word(),
            final(self)@ == old(self)@.skip(2),
    {
        let word = self.load_word();
        self.pc = self.pc.wrapping_add(2);
        word
    }

    /// Tells whether every byte of `page` can be read.
    pub fn can_dma(&self, page: u8) -> (ok: bool)
        requires
            self@.wf(),
        ensures
            ok == self@.dma_readable(page),
    {
        let start: u16 = (page as u16) * 256;
        let mut offset: u16 = 0;
        while offset < DMA_LENGTH
            invariant
                offset <= DMA_LENGTH,
                start == page * 256,
                self@.wf(),
                forall|k: int| 0 <= k < offset ==> #[trigger] self@.memory.readable(dma_source(page, k)),
            decreases DMA_LENGTH - offset,
        {
            if !self.memory.can_load(start + offset) {
                assert(!self@.memory.readable(dma_source(page, offset as int)));
                return false;
            }
            offset += 1;
        }
        true
    }

    /// Tells whether the processor can write `value` at `address`.
    pub fn can_store(&self, address: u16, value: u8) -> (ok: bool)
        requires
            self@.wf(),
        ensures
            ok == self@.writable(address, value),
    {
        if address == DMA_REGISTER {
            self.can_dma(value)
        } else {
            self.memory.can_store(address)
        }
    }

    /// Copies the 160 bytes of `page` to the object attribute table and
    /// charges 160 cycles.
    pub fn oam_dma(&mut self, page: u8)
        requires
            old(self)@.wf(),
            old(self)@.dma_readable(page),
            old(self).cycles + DMA_LENGTH <= u64::MAX,
        ensures
            final(self)@ == old(self)@.oam_dma(page),
            final(self)@.wf(),
    {
        let start: u16 = (page as u16) * 256;
        let mut offset: u16 = 0;
        while offset < DMA_LENGTH
            invariant
                offset <= DMA_LENGTH,
                start == page * 256,
                self@.wf(),
                old(self)@.dma_readable(page),
                self@ == (CpuView { memory: dma_copied(old(self)@.memory, page, offset as nat), ..old(self)@ }),
                forall|a: u16| self@.memory.readable(a) == old(self)@.memory.readable(a),
            decreases DMA_LENGTH - offset,
        {
            assert(old(self)@.memory.readable(dma_source(page, offset as int)));
            let byte = self.load(start + offset);
            let ghost before = self@.memory;
            self.memory.store(0xFE00 + offset, byte);
            proof {
                assert forall|a: u16| self@.memory.readable(a) == old(self)@.memory.readable(a) by {
                    lemma_store_keeps_readable(before, (0xFE00 + offset) as u16, byte, a);
                }
            }
            offset += 1;
        }
        self.cycles += DMA_LENGTH as u64;
    }

    /// Writes a byte. A write to the transfer register starts a transfer to
    /// the object attribute table; any other goes to the memory map.
    pub fn store(&mut self, address: u16, value: u8)
        requires
            old(self)@.wf(),
            old(self)@.writable(address, value),
            old(self).cycles + DMA_LENGTH <= u64::MAX,
        ensures
            final(self)@ == old(self)@.store(address, value),
            final(self)@.wf(),
    {
        if address == DMA_REGISTER {
            self.oam_dma(value);
        } else {
            self.memory.store(address, value);
        }
    }

    /// Tells whether a 16-bit value can be pushed.
    pub fn can_push(&self) -> (ok: bool)
        ensures
            ok == self@.pushable(),
    {
        self.memory.can_store16(self.registers.sp.wrapping_sub(2))
    }

    /// Pushes a 16-bit value.
    pub fn push16(&mut self, value: u16)
        requires
            old(self)@.wf(),
            old(self)@.pushable(),
        ensures
            final(self)@ == old(self)@.push16(value),
            final(self)@.wf(),
    {
        let sp = self.registers.sp.wrapping_sub(2);
        self.memory.store16(sp, value);
        self.registers.sp = sp;
    }

    /// Pops a 16-bit value.
    pub fn pop16(&mut self) -> (value: u16)
        requires
            old(self)@.wf(),
            old(self)@.memory.readable16(old(self).registers.sp),
        ensures
            value == old(self)@.top(),
            final(self)@ == old(self)@.dropped(),
            final(self)@.wf(),
    {
        let sp = self.registers.sp;
        let value = self.memory.load16(sp);
        self.registers.sp = sp.wrapping_add(2);
        value
    }

    /// Calls the address at the program counter.
    pub fn do_call(&mut self)
        requires
            old(self)@.wf(),
            old(self)@.memory.readable16(old(self).pc),
            old(self)@.pushable(),
        ensures
            final(self)@ == old(self)@.called(),
            final(self)@.wf(),
    {
        let address = self.load_word();
        self.push16(self.pc.wrapping_add(2));
        self.pc = address;
    }

    /// Returns to the address on top of the stack.
    pub fn do_ret(&mut self)
        requires
            old(self)@.wf(),
            old(self)@.memory.readable16(old(self).registers.sp),
        ensures
            final(self)@ == old(self)@.returned(),
            final(self)@.wf(),
    {
        let pc = self.pop16();
        self.pc = pc;
    }

    /// The new accumulator and the flags of a form that combines the
    /// accumulator with an operand.
    pub fn alu_result(instruction: Instruction, a: u8, b: u8, carry: bool) -> (result: (u8, FlagUpdate))
        requires
            instruction.is_alu(),
        ensures
            result == CpuView::alu_result(instruction, a, b, carry),
    {
        match instruction {
            Instruction::Adc(_) => adc8(a, b, carry),
            Instruction::Add(_) => add8(a, b),
            Instruction::And(_) => and8(a, b),
            Instruction::Cp(_) => (a, cp8(a, b)),
            Instruction::Or(_) => or8(a, b),
            Instruction::Sbc(_) => sbc8(a, b, carry),
            Instruction::Sub(_) => sub8(a, b),
            _ => xor8(a, b),
        }
    }

    /// The operand of a form that combines the accumulator with an operand.
    pub fn alu_operand(instruction: Instruction) -> (storage: Storage)
        requires
            instruction.is_alu(),
        ensures
            storage == CpuView::alu_operand(instruction),
    {
        match instruction {
            Instruction::Adc(s)
            | Instruction::Add(s)
            | Instruction::And(s)
            | Instruction::Cp(s)
            | Instruction::Or(s)
            | Instruction::Sbc(s)
            | Instruction::Sub(s) => s,
            Instruction::Xor(r) => Storage::Register(r),
            Instruction::XorHl => Storage::Pointer(Register16::HL),
            _ => Storage::NextByte,
        }
    }

    /// Executes a form that combines the accumulator with an operand.
    pub fn execute_alu(&mut self, instruction: Instruction)
        requires
            old(self)@.wf(),
            old(self).cycles <= CYCLE_LIMIT,
            instruction.is_alu(),
            old(self)@.alu_executable(instruction),
        ensures
            final(self)@ == old(self)@.execute_alu(instruction),
            final(self)@.wf(),
    {
        let storage = Self::alu_operand(instruction);
        let a = self.registers.a;
        let carry = self.registers.has_flag(Flag::C);
        let b = storage.load(self);
        let (value, flags) = Self::alu_result(instruction, a, b, carry);
        self.registers.a = value;
        self.registers.update_flags(flags);
    }

    /// The operand of a form that changes an operand in place.
    pub fn unary_operand(instruction: Instruction) -> (storage: Storage)
        requires
            instruction.is_unary(),
        ensures
            storage == CpuView::unary_operand(instruction),
    {
        match instruction {
            Instruction::Inc(s)
            | Instruction::Dec(s)
            | Instruction::Rl(s)
            | Instruction::Rlc(s)
            | Instruction::Rr(s)
            | Instruction::Rrc(s)
            | Instruction::Sla(s)
            | Instruction::Sra(s)
            | Instruction::Srl(s)
            | Instruction::Swap(s)
            | Instruction::Res(_, s)
            | Instruction::SetBit(_, s)
            | Instruction::Bit(_, s) => s,
            _ => Storage::NextByte,
        }
    }

    /// The new operand and the flags of a form that changes an operand in
    /// place.
    pub fn unary_result(instruction: Instruction, a: u8, carry: bool) -> (result: (u8, FlagUpdate))
        requires
            instruction.is_unary(),
            CpuView::bit_number(instruction) < 8,
        ensures
            result == CpuView::unary_result(instruction, a, carry),
    {
        let untouched = FlagUpdate { z: None, n: None, h: None, c: None };
        match instruction {
            Instruction::Inc(_) => inc8(a),
            Instruction::Dec(_) => dec8(a),
            Instruction::Rl(_) => rl8(a, carry),
            Instruction::Rlc(_) => rlc8(a),
            Instruction::Rr(_) => rr8(a, carry),
            Instruction::Rrc(_) => rrc8(a),
            Instruction::Sla(_) => sla8(a),
            Instruction::Sra(_) => sra8(a),
            Instruction::Srl(_) => srl8(a),
            Instruction::Swap(_) => swap8(a),
            Instruction::Res(n, _) => (res8(n, a), untouched),
            Instruction::SetBit(n, _) => (set8(n, a), untouched),
            Instruction::Bit(n, _) => (a, bit8(n, a)),
            _ => (a, untouched),
        }
    }

    /// Executes a form that changes an operand in place, or the bit test.
    pub fn execute_unary(&mut self, instruction: Instruction)
        requires
            old(self)@.wf(),
            old(self).cycles <= CYCLE_LIMIT,
            instruction.is_unary(),
            old(self)@.unary_executable(instruction),
        ensures
            final(self)@ == old(self)@.execute_unary(instruction),
            final(self)@.wf(),
    {
        let storage = Self::unary_operand(instruction);
        let carry = self.registers.has_flag(Flag::C);
        let a = storage.load(self);
        let (value, flags) = Self::unary_result(instruction, a, carry);
        match instruction {
            Instruction::Bit(_, _) => {},
            _ => {
                storage.store(self, value);
            },
        }
        self.registers.update_flags(flags);
    }

    /// Executes a form that works on the accumulator and the flags alone.
    pub fn execute_accumulator(&mut self, instruction: Instruction)
        requires
            old(self)@.wf(),
            instruction.is_accumulator(),
        ensures
            final(self)@ == old(self)@.execute_accumulator(instruction),
            final(self)@.wf(),
    {
        let a = self.registers.a;
        let carry = self.registers.has_flag(Flag::C);
        let (value, flags) = match instruction {
            Instruction::Rla => {
                let (value, flags) = rl8(a, carry);
                (value, FlagUpdate { z: Some(false), ..flags })
            },
            Instruction::Rlca => {
                let (value, flags) = rlc8(a);
                (value, FlagUpdate { z: Some(false), ..flags })
            },
            Instruction::Rra => {
                let (value, flags) = rr8(a, carry);
                (value, FlagUpdate { z: Some(false), ..flags })
            },
            Instruction::Rrca => {
                let (value, flags) = rrc8(a);
                (value, FlagUpdate { z: Some(false), ..flags })
            },
            Instruction::Daa => {
                let n = self.registers.has_flag(Flag::N);
                let h = self.registers.has_flag(Flag::H);
                daa8(a, n, h, carry)
            },
            Instruction::Cpl => (a ^ 0xFF, FlagUpdate { z: None, n: Some(true), h: Some(true), c: None }),
            Instruction::Ccf => (a, FlagUpdate { z: None, n: Some(false), h: Some(false), c: Some(!carry) }),
            _ => (a, FlagUpdate { z: None, n: Some(false), h: Some(false), c: Some(true) }),
        };
        self.registers.a = value;
        self.registers.update_flags(flags);
    }
}

impl Cpu {
    /// Adds a register pair to `HL`.
    pub fn op_add_hl_r16(&mut self, r: Register16)
        requires
            old(self)@.wf(),
            old(self).cycles <= CYCLE_LIMIT,
            old(self)@.wide_executable(Instruction::AddHlR16(r)),
        ensures
            final(self)@ == old(self)@.execute_wide(Instruction::AddHlR16(r)),
            final(self)@.wf(),
    {
        let hl = self.registers.get16(Register16::HL);
        let (value, flags) = add16(hl, self.registers.get16(r));
        self.registers.set16(Register16::HL, value);
        self.registers.update_flags(flags);
    }

    /// Moves the stack pointer by the signed byte that follows.
    pub fn op_add_sp_e8(&mut self)
        requires
            old(self)@.wf(),
            old(self).cycles <= CYCLE_LIMIT,
            old(self)@.wide_executable(Instruction::AddSpE8),
        ensures
            final(self)@ == old(self)@.execute_wide(Instruction::AddSpE8),
            final(self)@.wf(),
    {
        let sp = self.registers.sp;
        let byte = self.load_and_bump_pc();
        let (value, flags) = add_sp(sp, byte);
        self.registers.sp = value;
        self.registers.update_flags(flags);
    }

    /// Loads `HL` with the stack pointer moved by the signed byte that follows.
    pub fn op_ld_hl_sp_e8(&mut self)
        requires
            old(self)@.wf(),
            old(self).cycles <= CYCLE_LIMIT,
            old(self)@.wide_executable(Instruction::LdHlSpE8),
        ensures
            final(self)@ == old(self)@.execute_wide(Instruction::LdHlSpE8),
            final(self)@.wf(),
    {
        let sp = self.registers.sp;
        let byte = self.load_and_bump_pc();
        let (value, flags) = add_sp(sp, byte);
        self.registers.set16(Register16::HL, value);
        self.registers.update_flags(flags);
    }

    /// Increments a register pair.
    pub fn op_inc16(&mut self, r: Register16)
        requires
            old(self)@.wf(),
            old(self).cycles <= CYCLE_LIMIT,
            old(self)@.wide_executable(Instruction::Inc16(r)),
        ensures
            final(self)@ == old(self)@.execute_wide(Instruction::Inc16(r)),
            final(self)@.wf(),
    {
        let value = self.registers.get16(r).wrapping_add(1);
        self.registers.set16(r, value);
    }

    /// Decrements a register pair.
    pub fn op_dec16(&mut self, r: Register16)
        requires
            old(self)@.wf(),
            old(self).cycles <= CYCLE_LIMIT,
            old(self)@.wide_executable(Instruction::Dec16(r)),
        ensures
            final(self)@ == old(self)@.execute_wide(Instruction::Dec16(r)),
            final(self)@.wf(),
    {
        let value = self.registers.get16(r).wrapping_sub(1);
        self.registers.set16(r, value);
    }

    /// Loads a register pair with the 16-bit value that follows.
    pub fn op_ld_nn(&mut self, r: Register16)
        requires
            old(self)@.wf(),
            old(self).cycles <= CYCLE_LIMIT,
            old(self)@.wide_executable(Instruction::LdNN(r)),
        ensures
            final(self)@ == old(self)@.execute_wide(Instruction::LdNN(r)),
            final(self)@.wf(),
    {
        let word = self.load_word_and_bump_pc();
        self.registers.set16(r, word);
    }

    /// Loads the stack pointer with the 16-bit value that follows.
    pub fn op_ld_sp(&mut self)
        requires
            old(self)@.wf(),
            old(self).cycles <= CYCLE_LIMIT,
            old(self)@.wide_executable(Instruction::LdSp),
        ensures
            final(self)@ == old(self)@.execute_wide(Instruction::LdSp),
            final(self)@.wf(),
    {
        let word = self.load_word_and_bump_pc();
        self.registers.sp = word;
    }

    /// Loads the stack pointer with `HL`.
    pub fn op_ld_sp_hl(&mut self)
        requires
            old(self)@.wf(),
            old(self).cycles <= CYCLE_LIMIT,
            old(self)@.wide_executable(Instruction::LdSpHl),
        ensures
            final(self)@ == old(self)@.execute_wide(Instruction::LdSpHl),
            final(self)@.wf(),
    {
        self.registers.sp = self.registers.get16(Register16::HL);
    }

    /// Pops a register pair.
    pub fn op_pop16(&mut self, r: Register16)
        requires
            old(self)@.wf(),
            old(self).cycles <= CYCLE_LIMIT,
            old(self)@.wide_executable(Instruction::Pop16(r)),
        ensures
            final(self)@ == old(self)@.execute_wide(Instruction::Pop16(r)),
            final(self)@.wf(),
    {
        let sp = self.registers.sp;
        let value = self.memory.load16(sp);
        self.registers.set16(r, value);
        self.registers.sp = sp.wrapping_add(2);
    }

    /// Pushes a register pair.
    pub fn op_push16(&mut self, r: Register16)
        requires
            old(self)@.wf(),
            old(self).cycles <= CYCLE_LIMIT,
            old(self)@.wide_executable(Instruction::Push16(r)),
        ensures
            final(self)@ == old(self)@.execute_wide(Instruction::Push16(r)),
            final(self)@.wf(),
    {
        let value = self.registers.get16(r);
        self.push16(value);
    }

    /// Stores the stack pointer at the address that follows.
    pub fn op_ld_a16_sp(&mut self)
        requires
            old(self)@.wf(),
            old(self).cycles <= CYCLE_LIMIT,
            old(self)@.wide_executable(Instruction::Lda16Sp),
        ensures
            final(self)@ == old(self)@.execute_wide(Instruction::Lda16Sp),
            final(self)@.wf(),
    {
        let address = self.load_word_and_bump_pc();
        self.memory.store16(address, self.registers.sp);
    }

    /// Executes a form that works on 16-bit values.
    pub fn execute_wide(&mut self, instruction: Instruction)
        requires
            old(self)@.wf(),
            old(self).cycles <= CYCLE_LIMIT,
            instruction.is_wide(),
            old(self)@.wide_executable(instruction),
        ensures
            final(self)@ == old(self)@.execute_wide(instruction),
            final(self)@.wf(),
    {
        match instruction {
            Instruction::AddHlR16(r) => self.op_add_hl_r16(r),
            Instruction::AddSpE8 => self.op_add_sp_e8(),
            Instruction::LdHlSpE8 => self.op_ld_hl_sp_e8(),
            Instruction::Inc16(r) => self.op_inc16(r),
            Instruction::Dec16(r) => self.op_dec16(r),
            Instruction::LdNN(r) => self.op_ld_nn(r),
            Instruction::LdSp => self.op_ld_sp(),
            Instruction::LdSpHl => self.op_ld_sp_hl(),
            Instruction::Pop16(r) => self.op_pop16(r),
            Instruction::Push16(r) => self.op_push16(r),
            Instruction::Lda16Sp => self.op_ld_a16_sp(),
            _ => {},
        }
    }

    /// Loads a register with the byte that follows.
    pub fn op_ld_n(&mut self, r: Register8)
        requires
            old(self)@.wf(),
            old(self).cycles <= CYCLE_LIMIT,
            old(self)@.load_executable(Instruction::LdN(r)),
        ensures
            final(self)@ == old(self)@.execute_load(Instruction::LdN(r)),
            final(self)@.wf(),
    {
        let byte = self.load_and_bump_pc();
        self.registers.set(r, byte);
    }

    /// Copies one register to another.
    pub fn op_ld_rr(&mut self, to: Register8, from: Register8)
        requires
            old(self)@.wf(),
            old(self).cycles <= CYCLE_LIMIT,
            old(self)@.load_executable(Instruction::LdRR(to, from)),
        ensures
            final(self)@ == old(self)@.execute_load(Instruction::LdRR(to, from)),
            final(self)@.wf(),
    {
        let value = self.registers.get(from);
        self.registers.set(to, value);
    }

    /// Loads a register with the byte at `HL`.
    pub fn op_ld_r_hl(&mut self, r: Register8)
        requires
            old(self)@.wf(),
            old(self).cycles <= CYCLE_LIMIT,
            old(self)@.load_executable(Instruction::LdRHl(r)),
        ensures
            final(self)@ == old(self)@.execute_load(Instruction::LdRHl(r)),
            final(self)@.wf(),
    {
        let address = self.registers.get16(Register16::HL);
        let value = self.load(address);
        self.registers.set(r, value);
    }

    /// Stores a register at `HL`.
    pub fn op_ld_hl_r(&mut self, r: Register8)
        requires
            old(self)@.wf(),
            old(self).cycles <= CYCLE_LIMIT,
            old(self)@.load_executable(Instruction::LdHlR(r)),
        ensures
            final(self)@ == old(self)@.execute_load(Instruction::LdHlR(r)),
            final(self)@.wf(),
    {
        let address = self.registers.get16(Register16::HL);
        let value = self.registers.get(r);
        self.store(address, value);
    }

    /// Stores the byte that follows at `HL`.
    pub fn op_ld_hl_d8(&mut self)
        requires
            old(self)@.wf(),
            old(self).cycles <= CYCLE_LIMIT,
            old(self)@.load_executable(Instruction::LdHlD8),
        ensures
            final(self)@ == old(self)@.execute_load(Instruction::LdHlD8),
            final(self)@.wf(),
    {
        let address = self.registers.get16(Register16::HL);
        let value = self.load_and_bump_pc();
        self.store(address, value);
    }

    /// Loads the accumulator with the byte at the address in a register pair.
    pub fn op_ld_a_r16(&mut self, r: Register16)
        requires
            old(self)@.wf(),
            old(self).cycles <= CYCLE_LIMIT,
            old(self)@.load_executable(Instruction::LdAR16(r)),
        ensures
            final(self)@ == old(self)@.execute_load(Instruction::LdAR16(r)),
            final(self)@.wf(),
    {
        let address = self.registers.get16(r);
        self.registers.a = self.load(address);
    }

    /// Stores the accumulator at the address in a register pair.
    pub fn op_ld_r16_a(&mut self, r: Register16)
        requires
            old(self)@.wf(),
            old(self).cycles <= CYCLE_LIMIT,
            old(self)@.load_executable(Instruction::LdR16A(r)),
        ensures
            final(self)@ == old(self)@.execute_load(Instruction::LdR16A(r)),
            final(self)@.wf(),
    {
        let address = self.registers.get16(r);
        self.store(address, self.registers.a);
    }

    /// Loads the accumulator with the byte at the address that follows.
    pub fn op_ld_a_a16(&mut self)
        requires
            old(self)@.wf(),
            old(self).cycles <= CYCLE_LIMIT,
            old(self)@.load_executable(Instruction::LdAA16),
        ensures
            final(self)@ == old(self)@.execute_load(Instruction::LdAA16),
            final(self)@.wf(),
    {
        let address = self.load_word_and_bump_pc();
        self.registers.a = self.load(address);
    }

    /// Stores the accumulator at the address that follows.
    pub fn op_ld_a16_a(&mut self)
        requires
            old(self)@.wf(),
            old(self).cycles <= CYCLE_LIMIT,
            old(self)@.load_executable(Instruction::Lda16A),
        ensures
            final(self)@ == old(self)@.execute_load(Instruction::Lda16A),
            final(self)@.wf(),
    {
        let address = self.load_word_and_bump_pc();
        self.store(address, self.registers.a);
    }

    /// Loads the accumulator with the byte at `HL`, then decrements `HL`.
    pub fn op_ldd_a_hl(&mut self)
        requires
            old(self)@.wf(),
            old(self).cycles <= CYCLE_LIMIT,
            old(self)@.load_executable(Instruction::LddAHl),
        ensures
            final(self)@ == old(self)@.execute_load(Instruction::LddAHl),
            final(self)@.wf(),
    {
        let address = self.registers.get16(Register16::HL);
        self.registers.a = self.load(address);
        self.registers.set16(Register16::HL, address.wrapping_sub(1));
    }

    /// Stores the accumulator at `HL`, then decrements `HL`.
    pub fn op_ldd_hl_a(&mut self)
        requires
            old(self)@.wf(),
            old(self).cycles <= CYCLE_LIMIT,
            old(self)@.load_executable(Instruction::LddHlA),
        ensures
            final(self)@ == old(self)@.execute_load(Instruction::LddHlA),
            final(self)@.wf(),
    {
        let address = self.registers.get16(Register16::HL);
        self.store(address, self.registers.a);
        self.registers.set16(Register16::HL, address.wrapping_sub(1));
    }

    /// Loads the accumulator with the byte at `HL`, then increments `HL`.
    pub fn op_ldi_a_hl(&mut self)
        requires
            old(self)@.wf(),
            old(self).cycles <= CYCLE_LIMIT,
            old(self)@.load_executable(Instruction::LdiAHl),
        ensures
            final(self)@ == old(self)@.execute_load(Instruction::LdiAHl),
            final(self)@.wf(),
    {
        let address = self.registers.get16(Register16::HL);
        self.registers.a = self.load(address);
        self.registers.set16(Register16::HL, address.wrapping_add(1));
    }

    /// Stores the accumulator at `HL`, then increments `HL`.
    pub fn op_ldi_hl_a(&mut self)
        requires
            old(self)@.wf(),
            old(self).cycles <= CYCLE_LIMIT,
            old(self)@.load_executable(Instruction::LdiHlA),
        ensures
            final(self)@ == old(self)@.execute_load(Instruction::LdiHlA),
            final(self)@.wf(),
    {
        let address = self.registers.get16(Register16::HL);
        self.store(address, self.registers.a);
        self.registers.set16(Register16::HL, address.wrapping_add(1));
    }

    /// Loads the accumulator from the I/O page at offset `C`.
    pub fn op_ld_read_io_c(&mut self)
        requires
            old(self)@.wf(),
            old(self).cycles <= CYCLE_LIMIT,
            old(self)@.load_executable(Instruction::LdReadIoC),
        ensures
            final(self)@ == old(self)@.execute_load(Instruction::LdReadIoC),
            final(self)@.wf(),
    {
        let address: u16 = 0xFF00 + self.registers.c as u16;
        self.registers.a = self.load(address);
    }

    /// Loads the accumulator from the I/O page at the offset that follows.
    pub fn op_ld_read_io_n(&mut self)
        requires
            old(self)@.wf(),
            old(self).cycles <= CYCLE_LIMIT,
            old(self)@.load_executable(Instruction::LdReadIoN),
        ensures
            final(self)@ == old(self)@.execute_load(Instruction::LdReadIoN),
            final(self)@.wf(),
    {
        let n = self.load_and_bump_pc();
        let address: u16 = 0xFF00 + n as u16;
        self.registers.a = self.load(address);
    }

    /// Stores the accumulator in the I/O page at offset `C`.
    pub fn op_ld_write_io_c(&mut self)
        requires
            old(self)@.wf(),
            old(self).cycles <= CYCLE_LIMIT,
            old(self)@.load_executable(Instruction::LdWriteIoC),
        ensures
            final(self)@ == old(self)@.execute_load(Instruction::LdWriteIoC),
            final(self)@.wf(),
    {
        let address: u16 = 0xFF00 + self.registers.c as u16;
        self.store(address, self.registers.a);
    }

    /// Stores the accumulator in the I/O page at the offset that follows.
    pub fn op_ld_write_io_n(&mut self)
        requires
            old(self)@.wf(),
            old(self).cycles <= CYCLE_LIMIT,
            old(self)@.load_executable(Instruction::LdWriteIoN),
        ensures
            final(self)@ == old(self)@.execute_load(Instruction::LdWriteIoN),
            final(self)@.wf(),
    {
        let n = self.load_and_bump_pc();
        let address: u16 = 0xFF00 + n as u16;
        self.store(address, self.registers.a);
    }

    /// Executes a form that moves one byte.
    pub fn execute_load(&mut self, instruction: Instruction)
        requires
            old(self)@.wf(),
            old(self).cycles <= CYCLE_LIMIT,
            instruction.is_load(),
            old(self)@.load_executable(instruction),
        ensures
            final(self)@ == old(self)@.execute_load(instruction),
            final(self)@.wf(),
    {
        match instruction {
            Instruction::LdN(r) => self.op_ld_n(r),
            Instruction::LdRR(to, from) => self.op_ld_rr(to, from),
            Instruction::LdRHl(r) => self.op_ld_r_hl(r),
            Instruction::LdHlR(r) => self.op_ld_hl_r(r),
            Instruction::LdHlD8 => self.op_ld_hl_d8(),
            Instruction::LdAR16(r) => self.op_ld_a_r16(r),
            Instruction::LdR16A(r) => self.op_ld_r16_a(r),
            Instruction::LdAA16 => self.op_ld_a_a16(),
            Instruction::Lda16A => self.op_ld_a16_a(),
            Instruction::LddAHl => self.op_ldd_a_hl(),
            Instruction::LddHlA => self.op_ldd_hl_a(),
            Instruction::LdiAHl => self.op_ldi_a_hl(),
            Instruction::LdiHlA => self.op_ldi_hl_a(),
            Instruction::LdReadIoC => self.op_ld_read_io_c(),
            Instruction::LdReadIoN => self.op_ld_read_io_n(),
            Instruction::LdWriteIoC => self.op_ld_write_io_c(),
            Instruction::LdWriteIoN => self.op_ld_write_io_n(),
            _ => {},
        }
    }

    /// Calls the address that follows.
    pub fn op_call(&mut self)
        requires
            old(self)@.wf(),
            old(self).cycles <= CYCLE_LIMIT,
            old(self)@.jump_executable(Instruction::Call),
        ensures
            final(self)@ == old(self)@.execute_jump(Instruction::Call),
            final(self)@.wf(),
    {
        self.do_call();
    }

    /// Calls the address that follows if a flag has the expected value.
    pub fn op_call_cond(&mut self, flag: Flag, expected: bool)
        requires
            old(self)@.wf(),
            old(self).cycles <= CYCLE_LIMIT,
            old(self)@.jump_executable(Instruction::CallCond(flag, expected)),
        ensures
            final(self)@ == old(self)@.execute_jump(Instruction::CallCond(flag, expected)),
            final(self)@.wf(),
    {
        if self.registers.has_flag(flag) == expected {
            self.do_call();
            self.cycles += 12;
        } else {
            self.pc = self.pc.wrapping_add(2);
        }
    }

    /// Jumps to the address that follows.
    pub fn op_jp(&mut self)
        requires
            old(self)@.wf(),
            old(self).cycles <= CYCLE_LIMIT,
            old(self)@.jump_executable(Instruction::Jp),
        ensures
            final(self)@ == old(self)@.execute_jump(Instruction::Jp),
            final(self)@.wf(),
    {
        self.pc = self.load_word();
    }

    /// Jumps to the address that follows if a flag has the expected value.
    pub fn op_jp_cond(&mut self, flag: Flag, expected: bool)
        requires
            old(self)@.wf(),
            old(self).cycles <= CYCLE_LIMIT,
            old(self)@.jump_executable(Instruction::JpCond(flag, expected)),
        ensures
            final(self)@ == old(self)@.execute_jump(Instruction::JpCond(flag, expected)),
            final(self)@.wf(),
    {
        let address = self.load_word_and_bump_pc();
        if self.registers.has_flag(flag) == expected {
            self.pc = address;
            self.cycles += 4;
        }
    }

    /// Jumps to the address in `HL`.
    pub fn op_jp_hl(&mut self)
        requires
            old(self)@.wf(),
            old(self).cycles <= CYCLE_LIMIT,
            old(self)@.jump_executable(Instruction::JpHl),
        ensures
            final(self)@ == old(self)@.execute_jump(Instruction::JpHl),
            final(self)@.wf(),
    {
        self.pc = self.registers.get16(Register16::HL);
    }

    /// Jumps by the signed byte that follows if a flag has the expected value.
    pub fn op_jr(&mut self, flag: Flag, expected: bool)
        requires
            old(self)@.wf(),
            old(self).cycles <= CYCLE_LIMIT,
            old(self)@.jump_executable(Instruction::Jr(flag, expected)),
        ensures
            final(self)@ == old(self)@.execute_jump(Instruction::Jr(flag, expected)),
            final(self)@.wf(),
    {
        let byte = self.load_and_bump_pc();
        if self.registers.has_flag(flag) == expected {
            self.pc = offset(self.pc, byte);
            self.cycles += 4;
        }
    }

    /// Jumps by the signed byte that follows.
    pub fn op_jr_e8(&mut self)
        requires
            old(self)@.wf(),
            old(self).cycles <= CYCLE_LIMIT,
            old(self)@.jump_executable(Instruction::JrE8),
        ensures
            final(self)@ == old(self)@.execute_jump(Instruction::JrE8),
            final(self)@.wf(),
    {
        let byte = self.load_and_bump_pc();
        self.pc = offset(self.pc, byte);
    }

    /// Returns to the address on top of the stack.
    pub fn op_ret(&mut self)
        requires
            old(self)@.wf(),
            old(self).cycles <= CYCLE_LIMIT,
            old(self)@.jump_executable(Instruction::Ret),
        ensures
            final(self)@ == old(self)@.execute_jump(Instruction::Ret),
            final(self)@.wf(),
    {
        self.do_ret();
    }

    /// Returns and enables interrupts.
    pub fn op_reti(&mut self)
        requires
            old(self)@.wf(),
            old(self).cycles <= CYCLE_LIMIT,
            old(self)@.jump_executable(Instruction::Reti),
        ensures
            final(self)@ == old(self)@.execute_jump(Instruction::Reti),
            final(self)@.wf(),
    {
        self.do_ret();
        self.ime = true;
    }

    /// Returns if a flag has the expected value.
    pub fn op_ret_cond(&mut self, flag: Flag, expected: bool)
        requires
            old(self)@.wf(),
            old(self).cycles <= CYCLE_LIMIT,
            old(self)@.jump_executable(Instruction::RetCond(flag, expected)),
        ensures
            final(self)@ == old(self)@.execute_jump(Instruction::RetCond(flag, expected)),
            final(self)@.wf(),
    {
        if self.registers.has_flag(flag) == expected {
            self.do_ret();
            self.cycles += 12;
        }
    }

    /// Pushes the program counter and jumps to a fixed address.
    pub fn op_rst(&mut self, address: u16)
        requires
            old(self)@.wf(),
            old(self).cycles <= CYCLE_LIMIT,
            old(self)@.jump_executable(Instruction::Rst(address)),
        ensures
            final(self)@ == old(self)@.execute_jump(Instruction::Rst(address)),
            final(self)@.wf(),
    {
        self.push16(self.pc);
        self.pc = address;
    }

    /// Executes a form that changes the program counter.
    pub fn execute_jump(&mut self, instruction: Instruction)
        requires
            old(self)@.wf(),
            old(self).cycles <= CYCLE_LIMIT,
            instruction.is_jump(),
            old(self)@.jump_executable(instruction),
        ensures
            final(self)@ == old(self)@.execute_jump(instruction),
            final(self)@.wf(),
    {
        match instruction {
            Instruction::Call => self.op_call(),
            Instruction::CallCond(flag, expected) => self.op_call_cond(flag, expected),
            Instruction::Jp => self.op_jp(),
            Instruction::JpCond(flag, expected) => self.op_jp_cond(flag, expected),
            Instruction::JpHl => self.op_jp_hl(),
            Instruction::Jr(flag, expected) => self.op_jr(flag, expected),
            Instruction::JrE8 => self.op_jr_e8(),
            Instruction::Ret => self.op_ret(),
            Instruction::Reti => self.op_reti(),
            Instruction::RetCond(flag, expected) => self.op_ret_cond(flag, expected),
            Instruction::Rst(address) => self.op_rst(address),
            _ => {},
        }
    }

}

impl Cpu {
    /// Executes one instruction, the program counter standing behind its
    /// opcode.
    pub fn execute(&mut self, instruction: Instruction)
        requires
            old(self)@.wf(),
            old(self)@.executable(instruction),
        ensures
            final(self)@ == old(self)@.execute(instruction),
            final(self)@.wf(),
    {
        reveal(CpuView::execute);
        reveal(CpuView::executable);
        match instruction {
            Instruction::Adc(_)
            | Instruction::Add(_)
            | Instruction::And(_)
            | Instruction::Cp(_)
            | Instruction::Or(_)
            | Instruction::Sbc(_)
            | Instruction::Sub(_)
            | Instruction::Xor(_)
            | Instruction::XorD8
            | Instruction::XorHl => self.execute_alu(instruction),
            Instruction::Inc(_)
            | Instruction::Dec(_)
            | Instruction::Rl(_)
            | Instruction::Rlc(_)
            | Instruction::Rr(_)
            | Instruction::Rrc(_)
            | Instruction::Sla(_)
            | Instruction::Sra(_)
            | Instruction::Srl(_)
            | Instruction::Swap(_)
            | Instruction::Res(_, _)
            | Instruction::SetBit(_, _)
            | Instruction::Bit(_, _) => self.execute_unary(instruction),
            Instruction::Rla
            | Instruction::Rlca
            | Instruction::Rra
            | Instruction::Rrca
            | Instruction::Daa
            | Instruction::Cpl
            | Instruction::Ccf
            | Instruction::Scf => self.execute_accumulator(instruction),
            Instruction::AddHlR16(_)
            | Instruction::AddSpE8
            | Instruction::LdHlSpE8
            | Instruction::Inc16(_)
            | Instruction::Dec16(_)
            | Instruction::LdNN(_)
            | Instruction::LdSp
            | Instruction::LdSpHl
            | Instruction::Pop16(_)
            | Instruction::Push16(_)
            | Instruction::Lda16Sp => self.execute_wide(instruction),
            Instruction::LdN(_)
            | Instruction::LdRR(_, _)
            | Instruction::LdRHl(_)
            | Instruction::LdHlR(_)
            | Instruction::LdHlD8
            | Instruction::LdAR16(_)
            | Instruction::LdR16A(_)
            | Instruction::LdAA16
            | Instruction::Lda16A
            | Instruction::LddAHl
            | Instruction::LddHlA
            | Instruction::LdiAHl
            | Instruction::LdiHlA
            | Instruction::LdReadIoC
            | Instruction::LdReadIoN
            | Instruction::LdWriteIoC
            | Instruction::LdWriteIoN => self.execute_load(instruction),
            Instruction::Call
            | Instruction::CallCond(_, _)
            | Instruction::Jp
            | Instruction::JpCond(_, _)
            | Instruction::JpHl
            | Instruction::Jr(_, _)
            | Instruction::JrE8
            | Instruction::Ret
            | Instruction::Reti
            | Instruction::RetCond(_, _)
            | Instruction::Rst(_) => self.execute_jump(instruction),
            Instruction::Di => self.ime = false,
            Instruction::Ei => self.ime = true,
            Instruction::Halt => self.halted = true,
            _ => {},
        }
    }

    /// Tells whether the instruction can be executed, the program counter
    /// standing behind its opcode.
    pub fn can_execute(&self, instruction: Instruction) -> (ok: bool)
        requires
            self@.wf(),
        ensures
            ok == self@.executable(instruction),
    {
        self.can_execute_at(self.pc, instruction)
    }

    /// Tells whether the instruction could be executed if the program
    /// counter stood at `pc`.
    pub fn can_execute_at(&self, pc: u16, instruction: Instruction) -> (ok: bool)
        requires
            self@.wf(),
        ensures
            ok == self@.at(pc).executable(instruction),
    {
        reveal(CpuView::executable);
        if self.cycles > CYCLE_LIMIT {
            return false;
        }
        match instruction {
            Instruction::NotImplemented | Instruction::Undefined => false,
            Instruction::Adc(_)
            | Instruction::Add(_)
            | Instruction::And(_)
            | Instruction::Cp(_)
            | Instruction::Or(_)
            | Instruction::Sbc(_)
            | Instruction::Sub(_)
            | Instruction::Xor(_)
            | Instruction::XorD8
            | Instruction::XorHl => self.can_read(pc, Self::alu_operand(instruction)),
            Instruction::Bit(n, s) => n < 8 && self.can_read(pc, s),
            Instruction::Res(n, s) | Instruction::SetBit(n, s) => n < 8 && self.can_update(
                pc,
                instruction,
                s,
            ),
            Instruction::Inc(s)
            | Instruction::Dec(s)
            | Instruction::Rl(s)
            | Instruction::Rlc(s)
            | Instruction::Rr(s)
            | Instruction::Rrc(s)
            | Instruction::Sla(s)
            | Instruction::Sra(s)
            | Instruction::Srl(s)
            | Instruction::Swap(s) => self.can_update(pc, instruction, s),
            Instruction::AddHlR16(_)
            | Instruction::AddSpE8
            | Instruction::LdHlSpE8
            | Instruction::Inc16(_)
            | Instruction::Dec16(_)
            | Instruction::LdNN(_)
            | Instruction::LdSp
            | Instruction::LdSpHl
            | Instruction::Pop16(_)
            | Instruction::Push16(_)
            | Instruction::Lda16Sp => self.can_execute_wide(pc, instruction),
            Instruction::LdN(_)
            | Instruction::LdRR(_, _)
            | Instruction::LdRHl(_)
            | Instruction::LdHlR(_)
            | Instruction::LdHlD8
            | Instruction::LdAR16(_)
            | Instruction::LdR16A(_)
            | Instruction::LdAA16
            | Instruction::Lda16A
            | Instruction::LddAHl
            | Instruction::LddHlA
            | Instruction::LdiAHl
            | Instruction::LdiHlA
            | Instruction::LdReadIoC
            | Instruction::LdReadIoN
            | Instruction::LdWriteIoC
            | Instruction::LdWriteIoN => self.can_execute_load(pc, instruction),
            Instruction::Call
            | Instruction::CallCond(_, _)
            | Instruction::Jp
            | Instruction::JpCond(_, _)
            | Instruction::JpHl
            | Instruction::Jr(_, _)
            | Instruction::JrE8
            | Instruction::Ret
            | Instruction::Reti
            | Instruction::RetCond(_, _)
            | Instruction::Rst(_) => self.can_execute_jump(pc, instruction),
            _ => true,
        }
    }

    /// Tells whether a form that works on 16-bit values could be executed
    /// if the program counter stood at `pc`.
    pub fn can_execute_wide(&self, pc: u16, instruction: Instruction) -> (ok: bool)
        requires
            self@.wf(),
        ensures
            ok == self@.at(pc).wide_executable(instruction),
    {
        match instruction {
            Instruction::AddSpE8 | Instruction::LdHlSpE8 => self.memory.can_load(pc),
            Instruction::LdNN(_) | Instruction::LdSp => self.memory.can_load16(pc),
            Instruction::Lda16Sp => self.memory.can_load16(pc) && self.memory.can_store16(
                self.memory.load16(pc),
            ),
            Instruction::Pop16(_) => self.memory.can_load16(self.registers.sp),
            Instruction::Push16(_) => self.can_push(),
            _ => true,
        }
    }

    /// Tells whether a form that moves one byte could be executed if the
    /// program counter stood at `pc`.
    pub fn can_execute_load(&self, pc: u16, instruction: Instruction) -> (ok: bool)
        requires
            self@.wf(),
        ensures
            ok == self@.at(pc).load_executable(instruction),
    {
        let hl = self.registers.get16(Register16::HL);
        let a = self.registers.a;
        match instruction {
            Instruction::LdN(_) | Instruction::LdReadIoN => self.memory.can_load(pc),
            Instruction::LdRHl(_) | Instruction::LddAHl | Instruction::LdiAHl => self.memory.can_load(hl),
            Instruction::LdHlR(r) => self.can_store(hl, self.registers.get(r)),
            Instruction::LdHlD8 => self.memory.can_load(pc) && self.can_store(hl, self.load(pc)),
            Instruction::LdAR16(r) => self.memory.can_load(self.registers.get16(r)),
            Instruction::LdR16A(r) => self.can_store(self.registers.get16(r), a),
            Instruction::LdAA16 => self.memory.can_load16(pc) && self.memory.can_load(self.memory.load16(pc)),
            Instruction::Lda16A => self.memory.can_load16(pc) && self.can_store(self.memory.load16(pc), a),
            Instruction::LddHlA | Instruction::LdiHlA => self.can_store(hl, a),
            Instruction::LdWriteIoC => self.can_store(0xFF00 + self.registers.c as u16, a),
            Instruction::LdWriteIoN => self.memory.can_load(pc) && self.can_store(
                0xFF00 + self.load(pc) as u16,
                a,
            ),
            _ => true,
        }
    }

    /// Tells whether a form that changes the program counter could be
    /// executed if the program counter stood at `pc`.
    pub fn can_execute_jump(&self, pc: u16, instruction: Instruction) -> (ok: bool)
        requires
            self@.wf(),
        ensures
            ok == self@.at(pc).jump_executable(instruction),
    {
        match instruction {
            Instruction::Jp | Instruction::JpCond(_, _) => self.memory.can_load16(pc),
            Instruction::Call => self.memory.can_load16(pc) && self.can_push(),
            Instruction::CallCond(flag, expected) => self.registers.has_flag(flag) != expected || (
            self.memory.can_load16(pc) && self.can_push()),
            Instruction::Rst(_) => self.can_push(),
            Instruction::Jr(_, _) | Instruction::JrE8 => self.memory.can_load(pc),
            Instruction::Ret | Instruction::Reti => self.memory.can_load16(self.registers.sp),
            Instruction::RetCond(flag, expected) => self.registers.has_flag(flag) != expected
                || self.memory.can_load16(self.registers.sp),
            _ => true,
        }
    }

    /// Tells whether an operand could be read if the program counter stood
    /// at `pc`.
    pub fn can_read(&self, pc: u16, storage: Storage) -> (ok: bool)
        requires
            self@.wf(),
        ensures
            ok == self@.at(pc).storage_readable(storage),
    {
        match storage {
            Storage::NextByte => self.memory.can_load(pc),
            Storage::Register(_) => true,
            Storage::Pointer(r) => self.memory.can_load(self.registers.get16(r)),
        }
    }

    /// Tells whether the operand of a form that changes it in place can be
    /// read and its result written back.
    pub fn can_update(&self, pc: u16, instruction: Instruction, storage: Storage) -> (ok: bool)
        requires
            self@.wf(),
            instruction.is_unary(),
            !(instruction is Bit),
            storage == CpuView::unary_operand(instruction),
            CpuView::bit_number(instruction) < 8,
        ensures
            ok == (self@.at(pc).storage_readable(storage) && self@.at(pc).storage_writable(
                storage,
                CpuView::unary_result(
                    instruction,
                    self@.at(pc).storage_value(storage),
                    self.registers.spec_has_flag(Flag::C),
                ).0,
            )),
    {
        match storage {
            Storage::NextByte => false,
            Storage::Register(_) => true,
            Storage::Pointer(r) => {
                let address = self.registers.get16(r);
                if self.memory.can_load(address) {
                    let carry = self.registers.has_flag(Flag::C);
                    let (value, _) = Self::unary_result(instruction, self.load(address), carry);
                    self.can_store(address, value)
                } else {
                    false
                }
            },
        }
    }

    /// Tells whether the processor can make a step.
    pub fn can_step(&self) -> (ok: bool)
        requires
            self@.wf(),
        ensures
            ok == self@.can_step(),
    {
        if self.cycles > CYCLE_LIMIT {
            return false;
        }
        if self.halted {
            return true;
        }
        if !self.memory.can_load(self.pc) {
            return false;
        }
        let byte = self.load_byte();
        if byte == PREFIX {
            let second = self.pc.wrapping_add(1);
            if !self.memory.can_load(second) {
                return false;
            }
            let entry = Self::decode_cb(self.load(second));
            self.can_execute_at(self.pc.wrapping_add(2), entry.0)
        } else {
            let entry = Self::decode(byte);
            self.can_execute_at(self.pc.wrapping_add(1), entry.0)
        }
    }

    /// Fetches and decodes the opcode at the program counter: the
    /// instruction, its base cycles and the length of the opcode.
    pub fn fetch(&self) -> (decoded: (Instruction, u64, u16))
        requires
            self@.wf(),
            self@.memory.readable(self.pc),
            self@.next_byte() == PREFIX ==> self@.memory.readable(self.pc.wrapping_add(1)),
        ensures
            decoded.0 == self@.decoded().0,
            decoded.1 == self@.decoded().1,
            decoded.2 == self@.opcode_length(),
    {
        let byte = self.load_byte();
        if byte == PREFIX {
            let entry = Self::decode_cb(self.load(self.pc.wrapping_add(1)));
            (entry.0, entry.1, 2)
        } else {
            let entry = Self::decode(byte);
            (entry.0, entry.1, 1)
        }
    }

    /// Advances the processor by one instruction: fetches the opcode at the
    /// program counter, decodes it, moves the program counter past it,
    /// executes the instruction and charges its cycles. A halted processor
    /// fetches nothing and is charged 4 cycles.
    pub fn step(&mut self)
        requires
            old(self)@.wf(),
            old(self)@.can_step(),
        ensures
            final(self)@ == old(self)@.step(),
            final(self)@.wf(),
    {
        if self.halted {
            self.cycles += HALT_CYCLES;
            return ;
        }
        let (instruction, cycles, length) = self.fetch();
        self.pc = self.pc.wrapping_add(length);
        proof {
            lemma_execute_cycles(self@, instruction);
            lemma_base_cycles(old(self)@.next_byte());
            lemma_base_cycles(old(self)@.memory.load(old(self).pc.wrapping_add(1)));
        }
        self.execute(instruction);
        self.cycles += cycles;
    }

    pub fn is_interrupt_enabled(&self, n: u8) -> (enabled: bool)
        requires
            self@.wf(),
            n < 8,
        ensures
            enabled == (self@.enabled() & (1u8 << n) != 0),
    {
        self.load(INTERRUPT_ENABLE) & (1u8 << n) != 0
    }

    pub fn is_interrupt_requested(&self, n: u8) -> (requested: bool)
        requires
            self@.wf(),
            n < 8,
        ensures
            requested == (self@.requested() & (1u8 << n) != 0),
    {
        self.load(INTERRUPT_FLAG) & (1u8 << n) != 0
    }

    /// Sets the bits `bits` of the interrupt request byte.
    pub fn request_interrupt(&mut self, bits: u8)
        requires
            old(self)@.wf(),
        ensures
            final(self)@ == old(self)@.request_interrupt(bits),
            final(self)@.wf(),
    {
        let requested = self.load(INTERRUPT_FLAG);
        self.memory.store(INTERRUPT_FLAG, requested | bits);
    }

    /// Tells whether any interrupt is both requested and enabled.
    pub fn has_interrupt(&self) -> (pending: bool)
        requires
            self@.wf(),
        ensures
            pending == (self@.requested() & self@.enabled() != 0),
    {
        let requested = self.load(INTERRUPT_FLAG);
        let enabled = self.load(INTERRUPT_ENABLE);
        requested & enabled != 0
    }

    /// Tells whether interrupts can be resolved.
    pub fn can_interrupt(&self) -> (ok: bool)
        requires
            self@.wf(),
        ensures
            ok == self@.resolvable(),
    {
        !self.ime || self.can_check_interrupts(0)
    }

    /// Tells whether the interrupts from `n` up can be looked at.
    pub fn can_check_interrupts(&self, n: u8) -> (ok: bool)
        requires
            self@.wf(),
            n <= 5,
        ensures
            ok == self@.checkable(n),
        decreases 5 - n,
    {
        if n > 4 {
            true
        } else if self.is_interrupt_requested(n) && self.is_interrupt_enabled(n) {
            self.can_push()
        } else {
            self.can_check_interrupts(n + 1)
        }
    }

    /// Resolves interrupts: a pending interrupt ends a halt, and where
    /// interrupts are enabled the pending one of lowest number is
    /// dispatched.
    pub fn interrupt(&mut self)
        requires
            old(self)@.wf(),
            old(self)@.resolvable(),
        ensures
            final(self)@ == old(self)@.interrupt(),
            final(self)@.wf(),
    {
        proof {
            lemma_checkable_awake(self@, 0);
        }
        if self.has_interrupt() {
            self.halted = false;
        }
        if self.ime {
            self.check_interrupts(0);
        }
    }

    /// Dispatches the first pending interrupt from `n` up, if there is one.
    pub fn check_interrupts(&mut self, n: u8)
        requires
            old(self)@.wf(),
            old(self)@.checkable(n),
            n <= 5,
        ensures
            final(self)@ == old(self)@.check_interrupts(n),
            final(self)@.wf(),
        decreases 5 - n,
    {
        if n > 4 {
            return ;
        }
        let requested = self.load(INTERRUPT_FLAG);
        if requested & (1u8 << n) != 0 && self.is_interrupt_enabled(n) {
            self.memory.store(INTERRUPT_FLAG, requested & !(1u8 << n));
            self.push16(self.pc);
            self.ime = false;
            self.pc = 0x40 + 8 * (n as u16);
        } else {
            self.check_interrupts(n + 1);
        }
    }
}

/// Whether the processor is halted makes no difference to which interrupt
/// is dispatched.
proof fn lemma_checkable_awake(cpu: CpuView, n: u8)
    requires
        n <= 5,
    ensures
        (CpuView { halted: false, ..cpu }).checkable(n) == cpu.checkable(n),
        (CpuView { halted: false, ..cpu }).check_interrupts(n) == (CpuView {
            halted: false,
            ..cpu.check_interrupts(n)
        }),
    decreases 5 - n,
{
    if n < 5 {
        lemma_checkable_awake(cpu, (n + 1) as u8);
    }
}

/// Every entry of the two decoding tables charges at least 4 and at most
/// 24 cycles.
pub proof fn lemma_base_cycles(opcode: u8)
    ensures
        4 <= opcode_entry(opcode).1 <= 24,
        4 <= cb_opcode_entry(opcode).1 <= 24,
{
    reveal(opcode_entry);
    reveal(cb_opcode_entry);
}

/// What an instruction adds to the cycle counter beyond its base cycles:
/// 4 or 12 for a conditional form whose condition holds, 160 for a write
/// that starts a transfer to the object attribute table, else nothing.
pub proof fn lemma_execute_cycles(cpu: CpuView, instruction: Instruction)
    requires
        cpu.cycles <= CYCLE_LIMIT,
    ensures
        cpu.execute(instruction).cycles == cpu.cycles + cpu.adjustment(instruction),
        cpu.adjustment(instruction) <= DMA_LENGTH,
        cpu.execute(instruction).memory.gpu.cycles == cpu.memory.gpu.cycles,
{
    reveal(CpuView::execute);
    if instruction.is_unary() {
        lemma_unary_cycles(cpu, instruction);
    } else if instruction.is_wide() {
        lemma_wide_cycles(cpu, instruction);
    } else if instruction.is_load() {
        lemma_load_cycles(cpu, instruction);
    } else if instruction.is_jump() {
        lemma_jump_cycles(cpu, instruction);
    }
}

/// An 8-bit write of the processor costs 160 cycles where it starts a
/// transfer, and leaves the registers and the clock of the pixel unit alone.
proof fn lemma_store_cycles(cpu: CpuView, address: u16, value: u8)
    requires
        cpu.cycles <= CYCLE_LIMIT,
    ensures
        cpu.store(address, value).cycles == cpu.cycles + (if address == DMA_REGISTER {
            DMA_LENGTH as int
        } else {
            0
        }),
        cpu.store(address, value).pc == cpu.pc,
        cpu.store(address, value).registers == cpu.registers,
        cpu.store(address, value).memory.gpu.cycles == cpu.memory.gpu.cycles,
{
    lemma_dma_keeps_clock(cpu.memory, value, DMA_LENGTH as nat);
}

/// A transfer to the object attribute table leaves the clock of the pixel
/// unit alone.
proof fn lemma_dma_keeps_clock(memory: MemoryView, page: u8, n: nat)
    ensures
        dma_copied(memory, page, n).gpu.cycles == memory.gpu.cycles,
    decreases n,
{
    if n > 0 {
        lemma_dma_keeps_clock(memory, page, (n - 1) as nat);
    }
}

/// What a form that changes an operand in place adds to the cycle counter.
proof fn lemma_unary_cycles(cpu: CpuView, instruction: Instruction)
    requires
        cpu.cycles <= CYCLE_LIMIT,
        instruction.is_unary(),
    ensures
        cpu.execute_unary(instruction).cycles == cpu.cycles + cpu.adjustment(instruction),
        cpu.execute_unary(instruction).memory.gpu.cycles == cpu.memory.gpu.cycles,
{
    let storage = CpuView::unary_operand(instruction);
    let loaded = cpu.storage_loaded(storage);
    let result = CpuView::unary_result(instruction, cpu.storage_value(storage), cpu.registers.spec_has_flag(Flag::C));
    match storage {
        Storage::Pointer(r) => {
            lemma_store_cycles(loaded, cpu.registers.spec_get16(r), result.0);
        },
        _ => {},
    }
}

/// What a form that works on 16-bit values adds to the cycle counter.
proof fn lemma_wide_cycles(cpu: CpuView, instruction: Instruction)
    requires
        cpu.cycles <= CYCLE_LIMIT,
        instruction.is_wide(),
    ensures
        cpu.execute_wide(instruction).cycles == cpu.cycles + cpu.adjustment(instruction),
        cpu.execute_wide(instruction).memory.gpu.cycles == cpu.memory.gpu.cycles,
{
}

/// What a form that moves one byte adds to the cycle counter.
proof fn lemma_load_cycles(cpu: CpuView, instruction: Instruction)
    requires
        cpu.cycles <= CYCLE_LIMIT,
        instruction.is_load(),
    ensures
        cpu.execute_load(instruction).cycles == cpu.cycles + cpu.adjustment(instruction),
        cpu.execute_load(instruction).memory.gpu.cycles == cpu.memory.gpu.cycles,
{
    let regs = cpu.registers;
    let hl = regs.spec_get16(Register16::HL);
    match instruction {
        Instruction::LdHlR(r) => lemma_store_cycles(cpu, hl, regs.spec_get(r)),
        Instruction::LdHlD8 => lemma_store_cycles(cpu.skip(1), hl, cpu.next_byte()),
        Instruction::LdR16A(r) => lemma_store_cycles(cpu, regs.spec_get16(r), regs.a),
        Instruction::Lda16A => lemma_store_cycles(cpu.skip(2), cpu.next_word(), regs.a),
        Instruction::LddHlA | Instruction::LdiHlA => lemma_store_cycles(cpu, hl, regs.a),
        Instruction::LdWriteIoC => lemma_store_cycles(cpu, io_address(regs.c), regs.a),
        Instruction::LdWriteIoN => lemma_store_cycles(cpu.skip(1), io_address(cpu.next_byte()), regs.a),
        _ => {},
    }
}

/// What a form that changes the program counter adds to the cycle counter.
proof fn lemma_jump_cycles(cpu: CpuView, instruction: Instruction)
    requires
        cpu.cycles <= CYCLE_LIMIT,
        instruction.is_jump(),
    ensures
        cpu.execute_jump(instruction).cycles == cpu.cycles + cpu.adjustment(instruction),
        cpu.execute_jump(instruction).memory.gpu.cycles == cpu.memory.gpu.cycles,
{
}

/// A step of the processor leaves the clock of the pixel unit alone.
pub proof fn lemma_step_keeps_clock(cpu: CpuView)
    requires
        cpu.can_step(),
    ensures
        cpu.step().memory.gpu.cycles == cpu.memory.gpu.cycles,
{
    lemma_execute_cycles(cpu.skip(cpu.opcode_length()), cpu.decoded().0);
}

/// A step takes at least 4 cycles: the base cycles of the instruction and
/// what its execution adds, or 4 while the processor is halted.
pub proof fn lemma_step_cycles(cpu: CpuView)
    requires
        cpu.can_step(),
    ensures
        cpu.step().cycles >= cpu.cycles + 4,
        cpu.halted ==> cpu.step().cycles == cpu.cycles + HALT_CYCLES,
        !cpu.halted ==> cpu.step().cycles == cpu.cycles + cpu.decoded().1 + cpu.skip(
            cpu.opcode_length(),
        ).adjustment(cpu.decoded().0),
        cpu.step().cycles <= cpu.cycles + 24 + DMA_LENGTH,
{
    lemma_execute_cycles(cpu.skip(cpu.opcode_length()), cpu.decoded().0);
    lemma_base_cycles(cpu.next_byte());
    lemma_base_cycles(cpu.memory.load(cpu.pc.wrapping_add(1)));
}

/// After a form that combines the accumulator with an operand, the
/// accumulator holds the result of the operation and every flag reads as
/// the operation leaves it. N reads set exactly after the three forms that
/// subtract.
pub proof fn lemma_alu_flags(cpu: CpuView, instruction: Instruction, flag: Flag)
    requires
        instruction.is_alu(),
    ensures
        ({
            let result = CpuView::alu_result(
                instruction,
                cpu.registers.a,
                cpu.storage_value(CpuView::alu_operand(instruction)),
                cpu.registers.spec_has_flag(Flag::C),
            );
            let after = cpu.execute_alu(instruction).registers;
            &&& after.a == result.0
            &&& result.1.of(flag) is Some
            &&& after.spec_has_flag(flag) == result.1.of(flag)->0
            &&& after.spec_has_flag(Flag::N) == (instruction is Cp || instruction is Sbc || instruction is Sub)
        }),
{
    let storage = CpuView::alu_operand(instruction);
    let result = CpuView::alu_result(
        instruction,
        cpu.registers.a,
        cpu.storage_value(storage),
        cpu.registers.spec_has_flag(Flag::C),
    );
    let written = Registers { a: result.0, ..cpu.registers };
    lemma_update_flags(written, result.1, flag);
    lemma_update_flags(written, result.1, Flag::N);
}

/// After a form that changes an operand in place, or the bit test, every
/// flag that the operation writes reads as written: Z tells a zero result,
/// N reads set after a decrement alone, and the carry is left alone by
/// increment, decrement and bit test.
pub proof fn lemma_unary_flags(cpu: CpuView, instruction: Instruction, flag: Flag)
    requires
        instruction.is_unary(),
    ensures
        ({
            let result = CpuView::unary_result(
                instruction,
                cpu.storage_value(CpuView::unary_operand(instruction)),
                cpu.registers.spec_has_flag(Flag::C),
            );
            let after = cpu.execute_unary(instruction).registers;
            &&& result.1.of(flag) is Some ==> after.spec_has_flag(flag) == result.1.of(flag)->0
            &&& result.1.n is Some ==> after.spec_has_flag(Flag::N) == (instruction is Dec)
            &&& (instruction is Inc || instruction is Dec || instruction is Bit) ==> result.1.c is None
        }),
{
    let storage = CpuView::unary_operand(instruction);
    let result = CpuView::unary_result(
        instruction,
        cpu.storage_value(storage),
        cpu.registers.spec_has_flag(Flag::C),
    );
    let loaded = cpu.storage_loaded(storage);
    let stored = if instruction is Bit {
        loaded
    } else {
        loaded.storage_stored(storage, result.0)
    };
    lemma_update_flags(stored.registers, result.1, flag);
    lemma_update_flags(stored.registers, result.1, Flag::N);
}

/// After a form that works on the accumulator alone, every
/// flag that the operation writes reads as written and every other flag as
/// before.
pub proof fn lemma_accumulator_flags(cpu: CpuView, instruction: Instruction, flag: Flag)
    requires
        instruction.is_accumulator(),
    ensures
        ({
            let result = cpu.accumulator_result(instruction);
            let after = cpu.execute_accumulator(instruction).registers;
            &&& after.a == result.0
            &&& after.spec_has_flag(flag) == (match result.1.of(flag) {
                Some(cond) => cond,
                None => cpu.registers.spec_has_flag(flag),
            })
        }),
{
    let result = cpu.accumulator_result(instruction);
    lemma_update_flags(Registers { a: result.0, ..cpu.registers }, result.1, flag);
}

/// A value that was pushed is on top of the stack, and dropping it brings
/// the stack pointer back, wherever the two bytes below the stack pointer
/// lie in memory that stores.
pub proof fn lemma_push_pop(cpu: CpuView, value: u16)
    requires
        cpu.wf(),
        cpu.registers.sp.wrapping_sub(2) < 0xFFFF,
        cpu.memory.is_storage(cpu.registers.sp.wrapping_sub(2)),
        cpu.memory.is_storage((cpu.registers.sp.wrapping_sub(2) + 1) as u16),
    ensures
        cpu.pushable(),
        cpu.push16(value).memory.readable16(cpu.push16(value).registers.sp),
        cpu.push16(value).top() == value,
        cpu.push16(value).dropped().registers.sp == cpu.registers.sp,
{
    lemma_store16_load16(cpu.memory, cpu.registers.sp.wrapping_sub(2), value);
}

/// A register pair that is pushed and popped again holds what it held, but
/// for the low nibble of `AF`, and the stack pointer is back where it was.
pub proof fn lemma_push_pop_pair(cpu: CpuView, pushed: Register16, popped: Register16)
    requires
        cpu.wf(),
        popped != Register16::SP,
        cpu.registers.sp.wrapping_sub(2) < 0xFFFF,
        cpu.memory.is_storage(cpu.registers.sp.wrapping_sub(2)),
        cpu.memory.is_storage((cpu.registers.sp.wrapping_sub(2) + 1) as u16),
    ensures
        ({
            let after = cpu.execute_wide(Instruction::Push16(pushed)).execute_wide(Instruction::Pop16(popped));
            &&& after.registers.spec_get16(popped) == cpu.registers.spec_get16(pushed) & popped.mask()
            &&& after.registers.sp == cpu.registers.sp
        }),
{
    let value = cpu.registers.spec_get16(pushed);
    lemma_push_pop(cpu, value);
    let pushed_state = cpu.push16(value);
    lemma_set16_get16(pushed_state.registers, popped, value);
}

} // verus!
