//! Trace output: one line of text for the state of the processor before an
//! instruction.

use vstd::prelude::*;
use vstd::string::StringExecFns;
use crate::console::Console;
use crate::cpu::Cpu;
use crate::cpu::CpuView;
use crate::opcodes::cb_opcode_entry;
use crate::opcodes::opcode_entry;
use crate::opcodes::PREFIX;
use crate::register::high_byte;
use crate::register::low_byte;
use crate::register::split;
use crate::register::Flag;
use crate::register::Register16;
use crate::register::Registers;

verus! {

/// The hexadecimal digit, in upper case, of a number below 16.
pub open spec fn spec_hex_digit(n: int) -> Seq<char> {
    if n == 0 {
        "0"@
    } else if n == 1 {
        "1"@
    } else if n == 2 {
        "2"@
    } else if n == 3 {
        "3"@
    } else if n == 4 {
        "4"@
    } else if n == 5 {
        "5"@
    } else if n == 6 {
        "6"@
    } else if n == 7 {
        "7"@
    } else if n == 8 {
        "8"@
    } else if n == 9 {
        "9"@
    } else if n == 10 {
        "A"@
    } else if n == 11 {
        "B"@
    } else if n == 12 {
        "C"@
    } else if n == 13 {
        "D"@
    } else if n == 14 {
        "E"@
    } else {
        "F"@
    }
}

pub fn hex_digit(n: u8) -> (text: &'static str)
    requires
        n < 16,
    ensures
        text@ == spec_hex_digit(n as int),
{
    if n == 0 {
        "0"
    } else if n == 1 {
        "1"
    } else if n == 2 {
        "2"
    } else if n == 3 {
        "3"
    } else if n == 4 {
        "4"
    } else if n == 5 {
        "5"
    } else if n == 6 {
        "6"
    } else if n == 7 {
        "7"
    } else if n == 8 {
        "8"
    } else if n == 9 {
        "9"
    } else if n == 10 {
        "A"
    } else if n == 11 {
        "B"
    } else if n == 12 {
        "C"
    } else if n == 13 {
        "D"
    } else if n == 14 {
        "E"
    } else {
        "F"
    }
}

/// A byte as two hexadecimal digits.
pub open spec fn spec_hex2(value: u8) -> Seq<char> {
    spec_hex_digit(value as int / 16) + spec_hex_digit(value as int % 16)
}

/// A 16-bit value as four hexadecimal digits.
pub open spec fn spec_hex4(value: u16) -> Seq<char> {
    spec_hex2(high_byte(value)) + spec_hex2(low_byte(value))
}

/// Appends a byte as two hexadecimal digits.
pub fn push_hex2(line: &mut String, value: u8)
    ensures
        final(line)@ == old(line)@ + spec_hex2(value),
{
    line.append(hex_digit(value / 16));
    line.append(hex_digit(value % 16));
    assert(line@ =~= old(line)@ + spec_hex2(value));
}

/// Appends a 16-bit value as four hexadecimal digits.
pub fn push_hex4(line: &mut String, value: u16)
    ensures
        final(line)@ == old(line)@ + spec_hex4(value),
{
    let (hi, lo) = split(value);
    push_hex2(line, hi);
    push_hex2(line, lo);
    assert(line@ =~= old(line)@ + spec_hex4(value));
}

/// The letter of a flag that is set, a dash for one that is clear.
pub open spec fn spec_flag_text(registers: Registers, flag: Flag) -> Seq<char> {
    if !registers.spec_has_flag(flag) {
        "-"@
    } else {
        match flag {
            Flag::C => "C"@,
            Flag::H => "H"@,
            Flag::N => "N"@,
            Flag::Z => "Z"@,
        }
    }
}

pub fn flag_text(registers: &Registers, flag: Flag) -> (text: &'static str)
    ensures
        text@ == spec_flag_text(*registers, flag),
{
    if !registers.has_flag(flag) {
        "-"
    } else {
        match flag {
            Flag::C => "C",
            Flag::H => "H",
            Flag::N => "N",
            Flag::Z => "Z",
        }
    }
}

/// The registers as text: the four pairs and the stack pointer in
/// hexadecimal, the flags in the order C, H, N, Z between brackets, and the
/// program counter.
pub open spec fn registers_text(registers: Registers, pc: u16) -> Seq<char> {
    "AF:"@ + spec_hex4(registers.spec_get16(Register16::AF)) + " BC:"@ + spec_hex4(
        registers.spec_get16(Register16::BC),
    ) + " DE:"@ + spec_hex4(registers.spec_get16(Register16::DE)) + " HL:"@ + spec_hex4(
        registers.spec_get16(Register16::HL),
    ) + " SP:"@ + spec_hex4(registers.spec_get16(Register16::SP)) + " ["@ + spec_flag_text(
        registers,
        Flag::C,
    ) + spec_flag_text(registers, Flag::H) + spec_flag_text(registers, Flag::N) + spec_flag_text(
        registers,
        Flag::Z,
    ) + "] "@ + spec_hex4(pc)
}

/// The trace line of an instruction: the registers, the three bytes at the
/// program counter, and the mnemonic.
pub open spec fn trace_line(cpu: CpuView, mnemonic: Seq<char>) -> Seq<char> {
    registers_text(cpu.registers, cpu.pc) + ": "@ + spec_hex2(cpu.memory.load(cpu.pc)) + " "@ + spec_hex2(
        cpu.memory.load(cpu.pc.wrapping_add(1)),
    ) + " "@ + spec_hex2(cpu.memory.load(cpu.pc.wrapping_add(2))) + "  "@ + mnemonic
}

/// Whether the three bytes at the program counter can be read.
pub open spec fn traceable(cpu: CpuView) -> bool {
    &&& cpu.memory.readable(cpu.pc)
    &&& cpu.memory.readable(cpu.pc.wrapping_add(1))
    &&& cpu.memory.readable(cpu.pc.wrapping_add(2))
}

/// The mnemonic of the instruction at the program counter.
pub open spec fn mnemonic(cpu: CpuView) -> &'static str {
    if cpu.next_byte() == PREFIX {
        cb_opcode_entry(cpu.memory.load(cpu.pc.wrapping_add(1))).2
    } else {
        opcode_entry(cpu.next_byte()).2
    }
}

/// Formats the registers and the program counter.
pub fn format_registers(registers: &Registers, pc: u16) -> (text: String)
    ensures
        text@ == registers_text(*registers, pc),
{
    let mut line = String::from_str("AF:");
    push_hex4(&mut line, registers.get16(Register16::AF));
    line.append(" BC:");
    push_hex4(&mut line, registers.get16(Register16::BC));
    line.append(" DE:");
    push_hex4(&mut line, registers.get16(Register16::DE));
    line.append(" HL:");
    push_hex4(&mut line, registers.get16(Register16::HL));
    line.append(" SP:");
    push_hex4(&mut line, registers.get16(Register16::SP));
    line.append(" [");
    line.append(flag_text(registers, Flag::C));
    line.append(flag_text(registers, Flag::H));
    line.append(flag_text(registers, Flag::N));
    line.append(flag_text(registers, Flag::Z));
    line.append("] ");
    push_hex4(&mut line, pc);
    line
}

impl Cpu {
    /// Tells whether the three bytes at the program counter can be read.
    pub fn can_trace(&self) -> (ok: bool)
        requires
            self@.wf(),
        ensures
            ok == traceable(self@),
    {
        self.memory.can_load(self.pc) && self.memory.can_load(self.pc.wrapping_add(1)) && self.memory.can_load(
            self.pc.wrapping_add(2),
        )
    }

    /// Formats the state of the processor before the instruction at the
    /// program counter, whose mnemonic is `instruction`.
    pub fn trace(&self, instruction: &str) -> (line: String)
        requires
            self@.wf(),
            traceable(self@),
        ensures
            line@ == trace_line(self@, instruction@),
    {
        let mut line = format_registers(&self.registers, self.pc);
        line.append(": ");
        push_hex2(&mut line, self.load(self.pc));
        line.append(" ");
        push_hex2(&mut line, self.load(self.pc.wrapping_add(1)));
        line.append(" ");
        push_hex2(&mut line, self.load(self.pc.wrapping_add(2)));
        line.append("  ");
        line.append(instruction);
        line
    }
}

impl Cpu {
    /// The mnemonic of the instruction at the program counter.
    pub fn mnemonic(&self) -> (text: &'static str)
        requires
            self@.wf(),
            self@.memory.readable(self.pc),
            self@.next_byte() == PREFIX ==> self@.memory.readable(self.pc.wrapping_add(1)),
        ensures
            text == mnemonic(self@),
    {
        let byte = self.load_byte();
        if byte == PREFIX {
            Self::decode_cb(self.load(self.pc.wrapping_add(1))).2
        } else {
            Self::decode(byte).2
        }
    }

    /// The trace line of the instruction that the next step executes, if it
    /// executes one and the three bytes at the program counter can be read.
    pub fn trace_next(&self) -> (line: Option<String>)
        requires
            self@.wf(),
        ensures
            line is Some <==> !self.halted && traceable(self@),
            line is Some ==> line->0@ == trace_line(self@, mnemonic(self@)@),
    {
        if self.halted || !self.can_trace() {
            None
        } else {
            Some(self.trace(self.mnemonic()))
        }
    }
}

impl Console {
    /// The registers and the program counter as text.
    pub fn regs(&self) -> (text: String)
        ensures
            text@ == registers_text(self@.registers, self@.pc),
    {
        format_registers(&self.cpu.registers, self.cpu.pc)
    }
}

} // verus!
