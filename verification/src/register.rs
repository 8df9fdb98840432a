//! The processor's register file: eight byte registers, the stack pointer and
//! the four flag bits that live in the high nibble of `F`.

use vstd::prelude::*;

verus! {

pub const ZERO_FLAG: u8 = 0x80;

pub const NEGATIVE_FLAG: u8 = 0x40;

pub const HALF_CARRY_FLAG: u8 = 0x20;

pub const CARRY_FLAG: u8 = 0x10;

#[derive(Clone, Copy, Debug, PartialEq, Eq, Structural)]
pub enum Flag {
    /// Zero
    Z,
    /// Negative (the last operation was a subtraction)
    N,
    /// Half-carry (carry out of the low nibble)
    H,
    /// Carry
    C,
}

#[derive(Clone, Copy, Debug, PartialEq, Eq, Structural)]
pub enum Register8 {
    A,
    B,
    C,
    D,
    E,
    F,
    H,
    L,
}

#[derive(Clone, Copy, Debug, PartialEq, Eq, Structural)]
pub enum Register16 {
    AF,
    BC,
    DE,
    HL,
    SP,
}

#[derive(Clone, Copy, Debug, PartialEq, Eq, Structural)]
pub struct Registers {
    pub a: u8,
    pub b: u8,
    pub c: u8,
    pub d: u8,
    pub e: u8,
    pub f: u8,
    pub h: u8,
    pub l: u8,
    pub sp: u16,
}

/// What an instruction does to the four flags: `Some` writes a flag, `None`
/// leaves it as it is.
#[derive(Clone, Copy, Debug, PartialEq, Eq, Structural)]
pub struct FlagUpdate {
    pub z: Option<bool>,
    pub n: Option<bool>,
    pub h: Option<bool>,
    pub c: Option<bool>,
}

impl FlagUpdate {
    /// All four flags written.
    pub open spec fn spec_all(z: bool, n: bool, h: bool, c: bool) -> FlagUpdate {
        FlagUpdate { z: Some(z), n: Some(n), h: Some(h), c: Some(c) }
    }

    pub fn all(z: bool, n: bool, h: bool, c: bool) -> (update: FlagUpdate)
        ensures
            update == Self::spec_all(z, n, h, c),
    {
        FlagUpdate { z: Some(z), n: Some(n), h: Some(h), c: Some(c) }
    }

    /// What the update asks of one flag.
    pub open spec fn of(self, flag: Flag) -> Option<bool> {
        match flag {
            Flag::Z => self.z,
            Flag::N => self.n,
            Flag::H => self.h,
            Flag::C => self.c,
        }
    }
}

impl Flag {
    /// The bit of `F` that holds this flag.
    pub open spec fn mask(self) -> u8 {
        match self {
            Flag::Z => ZERO_FLAG,
            Flag::N => NEGATIVE_FLAG,
            Flag::H => HALF_CARRY_FLAG,
            Flag::C => CARRY_FLAG,
        }
    }
}

impl Register16 {
    /// The bits of a 16-bit write that the pair keeps: all of them, except
    /// that `AF` drops the low nibble.
    pub open spec fn mask(self) -> u16 {
        match self {
            Register16::AF => 0xFFF0,
            _ => 0xFFFF,
        }
    }
}

/// The 16-bit value whose high byte is `hi` and whose low byte is `lo`.
pub open spec fn pair(hi: u8, lo: u8) -> u16 {
    (hi as int * 256 + lo as int) as u16
}

/// The high byte of a 16-bit value.
pub open spec fn high_byte(value: u16) -> u8 {
    (value as int / 256) as u8
}

/// The low byte of a 16-bit value.
pub open spec fn low_byte(value: u16) -> u8 {
    (value as int % 256) as u8
}

/// Joins two bytes into a 16-bit value, high byte first.
pub fn join(hi: u8, lo: u8) -> (value: u16)
    ensures
        value == pair(hi, lo),
        high_byte(value) == hi,
        low_byte(value) == lo,
{
    let h: u16 = hi as u16;
    let l: u16 = lo as u16;
    assert((h << 8) | l == h * 256 + l) by (bit_vector)
        requires
            h < 256,
            l < 256,
    ;
    (h << 8) | l
}

/// Splits a 16-bit value into its high and low bytes.
pub fn split(value: u16) -> (bytes: (u8, u8))
    ensures
        bytes.0 == high_byte(value),
        bytes.1 == low_byte(value),
        pair(bytes.0, bytes.1) == value,
{
    assert(value >> 8 == value / 256 && value & 0xFF == value % 256) by (bit_vector);
    let hi: u8 = (value >> 8) as u8;
    let lo: u8 = (value & 0xFF) as u8;
    (hi, lo)
}

/// Setting or clearing one flag bit leaves the three others and the low
/// nibble as they were.
proof fn lemma_flag_bits(f: u8)
    by (bit_vector)
    ensures
        (f | 0x80) & 0x80 != 0,
        (f | 0x80) & 0x40 == f & 0x40,
        (f | 0x80) & 0x20 == f & 0x20,
        (f | 0x80) & 0x10 == f & 0x10,
        (f | 0x80) & 0x0F == f & 0x0F,
        (f | 0x40) & 0x40 != 0,
        (f | 0x40) & 0x80 == f & 0x80,
        (f | 0x40) & 0x20 == f & 0x20,
        (f | 0x40) & 0x10 == f & 0x10,
        (f | 0x40) & 0x0F == f & 0x0F,
        (f | 0x20) & 0x20 != 0,
        (f | 0x20) & 0x80 == f & 0x80,
        (f | 0x20) & 0x40 == f & 0x40,
        (f | 0x20) & 0x10 == f & 0x10,
        (f | 0x20) & 0x0F == f & 0x0F,
        (f | 0x10) & 0x10 != 0,
        (f | 0x10) & 0x80 == f & 0x80,
        (f | 0x10) & 0x40 == f & 0x40,
        (f | 0x10) & 0x20 == f & 0x20,
        (f | 0x10) & 0x0F == f & 0x0F,
        (f & !0x80u8) & 0x80 == 0,
        (f & !0x80u8) & 0x40 == f & 0x40,
        (f & !0x80u8) & 0x20 == f & 0x20,
        (f & !0x80u8) & 0x10 == f & 0x10,
        (f & !0x80u8) & 0x0F == f & 0x0F,
        (f & !0x40u8) & 0x40 == 0,
        (f & !0x40u8) & 0x80 == f & 0x80,
        (f & !0x40u8) & 0x20 == f & 0x20,
        (f & !0x40u8) & 0x10 == f & 0x10,
        (f & !0x40u8) & 0x0F == f & 0x0F,
        (f & !0x20u8) & 0x20 == 0,
        (f & !0x20u8) & 0x80 == f & 0x80,
        (f & !0x20u8) & 0x40 == f & 0x40,
        (f & !0x20u8) & 0x10 == f & 0x10,
        (f & !0x20u8) & 0x0F == f & 0x0F,
        (f & !0x10u8) & 0x10 == 0,
        (f & !0x10u8) & 0x80 == f & 0x80,
        (f & !0x10u8) & 0x40 == f & 0x40,
        (f & !0x10u8) & 0x20 == f & 0x20,
        (f & !0x10u8) & 0x0F == f & 0x0F,
{
}

proof fn lemma_flag_mask(v: u8)
    by (bit_vector)
    ensures
        (v & 0xF0) & 0x0F == 0,
        v & 0x0F == 0 ==> v & 0xF0 == v,
        (v & 0xF0) & 0xF0 == v & 0xF0,
{
}

proof fn lemma_pair_mask(hi: u8, lo: u8, value: u16)
    by (bit_vector)
    requires
        hi == value / 256,
        lo == value % 256,
    ensures
        (hi as u16) * 256 + ((lo & 0xF0) as u16) == value & 0xFFF0,
        value & 0xFFFF == value,
{
}

impl Registers {
    /// The low nibble of `F` is always zero.
    pub open spec fn wf(self) -> bool {
        self.f & 0x0F == 0
    }

    /// The register values at reset.
    pub open spec fn initial() -> Registers {
        Registers { a: 0x01, b: 0x00, c: 0x13, d: 0x00, e: 0xD8, f: 0xB0, h: 0x01, l: 0x4D, sp: 0xFFFE }
    }

    pub fn new() -> (regs: Self)
        ensures
            regs == Self::initial(),
            regs.wf(),
    {
        assert(0xB0u8 & 0x0F == 0) by (bit_vector);
        Self { a: 1, b: 0, c: 0x13, d: 0, e: 0xD8, f: 0xB0, h: 1, l: 0x4D, sp: 0xFFFE }
    }

    pub open spec fn spec_get(self, register: Register8) -> u8 {
        match register {
            Register8::A => self.a,
            Register8::B => self.b,
            Register8::C => self.c,
            Register8::D => self.d,
            Register8::E => self.e,
            Register8::F => self.f,
            Register8::H => self.h,
            Register8::L => self.l,
        }
    }

    pub fn get(&self, register: Register8) -> (value: u8)
        ensures
            value == self.spec_get(register),
    {
        match register {
            Register8::A => self.a,
            Register8::B => self.b,
            Register8::C => self.c,
            Register8::D => self.d,
            Register8::E => self.e,
            Register8::F => self.f,
            Register8::H => self.h,
            Register8::L => self.l,
        }
    }

    /// The register file after a write of `value` to `register`. A write to
    /// `F` keeps the high nibble only.
    pub open spec fn spec_set(self, register: Register8, value: u8) -> Registers {
        match register {
            Register8::A => Registers { a: value, ..self },
            Register8::B => Registers { b: value, ..self },
            Register8::C => Registers { c: value, ..self },
            Register8::D => Registers { d: value, ..self },
            Register8::E => Registers { e: value, ..self },
            Register8::F => Registers { f: value & 0xF0, ..self },
            Register8::H => Registers { h: value, ..self },
            Register8::L => Registers { l: value, ..self },
        }
    }

    pub fn set(&mut self, register: Register8, value: u8)
        ensures
            *final(self) == old(self).spec_set(register, value),
            old(self).wf() ==> final(self).wf(),
    {
        proof {
            lemma_flag_mask(value);
        }
        match register {
            Register8::A => self.a = value,
            Register8::B => self.b = value,
            Register8::C => self.c = value,
            Register8::D => self.d = value,
            Register8::E => self.e = value,
            Register8::F => self.f = value & 0xF0,
            Register8::H => self.h = value,
            Register8::L => self.l = value,
        }
    }

    /// The value of a register pair, high register first. `AF` shows `F`
    /// without its low nibble.
    pub open spec fn spec_get16(self, register: Register16) -> u16 {
        match register {
            Register16::AF => pair(self.a, self.f & 0xF0),
            Register16::BC => pair(self.b, self.c),
            Register16::DE => pair(self.d, self.e),
            Register16::HL => pair(self.h, self.l),
            Register16::SP => self.sp,
        }
    }

    pub fn get16(&self, register: Register16) -> (value: u16)
        ensures
            value == self.spec_get16(register),
    {
        match register {
            Register16::AF => join(self.a, self.f & 0xF0),
            Register16::BC => join(self.b, self.c),
            Register16::DE => join(self.d, self.e),
            Register16::HL => join(self.h, self.l),
            Register16::SP => self.sp,
        }
    }

    /// The register file after a 16-bit write: the high byte goes to the
    /// first register of the pair, the low byte to the second.
    pub open spec fn spec_set16(self, register: Register16, value: u16) -> Registers {
        match register {
            Register16::AF => Registers { a: high_byte(value), f: low_byte(value) & 0xF0, ..self },
            Register16::BC => Registers { b: high_byte(value), c: low_byte(value), ..self },
            Register16::DE => Registers { d: high_byte(value), e: low_byte(value), ..self },
            Register16::HL => Registers { h: high_byte(value), l: low_byte(value), ..self },
            Register16::SP => Registers { sp: value, ..self },
        }
    }

    pub fn set16(&mut self, register: Register16, value: u16)
        ensures
            *final(self) == old(self).spec_set16(register, value),
            old(self).wf() ==> final(self).wf(),
            final(self).spec_get16(register) == value & register.mask(),
            register != Register16::AF ==> final(self).spec_get16(register) == value,
    {
        let (hi, lo) = split(value);
        proof {
            lemma_flag_mask(lo);
            lemma_pair_mask(hi, lo, value);
        }
        match register {
            Register16::AF => {
                self.a = hi;
                self.f = lo & 0xF0;
            },
            Register16::BC => {
                self.b = hi;
                self.c = lo;
            },
            Register16::DE => {
                self.d = hi;
                self.e = lo;
            },
            Register16::HL => {
                self.h = hi;
                self.l = lo;
            },
            Register16::SP => self.sp = value,
        }
    }

    pub open spec fn spec_has_flag(self, flag: Flag) -> bool {
        self.f & flag.mask() != 0
    }

    pub fn has_flag(&self, flag: Flag) -> (set: bool)
        ensures
            set == self.spec_has_flag(flag),
    {
        match flag {
            Flag::Z => self.f & ZERO_FLAG != 0,
            Flag::N => self.f & NEGATIVE_FLAG != 0,
            Flag::H => self.f & HALF_CARRY_FLAG != 0,
            Flag::C => self.f & CARRY_FLAG != 0,
        }
    }

    /// The register file after `flag` is set (`cond`) or cleared.
    pub open spec fn spec_flag(self, flag: Flag, cond: bool) -> Registers {
        Registers { f: if cond { self.f | flag.mask() } else { self.f & !flag.mask() }, ..self }
    }

    pub fn flag(&mut self, flag: Flag, cond: bool)
        ensures
            *final(self) == old(self).spec_flag(flag, cond),
            old(self).wf() ==> final(self).wf(),
    {
        if cond {
            self.set_flag(flag);
        } else {
            self.unset_flag(flag);
        }
    }

    /// The register file after an instruction's flag update.
    pub open spec fn spec_update_flags(self, update: FlagUpdate) -> Registers {
        let z = match update.z {
            Some(cond) => self.spec_flag(Flag::Z, cond),
            None => self,
        };
        let n = match update.n {
            Some(cond) => z.spec_flag(Flag::N, cond),
            None => z,
        };
        let h = match update.h {
            Some(cond) => n.spec_flag(Flag::H, cond),
            None => n,
        };
        match update.c {
            Some(cond) => h.spec_flag(Flag::C, cond),
            None => h,
        }
    }

    pub fn update_flags(&mut self, update: FlagUpdate)
        ensures
            *final(self) == old(self).spec_update_flags(update),
            old(self).wf() ==> final(self).wf(),
    {
        if let Some(cond) = update.z {
            self.flag(Flag::Z, cond);
        }
        if let Some(cond) = update.n {
            self.flag(Flag::N, cond);
        }
        if let Some(cond) = update.h {
            self.flag(Flag::H, cond);
        }
        if let Some(cond) = update.c {
            self.flag(Flag::C, cond);
        }
    }

    pub fn set_flag(&mut self, flag: Flag)
        ensures
            *final(self) == old(self).spec_flag(flag, true),
            old(self).wf() ==> final(self).wf(),
    {
        proof {
            lemma_flag_bits(self.f);
        }
        match flag {
            Flag::Z => self.f = self.f | ZERO_FLAG,
            Flag::N => self.f = self.f | NEGATIVE_FLAG,
            Flag::H => self.f = self.f | HALF_CARRY_FLAG,
            Flag::C => self.f = self.f | CARRY_FLAG,
        }
    }

    pub fn unset_flag(&mut self, flag: Flag)
        ensures
            *final(self) == old(self).spec_flag(flag, false),
            old(self).wf() ==> final(self).wf(),
    {
        proof {
            lemma_flag_bits(self.f);
        }
        match flag {
            Flag::Z => self.f = self.f & !ZERO_FLAG,
            Flag::N => self.f = self.f & !NEGATIVE_FLAG,
            Flag::H => self.f = self.f & !HALF_CARRY_FLAG,
            Flag::C => self.f = self.f & !CARRY_FLAG,
        }
    }
}

/// A 16-bit write to a register pair reads back as the written value, less
/// the low nibble in the case of `AF`.
pub proof fn lemma_set16_get16(regs: Registers, register: Register16, value: u16)
    ensures
        regs.spec_set16(register, value).spec_get16(register) == value & register.mask(),
        register != Register16::AF ==> regs.spec_set16(register, value).spec_get16(register) == value,
{
    let hi = high_byte(value);
    let lo = low_byte(value);
    lemma_flag_mask(lo);
    lemma_pair_mask(hi, lo, value);
}

/// A flag reads as it was last written, and writing one flag changes no
/// other flag, no other register and not the low nibble of `F`.
pub proof fn lemma_flag_write(regs: Registers, flag: Flag, cond: bool, other: Flag)
    ensures
        regs.spec_flag(flag, cond).spec_has_flag(other) == (if other == flag {
            cond
        } else {
            regs.spec_has_flag(other)
        }),
        regs.wf() ==> regs.spec_flag(flag, cond).wf(),
        forall|r: Register8| r != Register8::F ==> regs.spec_flag(flag, cond).spec_get(r) == regs.spec_get(r),
        regs.spec_flag(flag, cond).sp == regs.sp,
{
    lemma_flag_bits(regs.f);
}

/// After an instruction's flag update every flag that the update writes
/// reads as written, every other flag reads as before, and nothing else of
/// the register file has changed.
pub proof fn lemma_update_flags(regs: Registers, update: FlagUpdate, flag: Flag)
    ensures
        regs.spec_update_flags(update).spec_has_flag(flag) == (match update.of(flag) {
            Some(cond) => cond,
            None => regs.spec_has_flag(flag),
        }),
        regs.wf() ==> regs.spec_update_flags(update).wf(),
        forall|r: Register8|
            r != Register8::F ==> regs.spec_update_flags(update).spec_get(r) == regs.spec_get(r),
        regs.spec_update_flags(update).sp == regs.sp,
{
    let z = match update.z {
        Some(cond) => regs.spec_flag(Flag::Z, cond),
        None => regs,
    };
    let n = match update.n {
        Some(cond) => z.spec_flag(Flag::N, cond),
        None => z,
    };
    let h = match update.h {
        Some(cond) => n.spec_flag(Flag::H, cond),
        None => n,
    };
    lemma_flag_bits(regs.f);
    lemma_flag_bits(z.f);
    lemma_flag_bits(n.f);
    lemma_flag_bits(h.f);
}

} // verus!
