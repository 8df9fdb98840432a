//! Cartridges: a ROM image behind one of three bank controllers, which
//! map guest addresses in the two cartridge windows (0x0000-0x7FFF and
//! 0xA000-0xBFFF) to bytes of the image or of the cartridge's RAM.

use vstd::prelude::*;
use vstd::arithmetic::power2::pow2;
use vstd::arithmetic::power2::lemma_pow2_strictly_increases;
use vstd::arithmetic::power2::lemma2_to64;
use vstd::bits::lemma_u64_shl_is_mul;

verus! {

#[derive(Clone, Copy, Debug, PartialEq, Eq, Structural)]
pub enum CartridgeType {
    RomOnly,
    MBC1,
    MBC3,
}

/// What a bank controller holds, whatever its kind: the image, the RAM, the
/// two bank registers and the banking mode (used by `MBC1` alone).
pub struct CartridgeView {
    pub kind: CartridgeType,
    pub rom: Seq<u8>,
    pub ram: Seq<u8>,
    pub rom_bank: int,
    pub ram_bank: int,
    pub ram_mode: bool,
}

/// The bank register after a write of `value` to its low five bits: 0 is
/// taken as 1, the two high bits stay.
pub open spec fn with_low_bits(rom_bank: int, value: u8) -> int {
    (rom_bank / 32) * 32 + (if value % 32 == 0 { 1 } else { value as int % 32 })
}

/// The bank register after a write of `value` to its two high bits.
pub open spec fn with_high_bits(rom_bank: int, value: u8) -> int {
    (value as int % 4) * 32 + rom_bank % 32
}

impl CartridgeView {
    /// The upper window never shows bank 0, the bank registers stay in
    /// range, and a controller with RAM has all four banks of it.
    pub open spec fn wf(self) -> bool {
        match self.kind {
            CartridgeType::RomOnly => self.rom_bank == 1 && self.ram_bank == 0,
            CartridgeType::MBC1 => {
                &&& 0 < self.rom_bank < 0x80
                &&& self.rom_bank % 32 != 0
                &&& 0 <= self.ram_bank < 4
            },
            CartridgeType::MBC3 => {
                &&& 0 < self.rom_bank < 0x80
                &&& 0 <= self.ram_bank < 4
                &&& self.ram.len() == 0x8000
            },
        }
    }

    /// Where in the image a read of the ROM windows lands: the lower window
    /// shows bank 0, the upper one the selected bank.
    pub open spec fn rom_index(self, address: u16) -> int {
        if address < 0x4000 {
            address as int
        } else {
            self.rom_bank * 0x4000 + (address - 0x4000)
        }
    }

    /// Where in the cartridge's RAM an access to the RAM window lands.
    pub open spec fn ram_index(self, address: u16) -> int {
        self.ram_bank * 0x2000 + (address - 0xA000)
    }

    /// Whether the controller serves a read at `address`: a ROM address
    /// whose byte the image holds, or the RAM window of a controller that
    /// has one.
    pub open spec fn readable(self, address: u16) -> bool {
        if address < 0x8000 {
            self.rom_index(address) < self.rom.len()
        } else {
            0xA000 <= address && address < 0xC000 && self.kind != CartridgeType::RomOnly
        }
    }

    /// Whether the controller takes a write at `address`: any address of
    /// the ROM windows, and of the RAM window unless the cartridge has no
    /// controller.
    pub open spec fn writable(self, address: u16) -> bool {
        address < 0x8000 || (0xA000 <= address && address < 0xC000 && self.kind != CartridgeType::RomOnly)
    }

    /// The byte that a read at `address` returns.
    pub open spec fn load(self, address: u16) -> u8 {
        if address < 0x8000 {
            self.rom[self.rom_index(address)]
        } else if self.kind == CartridgeType::MBC3 {
            self.ram[self.ram_index(address)]
        } else {
            0
        }
    }

    /// The controller after a write of `value` at `address`.
    pub open spec fn store(self, address: u16, value: u8) -> CartridgeView {
        match self.kind {
            CartridgeType::RomOnly => self,
            CartridgeType::MBC1 => {
                if 0x2000 <= address < 0x4000 {
                    CartridgeView { rom_bank: with_low_bits(self.rom_bank, value), ..self }
                } else if 0x4000 <= address < 0x6000 {
                    if self.ram_mode {
                        CartridgeView { ram_bank: value as int % 4, ..self }
                    } else {
                        CartridgeView { rom_bank: with_high_bits(self.rom_bank, value), ..self }
                    }
                } else if 0x6000 <= address < 0x8000 {
                    CartridgeView { ram_mode: value % 2 == 1, ..self }
                } else {
                    self
                }
            },
            CartridgeType::MBC3 => {
                if 0x2000 <= address < 0x4000 {
                    CartridgeView { rom_bank: if value % 128 == 0 { 1 } else { value as int % 128 }, ..self }
                } else if 0x4000 <= address < 0x6000 {
                    CartridgeView { ram_bank: value as int % 4, ..self }
                } else if 0xA000 <= address < 0xC000 {
                    CartridgeView { ram: self.ram.update(self.ram_index(address), value), ..self }
                } else {
                    self
                }
            },
        }
    }

    /// A controller of the given kind as it is when the console starts.
    pub open spec fn initial(kind: CartridgeType, rom: Seq<u8>) -> CartridgeView {
        CartridgeView {
            kind,
            rom,
            ram: match kind {
                CartridgeType::RomOnly => Seq::empty(),
                CartridgeType::MBC1 => Seq::new(0x800, |i: int| 0u8),
                CartridgeType::MBC3 => Seq::new(0x8000, |i: int| 0u8),
            },
            rom_bank: 1,
            ram_bank: 0,
            ram_mode: false,
        }
    }
}

/// A memory-bank controller.
pub trait MBC {
    /// What the controller holds.
    spec fn state(&self) -> CartridgeView;

    /// Tells whether a read at `address` is served.
    fn can_load(&self, address: u16) -> (ok: bool)
        requires
            self.state().wf(),
        ensures
            ok == self.state().readable(address),
    ;

    fn load(&self, address: u16) -> (value: u8)
        requires
            self.state().wf(),
            self.state().readable(address),
        ensures
            value == self.state().load(address),
    ;

    /// Tells whether a write at `address` is taken.
    fn can_store(&self, address: u16) -> (ok: bool)
        ensures
            ok == self.state().writable(address),
    ;

    fn store(&mut self, address: u16, value: u8)
        requires
            old(self).state().wf(),
            old(self).state().writable(address),
        ensures
            final(self).state() == old(self).state().store(address, value),
            final(self).state().wf(),
    ;
}

pub struct RomOnly {
    pub rom: Vec<u8>,
}

impl RomOnly {
    pub fn new(rom: Vec<u8>) -> (mbc: Self)
        ensures
            mbc.state() == CartridgeView::initial(CartridgeType::RomOnly, rom@),
            mbc.state().wf(),
    {
        Self { rom }
    }
}

impl MBC for RomOnly {
    open spec fn state(&self) -> CartridgeView {
        CartridgeView {
            kind: CartridgeType::RomOnly,
            rom: self.rom@,
            ram: Seq::empty(),
            rom_bank: 1,
            ram_bank: 0,
            ram_mode: false,
        }
    }

    fn can_load(&self, address: u16) -> (ok: bool) {
        address < 0x8000 && (address as usize) < self.rom.len()
    }

    fn load(&self, address: u16) -> (value: u8) {
        self.rom[address as usize]
    }

    fn can_store(&self, address: u16) -> (ok: bool) {
        address < 0x8000
    }

    fn store(&mut self, address: u16, value: u8) {
    }
}

#[derive(Clone, Copy, Debug, PartialEq, Eq, Structural)]
pub enum MBC1Mode {
    RAM,
    ROM,
}

pub struct MBC1 {
    pub mode: MBC1Mode,
    pub rom_bank: u16,
    pub ram_bank: u16,
    pub rom: Vec<u8>,
    pub ram: Vec<u8>,
}

proof fn lemma_window_offset(address: u16)
    by (bit_vector)
    requires
        0x4000 <= address < 0x8000,
    ensures
        address & 0x3FFF == address - 0x4000,
{
}

proof fn lemma_mbc1_banks(rom_bank: u16, value: u8)
    requires
        rom_bank < 0x80,
    ensures
        value & 0x1F == value % 32,
        (rom_bank & 0x60) | ((value & 0x1F) as u16) == (rom_bank / 32) * 32 + value % 32,
        (rom_bank & 0x60) | 1 == (rom_bank / 32) * 32 + 1,
        (rom_bank & 0x1F) | (((value & 3) as u16) << 5) == (value % 4) * 32 + rom_bank % 32,
        value & 3 == value % 4,
        value & 1 == value % 2,
        value & 0x7F == value % 128,
{
    let low: u16 = (value & 0x1F) as u16;
    let high: u16 = (value & 3) as u16;
    assert(value & 0x1F == value % 32 && value & 3 == value % 4 && value & 1 == value % 2 && value & 0x7F
        == value % 128) by (bit_vector);
    assert((rom_bank & 0x60) | low == (rom_bank / 32) * 32 + low && (rom_bank & 0x60) | 1 == (rom_bank / 32)
        * 32 + 1 && (rom_bank & 0x1F) | (high << 5) == high * 32 + rom_bank % 32) by (bit_vector)
        requires
            rom_bank < 0x80,
            low < 32,
            high < 4,
    ;
}

impl MBC1 {
    pub fn new(rom: Vec<u8>) -> (mbc: Self)
        ensures
            mbc.state() == CartridgeView::initial(CartridgeType::MBC1, rom@),
            mbc.state().wf(),
    {
        let mbc = Self { mode: MBC1Mode::ROM, rom_bank: 1, ram_bank: 0, ram: vec![0u8; 0x800], rom };
        assert(mbc.ram@ =~= Seq::new(0x800, |i: int| 0u8));
        mbc
    }
}

impl MBC for MBC1 {
    open spec fn state(&self) -> CartridgeView {
        CartridgeView {
            kind: CartridgeType::MBC1,
            rom: self.rom@,
            ram: self.ram@,
            rom_bank: self.rom_bank as int,
            ram_bank: self.ram_bank as int,
            ram_mode: self.mode == MBC1Mode::RAM,
        }
    }

    fn can_load(&self, address: u16) -> (ok: bool) {
        if address < 0x4000 {
            (address as usize) < self.rom.len()
        } else if address < 0x8000 {
            proof {
                lemma_window_offset(address);
            }
            let offset: usize = self.rom_bank as usize * 0x4000;
            offset + ((address & 0x3FFF) as usize) < self.rom.len()
        } else {
            0xA000 <= address && address < 0xC000
        }
    }

    fn load(&self, address: u16) -> (value: u8) {
        if address < 0x4000 {
            self.rom[address as usize]
        } else if address < 0x8000 {
            proof {
                lemma_window_offset(address);
            }
            let offset: usize = self.rom_bank as usize * 0x4000;
            self.rom[offset + ((address & 0x3FFF) as usize)]
        } else {
            0
        }
    }

    fn can_store(&self, address: u16) -> (ok: bool) {
        address < 0x8000 || (0xA000 <= address && address < 0xC000)
    }

    fn store(&mut self, address: u16, value: u8) {
        proof {
            lemma_mbc1_banks(self.rom_bank, value);
        }
        if address < 0x2000 {
        } else if address < 0x4000 {
            let low: u8 = value & 0x1F;
            let low: u8 = if low == 0 { 1 } else { low };
            self.rom_bank = (self.rom_bank & 0x60) | (low as u16);
        } else if address < 0x6000 {
            match self.mode {
                MBC1Mode::ROM => {
                    self.rom_bank = (self.rom_bank & 0x1F) | (((value & 3) as u16) << 5);
                },
                MBC1Mode::RAM => {
                    self.ram_bank = (value & 3) as u16;
                },
            }
        } else if address < 0x8000 {
            self.mode = if value & 1 == 0 { MBC1Mode::ROM } else { MBC1Mode::RAM };
        } else {
        }
    }
}

pub struct MBC3 {
    pub rom_bank: usize,
    pub ram_bank: usize,
    pub rom: Vec<u8>,
    pub ram: Vec<u8>,
}

impl MBC3 {
    pub fn new(rom: Vec<u8>) -> (mbc: Self)
        ensures
            mbc.state() == CartridgeView::initial(CartridgeType::MBC3, rom@),
            mbc.state().wf(),
    {
        let mbc = Self { rom_bank: 1, ram_bank: 0, ram: vec![0u8; 0x8000], rom };
        assert(mbc.ram@ =~= Seq::new(0x8000, |i: int| 0u8));
        mbc
    }
}

impl MBC for MBC3 {
    open spec fn state(&self) -> CartridgeView {
        CartridgeView {
            kind: CartridgeType::MBC3,
            rom: self.rom@,
            ram: self.ram@,
            rom_bank: self.rom_bank as int,
            ram_bank: self.ram_bank as int,
            ram_mode: false,
        }
    }

    fn can_load(&self, address: u16) -> (ok: bool) {
        if address < 0x4000 {
            (address as usize) < self.rom.len()
        } else if address < 0x8000 {
            proof {
                lemma_window_offset(address);
            }
            let offset: usize = self.rom_bank * 0x4000;
            offset + ((address & 0x3FFF) as usize) < self.rom.len()
        } else {
            0xA000 <= address && address < 0xC000
        }
    }

    fn load(&self, address: u16) -> (value: u8) {
        if address < 0x4000 {
            self.rom[address as usize]
        } else if address < 0x8000 {
            proof {
                lemma_window_offset(address);
            }
            let offset: usize = self.rom_bank * 0x4000;
            self.rom[offset + ((address & 0x3FFF) as usize)]
        } else {
            self.ram[self.ram_bank * 0x2000 + (address as usize - 0xA000)]
        }
    }

    fn can_store(&self, address: u16) -> (ok: bool) {
        address < 0x8000 || (0xA000 <= address && address < 0xC000)
    }

    fn store(&mut self, address: u16, value: u8) {
        proof {
            lemma_mbc1_banks(0, value);
        }
        if address < 0x2000 {
        } else if address < 0x4000 {
            let bank: u8 = value & 0x7F;
            self.rom_bank = if bank == 0 { 1 } else { bank as usize };
        } else if address < 0x6000 {
            self.ram_bank = (value & 3) as usize;
        } else if address < 0x8000 {
        } else {
            let index: usize = self.ram_bank * 0x2000 + (address as usize - 0xA000);
            self.ram[index] = value;
        }
    }
}

/// The bank controller of a cartridge, one variant per kind.
pub enum Controller {
    RomOnly(RomOnly),
    MBC1(MBC1),
    MBC3(MBC3),
}

impl Controller {
    pub open spec fn state(&self) -> CartridgeView {
        match self {
            Controller::RomOnly(mbc) => mbc.state(),
            Controller::MBC1(mbc) => mbc.state(),
            Controller::MBC3(mbc) => mbc.state(),
        }
    }

    /// Tells whether a read at `address` is served.
    pub fn can_load(&self, address: u16) -> (ok: bool)
        requires
            self.state().wf(),
        ensures
            ok == self.state().readable(address),
    {
        match self {
            Controller::RomOnly(mbc) => mbc.can_load(address),
            Controller::MBC1(mbc) => mbc.can_load(address),
            Controller::MBC3(mbc) => mbc.can_load(address),
        }
    }

    pub fn load(&self, address: u16) -> (value: u8)
        requires
            self.state().wf(),
            self.state().readable(address),
        ensures
            value == self.state().load(address),
    {
        match self {
            Controller::RomOnly(mbc) => mbc.load(address),
            Controller::MBC1(mbc) => mbc.load(address),
            Controller::MBC3(mbc) => mbc.load(address),
        }
    }

    /// Tells whether a write at `address` is taken.
    pub fn can_store(&self, address: u16) -> (ok: bool)
        ensures
            ok == self.state().writable(address),
    {
        match self {
            Controller::RomOnly(mbc) => mbc.can_store(address),
            Controller::MBC1(mbc) => mbc.can_store(address),
            Controller::MBC3(mbc) => mbc.can_store(address),
        }
    }

    pub fn store(&mut self, address: u16, value: u8)
        requires
            old(self).state().wf(),
            old(self).state().writable(address),
        ensures
            final(self).state() == old(self).state().store(address, value),
            final(self).state().wf(),
    {
        match self {
            Controller::RomOnly(mbc) => mbc.store(address, value),
            Controller::MBC1(mbc) => mbc.store(address, value),
            Controller::MBC3(mbc) => mbc.store(address, value),
        }
    }
}

#[derive(Clone, Copy, Debug)]
pub struct Headers {
    pub cartridge_type: CartridgeType,
    pub rom_size: usize,
    pub ram_size: usize,
}

/// The controller kind that a type byte of the header selects, if any.
pub open spec fn type_of(n: u8) -> Option<CartridgeType> {
    if n == 0x00 {
        Some(CartridgeType::RomOnly)
    } else if 0x01 <= n <= 0x03 {
        Some(CartridgeType::MBC1)
    } else if 0x0F <= n <= 0x13 {
        Some(CartridgeType::MBC3)
    } else {
        None
    }
}

/// The ROM size that a size byte of the header selects: 32 KiB, doubled `n`
/// times.
pub open spec fn rom_size_of(n: u8) -> int {
    0x8000 * (pow2(n as nat) as int)
}

/// The RAM size that a size byte of the header selects, if any.
pub open spec fn ram_size_of(n: u8) -> Option<int> {
    if n == 0 {
        Some(0)
    } else if n == 1 {
        Some(0x800)
    } else if n == 2 {
        Some(0x2000)
    } else if n == 3 {
        Some(0x8000)
    } else {
        None
    }
}

/// Whether an image has a header that can be read: it reaches past the
/// header, names a known controller and a known RAM size, and a ROM size
/// that fits the machine's word.
pub open spec fn valid_image(rom: Seq<u8>) -> bool {
    &&& rom.len() > 0x149
    &&& type_of(rom[0x147]) is Some
    &&& rom[0x148] <= 16
    &&& ram_size_of(rom[0x149]) is Some
}

impl Headers {
    pub fn cartridge_type(n: u8) -> (kind: CartridgeType)
        requires
            type_of(n) is Some,
        ensures
            Some(kind) == type_of(n),
    {
        if n == 0x00 {
            CartridgeType::RomOnly
        } else if n <= 0x03 {
            CartridgeType::MBC1
        } else {
            CartridgeType::MBC3
        }
    }

    pub fn rom_size(n: u8) -> (size: usize)
        requires
            n <= 16,
        ensures
            size == rom_size_of(n),
    {
        proof {
            lemma2_to64();
            if n < 16 {
                lemma_pow2_strictly_increases(n as nat, 16);
            }
            assert(0x8000 * pow2(n as nat) <= 0x8000 * 0x10000) by (nonlinear_arith)
                requires
                    pow2(n as nat) <= 0x10000,
            ;
            lemma_u64_shl_is_mul(0x8000, n as u64);
        }
        let size: u64 = 0x8000u64 << (n as u64);
        size as usize
    }

    pub fn ram_size(n: u8) -> (size: usize)
        requires
            ram_size_of(n) is Some,
        ensures
            Some(size as int) == ram_size_of(n),
    {
        if n == 0 {
            0
        } else if n == 1 {
            0x800
        } else if n == 2 {
            0x2000
        } else {
            0x8000
        }
    }

    /// Tells whether `rom` has a header that `new` can read.
    pub fn valid(rom: &Vec<u8>) -> (ok: bool)
        ensures
            ok == valid_image(rom@),
    {
        if rom.len() <= 0x149 {
            return false;
        }
        let kind: u8 = rom[0x147];
        let known: bool = kind == 0x00 || (0x01 <= kind && kind <= 0x03) || (0x0F <= kind && kind <= 0x13);
        known && rom[0x148] <= 16 && rom[0x149] <= 3
    }

    /// Reads the header of an image: the controller kind at 0x147, the ROM
    /// size at 0x148 and the RAM size at 0x149.
    pub fn new(rom: &Vec<u8>) -> (headers: Self)
        requires
            valid_image(rom@),
        ensures
            Some(headers.cartridge_type) == type_of(rom@[0x147]),
            headers.rom_size == rom_size_of(rom@[0x148]),
            Some(headers.ram_size as int) == ram_size_of(rom@[0x149]),
    {
        Self {
            cartridge_type: Headers::cartridge_type(rom[0x147]),
            rom_size: Headers::rom_size(rom[0x148]),
            ram_size: Headers::ram_size(rom[0x149]),
        }
    }
}

pub struct Cartridge {
    pub headers: Headers,
    pub mbc: Controller,
}

impl View for Cartridge {
    type V = CartridgeView;

    open spec fn view(&self) -> CartridgeView {
        self.mbc.state()
    }
}

impl Cartridge {
    /// Makes a cartridge of an image: the header selects the controller,
    /// which starts with ROM bank 1 and RAM bank 0 selected.
    pub fn load(rom: Vec<u8>) -> (cartridge: Cartridge)
        requires
            valid_image(rom@),
        ensures
            Some(cartridge.headers.cartridge_type) == type_of(rom@[0x147]),
            cartridge.headers.rom_size == rom_size_of(rom@[0x148]),
            Some(cartridge.headers.ram_size as int) == ram_size_of(rom@[0x149]),
            cartridge@ == CartridgeView::initial(cartridge.headers.cartridge_type, rom@),
            cartridge@.wf(),
    {
        let headers = Headers::new(&rom);
        let mbc = match headers.cartridge_type {
            CartridgeType::RomOnly => Controller::RomOnly(RomOnly::new(rom)),
            CartridgeType::MBC1 => Controller::MBC1(MBC1::new(rom)),
            CartridgeType::MBC3 => Controller::MBC3(MBC3::new(rom)),
        };
        Cartridge { headers, mbc }
    }
}

/// Whatever is written to a controller, the upper ROM window never shows
/// bank 0 again, and the image itself never changes.
pub proof fn lemma_store_keeps_wf(cartridge: CartridgeView, address: u16, value: u8)
    requires
        cartridge.wf(),
        cartridge.writable(address),
    ensures
        cartridge.store(address, value).wf(),
        cartridge.store(address, value).rom_bank != 0,
        cartridge.store(address, value).rom == cartridge.rom,
        cartridge.store(address, value).kind == cartridge.kind,
        forall|other: u16| cartridge.store(address, value).writable(other) == cartridge.writable(other),
{
}

/// A byte written to the RAM window of a controller that stores RAM reads
/// back at the same address.
pub proof fn lemma_ram_round_trip(cartridge: CartridgeView, address: u16, value: u8)
    requires
        cartridge.wf(),
        cartridge.kind == CartridgeType::MBC3,
        0xA000 <= address < 0xC000,
    ensures
        cartridge.writable(address),
        cartridge.store(address, value).readable(address),
        cartridge.store(address, value).load(address) == value,
{
}

} // verus!
