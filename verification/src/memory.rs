//! The memory map: routes every access in the 16-bit address space to the
//! region that owns the address.

use vstd::prelude::*;
use crate::cartridge::Cartridge;
use crate::cartridge::CartridgeType;
use crate::cartridge::CartridgeView;
use crate::gpu::Gpu;
use crate::gpu::GpuView;
use crate::input::Input;
use crate::timer::Timer;

verus! {

/// Bytes of work RAM.
pub const WORK_RAM_SIZE: usize = 0x2000;

/// Bytes behind 0xFF80-0xFFFF: high RAM and the interrupt-enable byte.
pub const HIGH_RAM_SIZE: usize = 0x80;

/// Bytes behind 0xFF00-0xFF7F.
pub const IO_SIZE: usize = 0x80;

pub struct Memory {
    pub cartridge: Cartridge,
    pub work_ram: Vec<u8>,
    pub high_ram: Vec<u8>,
    pub io: Vec<u8>,
    /// What was written to the serial data register, in order.
    pub serial: Vec<char>,
    pub gpu: Gpu,
    pub timer: Timer,
    pub input: Input,
}

/// What the address space holds.
pub struct MemoryView {
    pub cartridge: CartridgeView,
    pub work_ram: Seq<u8>,
    pub high_ram: Seq<u8>,
    pub io: Seq<u8>,
    pub serial: Seq<char>,
    pub gpu: GpuView,
    pub timer: Timer,
    pub input: Input,
}

impl View for Memory {
    type V = MemoryView;

    open spec fn view(&self) -> MemoryView {
        MemoryView {
            cartridge: self.cartridge@,
            work_ram: self.work_ram@,
            high_ram: self.high_ram@,
            io: self.io@,
            serial: self.serial@,
            gpu: self.gpu@,
            timer: self.timer,
            input: self.input,
        }
    }
}

/// The second address of a 16-bit access: the next one, and 0x0000 after
/// 0xFFFF.
pub open spec fn next_address(address: u16) -> u16 {
    if address == 0xFFFF {
        0
    } else {
        (address + 1) as u16
    }
}

impl MemoryView {
    pub open spec fn wf(self) -> bool {
        &&& self.cartridge.wf()
        &&& self.work_ram.len() == WORK_RAM_SIZE
        &&& self.high_ram.len() == HIGH_RAM_SIZE
        &&& self.io.len() == IO_SIZE
        &&& self.gpu.wf()
        &&& self.input.wf()
    }

    /// The address space when the console starts: all RAM and all I/O
    /// registers zero.
    pub open spec fn initial(cartridge: CartridgeView) -> MemoryView {
        MemoryView {
            cartridge,
            work_ram: Seq::new(WORK_RAM_SIZE as nat, |i: int| 0u8),
            high_ram: Seq::new(HIGH_RAM_SIZE as nat, |i: int| 0u8),
            io: Seq::new(IO_SIZE as nat, |i: int| 0u8),
            serial: Seq::empty(),
            gpu: GpuView::initial(),
            timer: Timer { counter: 0, div_counter: 0, div: 0, tima: 0, tma: 0, tac: 0 },
            input: Input::initial(),
        }
    }

    /// Whether a read at `address` is served. Only the cartridge refuses
    /// reads: outside its image, or in a RAM window that it does not have.
    pub open spec fn readable(self, address: u16) -> bool {
        if address < 0x8000 || (0xA000 <= address && address < 0xC000) {
            self.cartridge.readable(address)
        } else {
            true
        }
    }

    /// Whether a write at `address` is taken. Only the cartridge refuses
    /// writes: in a RAM window that it does not have.
    pub open spec fn writable(self, address: u16) -> bool {
        if address < 0x8000 || (0xA000 <= address && address < 0xC000) {
            self.cartridge.writable(address)
        } else {
            true
        }
    }

    /// The byte that a read at `address` returns.
    pub open spec fn load(self, address: u16) -> u8 {
        if address < 0x8000 {
            self.cartridge.load(address)
        } else if address < 0xA000 {
            self.gpu.load(address as int)
        } else if address < 0xC000 {
            self.cartridge.load(address)
        } else if address < 0xE000 {
            self.work_ram[address - 0xC000]
        } else if address < 0xFE00 {
            self.work_ram[address - 0xE000]
        } else if address < 0xFEA0 {
            self.gpu.oam_load(address - 0xFE00)
        } else if address < 0xFF00 {
            0
        } else if address == 0xFF00 {
            self.input.spec_get()
        } else if address == 0xFF04 {
            self.timer.div
        } else if address == 0xFF05 {
            self.timer.tima
        } else if address == 0xFF06 {
            self.timer.tma
        } else if address == 0xFF07 {
            self.timer.tac
        } else if address == 0xFF40 {
            self.gpu.control
        } else if address == 0xFF41 {
            self.gpu.lcd
        } else if address == 0xFF42 {
            self.gpu.scroll_y
        } else if address == 0xFF43 {
            self.gpu.scroll_x
        } else if address == 0xFF44 {
            self.gpu.ly
        } else if address == 0xFF45 {
            self.gpu.lyc
        } else if address == 0xFF47 {
            self.gpu.bg_palette
        } else if address == 0xFF48 {
            self.gpu.obj_palette_0
        } else if address == 0xFF49 {
            self.gpu.obj_palette_1
        } else if address == 0xFF4A {
            self.gpu.window_y
        } else if address == 0xFF4B {
            self.gpu.window_x
        } else if address < 0xFF80 {
            self.io[address - 0xFF00]
        } else {
            self.high_ram[address - 0xFF80]
        }
    }

    /// The address space after a write of `value` at `address`.
    pub open spec fn store(self, address: u16, value: u8) -> MemoryView {
        if address < 0x8000 {
            MemoryView { cartridge: self.cartridge.store(address, value), ..self }
        } else if address < 0xA000 {
            MemoryView { gpu: self.gpu.store(address as int, value), ..self }
        } else if address < 0xC000 {
            MemoryView { cartridge: self.cartridge.store(address, value), ..self }
        } else if address < 0xE000 {
            MemoryView { work_ram: self.work_ram.update(address - 0xC000, value), ..self }
        } else if address < 0xFE00 {
            MemoryView { work_ram: self.work_ram.update(address - 0xE000, value), ..self }
        } else if address < 0xFEA0 {
            MemoryView { gpu: self.gpu.oam_store(address - 0xFE00, value), ..self }
        } else if address < 0xFF00 {
            self
        } else if address == 0xFF00 {
            MemoryView { input: self.input.spec_set(value), ..self }
        } else if address == 0xFF01 {
            MemoryView { serial: self.serial.push(value as char), ..self }
        } else if address == 0xFF04 {
            MemoryView { timer: Timer { div: 0, ..self.timer }, ..self }
        } else if address == 0xFF05 {
            MemoryView { timer: Timer { tima: value, ..self.timer }, ..self }
        } else if address == 0xFF06 {
            MemoryView { timer: Timer { tma: value, ..self.timer }, ..self }
        } else if address == 0xFF07 {
            MemoryView { timer: Timer { tac: value, ..self.timer }, ..self }
        } else if address == 0xFF40 {
            MemoryView { gpu: GpuView { control: value, ..self.gpu }, ..self }
        } else if address == 0xFF41 {
            MemoryView { gpu: GpuView { lcd: value, ..self.gpu }, ..self }
        } else if address == 0xFF42 {
            MemoryView { gpu: GpuView { scroll_y: value, ..self.gpu }, ..self }
        } else if address == 0xFF43 {
            MemoryView { gpu: GpuView { scroll_x: value, ..self.gpu }, ..self }
        } else if address == 0xFF44 {
            MemoryView { gpu: GpuView { ly: 0, ..self.gpu }, ..self }
        } else if address == 0xFF45 {
            MemoryView { gpu: GpuView { lyc: value, ..self.gpu }, ..self }
        } else if address == 0xFF47 {
            MemoryView { gpu: GpuView { bg_palette: value, ..self.gpu }, ..self }
        } else if address == 0xFF48 {
            MemoryView { gpu: GpuView { obj_palette_0: value, ..self.gpu }, ..self }
        } else if address == 0xFF49 {
            MemoryView { gpu: GpuView { obj_palette_1: value, ..self.gpu }, ..self }
        } else if address == 0xFF4A {
            MemoryView { gpu: GpuView { window_y: value, ..self.gpu }, ..self }
        } else if address == 0xFF4B {
            MemoryView { gpu: GpuView { window_x: value, ..self.gpu }, ..self }
        } else if address < 0xFF80 {
            MemoryView { io: self.io.update(address - 0xFF00, value), ..self }
        } else {
            MemoryView { high_ram: self.high_ram.update(address - 0xFF80, value), ..self }
        }
    }

    /// Whether both bytes of a 16-bit read at `address` are served.
    pub open spec fn readable16(self, address: u16) -> bool {
        self.readable(address) && self.readable(next_address(address))
    }

    /// Whether both bytes of a 16-bit write at `address` are taken.
    pub open spec fn writable16(self, address: u16) -> bool {
        self.writable(address) && self.writable(next_address(address))
    }

    /// The 16-bit value at `address`: low byte first, high byte at the next
    /// address.
    pub open spec fn load16(self, address: u16) -> u16 {
        crate::register::pair(self.load(next_address(address)), self.load(address))
    }

    /// The address space after a 16-bit write: low byte first, high byte at
    /// the next address.
    pub open spec fn store16(self, address: u16, value: u16) -> MemoryView {
        self.store(address, crate::register::low_byte(value)).store(
            next_address(address),
            crate::register::high_byte(value),
        )
    }

    /// Whether `address` lies in a region that keeps what is written to it:
    /// video RAM, work RAM and its echo, the object attribute table, high
    /// RAM, and the RAM window of a cartridge that stores RAM.
    pub open spec fn is_storage(self, address: u16) -> bool {
        ||| 0x8000 <= address < 0xA000
        ||| (0xA000 <= address < 0xC000 && self.cartridge.kind == CartridgeType::MBC3)
        ||| 0xC000 <= address < 0xFEA0
        ||| 0xFF80 <= address
    }
}

impl Memory {
    pub fn new(cartridge: Cartridge) -> (memory: Self)
        requires
            cartridge@.wf(),
        ensures
            memory@ == MemoryView::initial(cartridge@),
            memory@.wf(),
    {
        let memory = Self {
            work_ram: vec![0u8; WORK_RAM_SIZE],
            high_ram: vec![0u8; HIGH_RAM_SIZE],
            io: vec![0u8; IO_SIZE],
            serial: Vec::new(),
            timer: Timer::new(),
            input: Input::new(),
            cartridge,
            gpu: Gpu::new(),
        };
        assert(memory.work_ram@ =~= MemoryView::initial(cartridge@).work_ram);
        assert(memory.high_ram@ =~= MemoryView::initial(cartridge@).high_ram);
        assert(memory.io@ =~= MemoryView::initial(cartridge@).io);
        assert(memory.serial@ =~= MemoryView::initial(cartridge@).serial);
        memory
    }

    /// Tells whether a read at `address` is served.
    pub fn can_load(&self, address: u16) -> (ok: bool)
        requires
            self@.wf(),
        ensures
            ok == self@.readable(address),
    {
        if address < 0x8000 || (0xA000 <= address && address < 0xC000) {
            self.cartridge.mbc.can_load(address)
        } else {
            true
        }
    }

    /// Tells whether both bytes of a 16-bit read at `address` are served.
    pub fn can_load16(&self, address: u16) -> (ok: bool)
        requires
            self@.wf(),
        ensures
            ok == self@.readable16(address),
    {
        self.can_load(address) && self.can_load(address.wrapping_add(1))
    }

    /// Tells whether a write at `address` is taken.
    pub fn can_store(&self, address: u16) -> (ok: bool)
        ensures
            ok == self@.writable(address),
    {
        if address < 0x8000 || (0xA000 <= address && address < 0xC000) {
            self.cartridge.mbc.can_store(address)
        } else {
            true
        }
    }

    /// Tells whether both bytes of a 16-bit write at `address` are taken.
    pub fn can_store16(&self, address: u16) -> (ok: bool)
        ensures
            ok == self@.writable16(address),
    {
        self.can_store(address) && self.can_store(address.wrapping_add(1))
    }

    pub fn load(&self, address: u16) -> (value: u8)
        requires
            self@.wf(),
            self@.readable(address),
        ensures
            value == self@.load(address),
    {
        if address < 0x8000 {
            self.cartridge.mbc.load(address)
        } else if address < 0xA000 {
            self.gpu.load(address)
        } else if address < 0xC000 {
            self.cartridge.mbc.load(address)
        } else if address < 0xE000 {
            self.work_ram[(address - 0xC000) as usize]
        } else if address < 0xFE00 {
            self.work_ram[(address - 0xE000) as usize]
        } else if address < 0xFEA0 {
            self.gpu.oam_load(address - 0xFE00)
        } else if address < 0xFF00 {
            0
        } else if address == 0xFF00 {
            self.input.get()
        } else if address == 0xFF04 {
            self.timer.div
        } else if address == 0xFF05 {
            self.timer.tima
        } else if address == 0xFF06 {
            self.timer.tma
        } else if address == 0xFF07 {
            self.timer.tac
        } else if address == 0xFF40 {
            self.gpu.control
        } else if address == 0xFF41 {
            self.gpu.lcd
        } else if address == 0xFF42 {
            self.gpu.scroll_y
        } else if address == 0xFF43 {
            self.gpu.scroll_x
        } else if address == 0xFF44 {
            self.gpu.ly
        } else if address == 0xFF45 {
            self.gpu.lyc
        } else if address == 0xFF47 {
            self.gpu.bg_palette
        } else if address == 0xFF48 {
            self.gpu.obj_palette_0
        } else if address == 0xFF49 {
            self.gpu.obj_palette_1
        } else if address == 0xFF4A {
            self.gpu.window_y
        } else if address == 0xFF4B {
            self.gpu.window_x
        } else if address < 0xFF80 {
            self.io[(address - 0xFF00) as usize]
        } else {
            self.high_ram[(address - 0xFF80) as usize]
        }
    }

    /// Writes a byte. The register that starts a transfer to the object
    /// attribute table is a plain byte here: the transfer is the
    /// processor's to make.
    pub fn store(&mut self, address: u16, value: u8)
        requires
            old(self)@.wf(),
            old(self)@.writable(address),
        ensures
            final(self)@ == old(self)@.store(address, value),
            final(self)@.wf(),
    {
        if address < 0x8000 {
            self.cartridge.mbc.store(address, value);
        } else if address < 0xA000 {
            self.gpu.store(address, value);
        } else if address < 0xC000 {
            self.cartridge.mbc.store(address, value);
        } else if address < 0xE000 {
            self.work_ram[(address - 0xC000) as usize] = value;
        } else if address < 0xFE00 {
            self.work_ram[(address - 0xE000) as usize] = value;
        } else if address < 0xFEA0 {
            self.gpu.oam_store(address - 0xFE00, value);
        } else if address < 0xFF00 {
        } else if address == 0xFF00 {
            self.input.set(value);
        } else if address == 0xFF01 {
            self.serial.push(value as char);
        } else if address == 0xFF04 {
            self.timer.div = 0;
        } else if address == 0xFF05 {
            self.timer.tima = value;
        } else if address == 0xFF06 {
            self.timer.tma = value;
        } else if address == 0xFF07 {
            self.timer.tac = value;
        } else if address == 0xFF40 {
            self.gpu.control = value;
        } else if address == 0xFF41 {
            self.gpu.lcd = value;
        } else if address == 0xFF42 {
            self.gpu.scroll_y = value;
        } else if address == 0xFF43 {
            self.gpu.scroll_x = value;
        } else if address == 0xFF44 {
            self.gpu.ly = 0;
        } else if address == 0xFF45 {
            self.gpu.lyc = value;
        } else if address == 0xFF47 {
            self.gpu.bg_palette = value;
        } else if address == 0xFF48 {
            self.gpu.obj_palette_0 = value;
        } else if address == 0xFF49 {
            self.gpu.obj_palette_1 = value;
        } else if address == 0xFF4A {
            self.gpu.window_y = value;
        } else if address == 0xFF4B {
            self.gpu.window_x = value;
        } else if address < 0xFF80 {
            self.io[(address - 0xFF00) as usize] = value;
        } else {
            self.high_ram[(address - 0xFF80) as usize] = value;
        }
    }

    /// Reads the 16-bit value at `address`, low byte first.
    pub fn load16(&self, address: u16) -> (value: u16)
        requires
            self@.wf(),
            self@.readable16(address),
        ensures
            value == self@.load16(address),
    {
        let lo = self.load(address);
        let hi = self.load(address.wrapping_add(1));
        crate::register::join(hi, lo)
    }

    /// Writes a 16-bit value at `address`, low byte first.
    pub fn store16(&mut self, address: u16, value: u16)
        requires
            old(self)@.wf(),
            old(self)@.writable16(address),
        ensures
            final(self)@ == old(self)@.store16(address, value),
            final(self)@.wf(),
    {
        let (hi, lo) = crate::register::split(value);
        proof {
            lemma_store_keeps_wf(self@, address, lo);
        }
        self.store(address, lo);
        self.store(address.wrapping_add(1), hi);
    }
}

/// No write changes which controller the cartridge has, nor its image, nor
/// the sizes of the buffers, nor which writes are taken.
pub proof fn lemma_store_keeps_wf(memory: MemoryView, address: u16, value: u8)
    requires
        memory.wf(),
        memory.writable(address),
    ensures
        memory.store(address, value).wf(),
        memory.store(address, value).cartridge.kind == memory.cartridge.kind,
        memory.store(address, value).cartridge.rom == memory.cartridge.rom,
        forall|other: u16| memory.store(address, value).writable(other) == memory.writable(other),
{
    crate::input::lemma_set(memory.input, value);
    if address < 0x8000 || (0xA000 <= address && address < 0xC000) {
        crate::cartridge::lemma_store_keeps_wf(memory.cartridge, address, value);
    }
}

/// A write outside the cartridge windows changes nothing about which reads
/// are served.
pub proof fn lemma_store_keeps_readable(memory: MemoryView, address: u16, value: u8, other: u16)
    requires
        memory.wf(),
        0x8000 <= address < 0xA000 || 0xC000 <= address,
    ensures
        memory.store(address, value).readable(other) == memory.readable(other),
{
}

/// A byte written to a region that stores reads back at the same address.
pub proof fn lemma_store_load(memory: MemoryView, address: u16, value: u8)
    requires
        memory.wf(),
        memory.is_storage(address),
    ensures
        memory.writable(address),
        memory.store(address, value).readable(address),
        memory.store(address, value).load(address) == value,
{
}

/// Work RAM and its echo show the same bytes: what is written at one
/// address of 0xC000-0xDDFF reads back there and 0x2000 above, and what is
/// written 0x2000 above reads back at both as well.
pub proof fn lemma_echo(memory: MemoryView, address: u16, value: u8)
    requires
        memory.wf(),
        0xC000 <= address < 0xDE00,
    ensures
        memory.store(address, value).load(address) == value,
        memory.store(address, value).load((address + 0x2000) as u16) == value,
        memory.store((address + 0x2000) as u16, value).load(address) == value,
        memory.store((address + 0x2000) as u16, value).load((address + 0x2000) as u16) == value,
{
}

/// A 16-bit value written where both of its bytes are stored reads back
/// unchanged.
pub proof fn lemma_store16_load16(memory: MemoryView, address: u16, value: u16)
    requires
        memory.wf(),
        address < 0xFFFF,
        memory.is_storage(address),
        memory.is_storage((address + 1) as u16),
    ensures
        memory.writable16(address),
        memory.store16(address, value).readable16(address),
        memory.store16(address, value).load16(address) == value,
{
    lemma_store_keeps_wf(memory, address, crate::register::low_byte(value));
}

} // verus!
