//! The console: the processor, and around it the loop that lets the pixel
//! unit and the timer catch up after every instruction and resolves the
//! interrupts that they raise.

use vstd::prelude::*;
use crate::cartridge::Cartridge;
use crate::cpu::lemma_step_cycles;
use crate::cpu::lemma_step_keeps_clock;
use crate::cpu::Cpu;
use crate::cpu::CpuView;
use crate::cpu::CYCLE_LIMIT;
use crate::gpu::GpuView;
use crate::input::Button;
use crate::memory::MemoryView;

verus! {

/// Interrupt bit of the timer.
pub const TIMER_INTERRUPT: u8 = 4;

pub struct Console {
    pub cpu: Cpu,
}

impl View for Console {
    type V = CpuView;

    open spec fn view(&self) -> CpuView {
        self.cpu@
    }
}

/// The console with the pixel unit advanced by `elapsed` cycles.
pub open spec fn drawn(cpu: CpuView, elapsed: u64) -> CpuView {
    CpuView { memory: MemoryView { gpu: cpu.memory.gpu.step(elapsed), ..cpu.memory }, ..cpu }
}

/// The console with what the pixel unit raised moved to the interrupt
/// request byte.
pub open spec fn collected(cpu: CpuView) -> CpuView {
    if cpu.memory.gpu.interrupts != 0 {
        let requested = cpu.request_interrupt(cpu.memory.gpu.interrupts);
        CpuView {
            memory: MemoryView { gpu: GpuView { interrupts: 0, ..requested.memory.gpu }, ..requested.memory },
            ..requested
        }
    } else {
        cpu
    }
}

/// The console with the timer advanced by `elapsed` cycles, and the timer
/// interrupt requested where the counter overflowed.
pub open spec fn timed(cpu: CpuView, elapsed: u64) -> CpuView {
    let ticked = CpuView {
        memory: MemoryView { timer: cpu.memory.timer.ticked(elapsed), ..cpu.memory },
        ..cpu
    };
    if cpu.memory.timer.overflowed(elapsed) {
        ticked.request_interrupt(TIMER_INTERRUPT)
    } else {
        ticked
    }
}

/// Whether the console can advance: the processor can make a step, and the
/// clock of the pixel unit has room.
pub open spec fn can_advance(cpu: CpuView) -> bool {
    cpu.can_step() && cpu.memory.gpu.cycles <= CYCLE_LIMIT
}

/// The console after the first part of a step: the processor executes one
/// instruction, the pixel unit and the timer advance by the cycles that it
/// took, and what they raise is requested.
pub open spec fn advanced(cpu: CpuView) -> CpuView {
    let executed = cpu.step();
    let elapsed = (executed.cycles - cpu.cycles) as u64;
    timed(collected(drawn(executed, elapsed)), elapsed)
}

/// Whether the console can make a step: it can advance, and interrupts can
/// be resolved afterwards.
pub open spec fn can_step(cpu: CpuView) -> bool {
    can_advance(cpu) && advanced(cpu).resolvable()
}

/// The console after one step: it advances, then interrupts are resolved.
pub open spec fn stepped(cpu: CpuView) -> CpuView {
    advanced(cpu).interrupt()
}

impl Console {
    pub fn new(cartridge: Cartridge, trace: bool) -> (console: Self)
        requires
            cartridge@.wf(),
        ensures
            console@ == CpuView::initial(cartridge@, trace),
            console@.wf(),
    {
        let cpu = Cpu::new(cartridge, trace);
        Self { cpu }
    }

    /// Tells whether the console can advance.
    pub fn can_advance(&self) -> (ok: bool)
        requires
            self@.wf(),
        ensures
            ok == can_advance(self@),
    {
        self.cpu.can_step() && self.cpu.memory.gpu.cycles <= CYCLE_LIMIT
    }

    /// Makes the first part of a step: executes one instruction, lets the
    /// pixel unit and the timer catch up, and requests the interrupts that
    /// they raise.
    pub fn advance(&mut self)
        requires
            old(self)@.wf(),
            can_advance(old(self)@),
        ensures
            final(self)@ == advanced(old(self)@),
            final(self)@.wf(),
    {
        proof {
            lemma_step_cycles(self@);
            lemma_step_keeps_clock(self@);
        }
        let prev_cy = self.cpu.cycles;
        self.cpu.step();
        let elapsed = self.cpu.cycles - prev_cy;
        self.cpu.memory.gpu.step(elapsed);
        if self.cpu.memory.gpu.interrupts > 0 {
            self.cpu.request_interrupt(self.cpu.memory.gpu.interrupts);
            self.cpu.memory.gpu.interrupts = 0;
        }
        if self.cpu.memory.timer.tick(elapsed) {
            self.cpu.request_interrupt(TIMER_INTERRUPT);
        }
    }

    /// Advances the console by one instruction.
    pub fn step(&mut self)
        requires
            old(self)@.wf(),
            can_step(old(self)@),
        ensures
            final(self)@ == stepped(old(self)@),
            final(self)@.wf(),
    {
        self.advance();
        self.cpu.interrupt();
    }

    /// Advances the console by one instruction if it can. Where the
    /// processor cannot execute the instruction, nothing changes; where its
    /// interrupts cannot be resolved afterwards, the console has advanced
    /// and its interrupts stay as they are.
    pub fn try_step(&mut self) -> (done: bool)
        requires
            old(self)@.wf(),
        ensures
            done == can_step(old(self)@),
            final(self)@.wf(),
            final(self)@ == (if can_step(old(self)@) {
                stepped(old(self)@)
            } else if can_advance(old(self)@) {
                advanced(old(self)@)
            } else {
                old(self)@
            }),
    {
        if !self.can_advance() {
            return false;
        }
        self.advance();
        if !self.cpu.can_interrupt() {
            return false;
        }
        self.cpu.interrupt();
        true
    }

    /// Whether the pixel unit has entered vertical blanking since the flag
    /// was last cleared.
    pub fn new_frame(&self) -> (ready: bool)
        ensures
            ready == self@.memory.gpu.new_frame,
    {
        self.cpu.memory.gpu.new_frame
    }

    /// Clears the flag that `new_frame` reports.
    pub fn end_frame(&mut self)
        ensures
            final(self)@ == (CpuView {
                memory: MemoryView {
                    gpu: GpuView { new_frame: false, ..old(self)@.memory.gpu },
                    ..old(self)@.memory
                },
                ..old(self)@
            }),
            old(self)@.wf() ==> final(self)@.wf(),
    {
        self.cpu.memory.gpu.new_frame = false;
    }

    /// The frame buffer: 160 x 144 pixels, row after row, three bytes per
    /// pixel.
    pub fn frame(&self) -> (frame: &Vec<u8>)
        ensures
            frame@ == self@.memory.gpu.frame,
    {
        &self.cpu.memory.gpu.frame
    }

    /// The program counter.
    pub fn pc(&self) -> (pc: u16)
        ensures
            pc == self@.pc,
    {
        self.cpu.pc
    }

    pub fn key_down(&mut self, button: Button)
        ensures
            final(self)@ == (CpuView {
                memory: MemoryView {
                    input: old(self)@.memory.input.spec_key_down(button),
                    ..old(self)@.memory
                },
                ..old(self)@
            }),
            old(self)@.wf() ==> final(self)@.wf(),
    {
        self.cpu.memory.input.key_down(button);
    }

    pub fn key_up(&mut self, button: Button)
        ensures
            final(self)@ == (CpuView {
                memory: MemoryView { input: old(self)@.memory.input.spec_key_up(button), ..old(self)@.memory },
                ..old(self)@
            }),
            old(self)@.wf() ==> final(self)@.wf(),
    {
        self.cpu.memory.input.key_up(button);
    }
}

} // verus!
