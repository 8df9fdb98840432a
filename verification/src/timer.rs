//! The divider and the programmable counter.

use vstd::prelude::*;
use vstd::arithmetic::div_mod::lemma_fundamental_div_mod_converse;

verus! {

#[derive(Clone, Copy, Debug, PartialEq, Eq, Structural)]
pub struct Timer {
    /// Cycles gathered towards the next increment of the counter.
    pub counter: u64,
    /// Cycles gathered towards the next increment of the divider.
    pub div_counter: u64,
    /// FF04: the divider.
    pub div: u8,
    /// FF05: the counter.
    pub tima: u8,
    /// FF06: what the counter is reloaded with when it overflows.
    pub tma: u8,
    /// FF07: bit 2 enables the counter, bits 1-0 select its period.
    pub tac: u8,
}

/// Cycles per increment of the counter, as the control byte selects it; 0
/// while the counter is disabled.
pub open spec fn period(tac: u8) -> int {
    if tac & 0x4 == 0 {
        0
    } else if tac & 0x3 == 1 {
        16
    } else if tac & 0x3 == 2 {
        64
    } else if tac & 0x3 == 3 {
        256
    } else {
        1024
    }
}

/// The counter after `n` increments: an increment of 0xFF reloads it with
/// `tma`.
pub open spec fn tima_after(tima: u8, tma: u8, n: nat) -> u8
    decreases n,
{
    if n == 0 {
        tima
    } else {
        let before = tima_after(tima, tma, (n - 1) as nat);
        if before == 0xFF {
            tma
        } else {
            (before + 1) as u8
        }
    }
}

/// Whether the counter overflows during `n` increments.
pub open spec fn overflows(tima: u8, tma: u8, n: nat) -> bool
    decreases n,
{
    n > 0 && (overflows(tima, tma, (n - 1) as nat) || tima_after(tima, tma, (n - 1) as nat) == 0xFF)
}

impl Timer {
    pub fn new() -> (timer: Self)
        ensures
            timer.counter == 0,
            timer.div_counter == 0,
            timer.div == 0,
            timer.tima == 0,
            timer.tma == 0,
            timer.tac == 0,
    {
        Self { counter: 0, div_counter: 0, div: 0, tima: 0, tma: 0, tac: 0 }
    }

    /// Number of increments of the counter that an advance by `cycles`
    /// brings.
    pub open spec fn increments(self, cycles: u64) -> nat {
        if period(self.tac) == 0 {
            0
        } else {
            ((self.counter + cycles) / period(self.tac)) as nat
        }
    }

    /// The timer after an advance by `cycles`: the divider goes up by one
    /// for every 256 cycles gathered, the counter by one for every full
    /// period while it is enabled.
    pub open spec fn ticked(self, cycles: u64) -> Timer {
        Timer {
            div: ((self.div + (self.div_counter + cycles) / 256) % 256) as u8,
            div_counter: ((self.div_counter + cycles) % 256) as u64,
            tima: tima_after(self.tima, self.tma, self.increments(cycles)),
            counter: if period(self.tac) == 0 {
                self.counter
            } else {
                ((self.counter + cycles) % period(self.tac)) as u64
            },
            ..self
        }
    }

    /// Whether the counter overflows during an advance by `cycles`.
    pub open spec fn overflowed(self, cycles: u64) -> bool {
        overflows(self.tima, self.tma, self.increments(cycles))
    }

    /// Advances the timer by `cycles`. The result tells whether the counter
    /// overflowed.
    pub fn tick(&mut self, cycles: u64) -> (interrupted: bool)
        ensures
            *final(self) == old(self).ticked(cycles),
            interrupted == old(self).overflowed(cycles),
    {
        let mut interrupted = false;
        let gathered: u128 = self.div_counter as u128 + cycles as u128;
        let new_div: u8 = ((self.div as u128 + (gathered / 256) % 256) % 256) as u8;
        self.div = new_div;
        self.div_counter = (gathered % 256) as u64;

        let step = self.clock_select();
        if step > 0 {
            let total: u128 = self.counter as u128 + cycles as u128;
            let mut left: u128 = total;
            let ghost mut done: nat = 0;
            while left >= step as u128
                invariant
                    step == period(self.tac),
                    step > 0,
                    total == left + done * step,
                    self.tac == old(self).tac,
                    self.tma == old(self).tma,
                    self.div == new_div,
                    self.div_counter == (gathered % 256) as u64,
                    self.tima == tima_after(old(self).tima, old(self).tma, done),
                    interrupted == overflows(old(self).tima, old(self).tma, done),
                decreases left,
            {
                left = left - step as u128;
                proof {
                    assert((done + 1) * step == done * step + step) by (nonlinear_arith);
                    done = done + 1;
                }
                if self.tima == 0xFF {
                    self.tima = self.tma;
                    interrupted = true;
                } else {
                    self.tima = self.tima + 1;
                }
            }
            proof {
                lemma_fundamental_div_mod_converse(total as int, step as int, done as int, left as int);
            }
            self.counter = left as u64;
        }
        interrupted
    }

    /// The period that the control byte selects, 0 while the counter is
    /// disabled.
    pub fn clock_select(&self) -> (step: u64)
        ensures
            step == period(self.tac),
    {
        if self.tac & 0x4 == 0 {
            return 0;
        }
        let select: u8 = self.tac & 0x3;
        if select == 1 {
            16
        } else if select == 2 {
            64
        } else if select == 3 {
            256
        } else {
            1024
        }
    }
}

/// An advance that brings no increment cannot overflow the counter, and one
/// increment overflows it exactly from 0xFF.
pub proof fn lemma_single_increment(tima: u8, tma: u8)
    ensures
        !overflows(tima, tma, 0),
        tima_after(tima, tma, 0) == tima,
        overflows(tima, tma, 1) == (tima == 0xFF),
        tima_after(tima, tma, 1) == (if tima == 0xFF { tma } else { (tima + 1) as u8 }),
{
    reveal_with_fuel(tima_after, 2);
    reveal_with_fuel(overflows, 2);
}

} // verus!
