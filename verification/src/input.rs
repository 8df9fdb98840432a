//! The joypad: two active-low 4-bit latches (directions, actions) behind a
//! 2-bit selector.

use vstd::prelude::*;

verus! {

#[derive(Clone, Copy, Debug, PartialEq, Eq, Structural)]
pub enum Button {
    Start,
    Select,
    A,
    B,
    Left,
    Right,
    Down,
    Up,
}

/// Selector bit that exposes the direction latch.
pub const DPAD_FLAG: u8 = 0x20;

/// Selector bit that exposes the action latch.
pub const BUTTONS_FLAG: u8 = 0x10;

/// The two high bits of the joypad byte always read as ones.
pub const SELECTOR_DEFAULT: u8 = 0xC0;

impl Button {
    /// The latch bit that belongs to this button.
    pub open spec fn bitflag(self) -> u8 {
        match self {
            Button::A | Button::Right => 1,
            Button::B | Button::Left => 2,
            Button::Up | Button::Select => 4,
            Button::Start | Button::Down => 8,
        }
    }

    /// Whether the button sits in the action latch (else: direction latch).
    pub open spec fn is_action(self) -> bool {
        self == Button::A || self == Button::B || self == Button::Select || self == Button::Start
    }

    pub fn to_bitflag(&self) -> (flag: u8)
        ensures
            flag == self.bitflag(),
    {
        match self {
            Button::A | Button::Right => 1,
            Button::B | Button::Left => 2,
            Button::Up | Button::Select => 4,
            Button::Start | Button::Down => 8,
        }
    }

    pub fn in_action_latch(&self) -> (action: bool)
        ensures
            action == self.is_action(),
    {
        match self {
            Button::A | Button::B | Button::Select | Button::Start => true,
            _ => false,
        }
    }
}

#[derive(Clone, Copy, Debug, PartialEq, Eq, Structural)]
pub struct Input {
    pub dpad: u8,
    pub buttons: u8,
    pub selector: u8,
}

proof fn lemma_latch_bits(latch: u8, p: u8, q: u8)
    by (bit_vector)
    requires
        latch <= 0x0F,
        p == 1 || p == 2 || p == 4 || p == 8,
        q == 1 || q == 2 || q == 4 || q == 8,
    ensures
        latch & !p <= 0x0F,
        latch | p <= 0x0F,
        (latch & !p) & p == 0,
        (latch | p) & p != 0,
        p != q ==> (latch & !p) & q == latch & q,
        p != q ==> (latch | p) & q == latch & q,
{
}

proof fn lemma_selector_bits(value: u8)
    by (bit_vector)
    ensures
        ((value & 0x30) | 0xC0) & 0xCF == 0xC0,
        ((value & 0x30) | 0xC0) & 0x20 == value & 0x20,
        ((value & 0x30) | 0xC0) & 0x10 == value & 0x10,
        0x0Fu8 & 1 != 0 && 0x0Fu8 & 2 != 0 && 0x0Fu8 & 4 != 0 && 0x0Fu8 & 8 != 0,
        0xC0u8 & 0xCF == 0xC0,
{
}

proof fn lemma_exposed_bits(selector: u8, latch: u8)
    by (bit_vector)
    requires
        selector & 0xCF == 0xC0,
        latch <= 0x0F,
    ensures
        (selector | latch) & 0xF0 == selector,
        (selector | latch) & 0x0F == latch,
        latch | selector == selector | latch,
        (selector | 0x0F) & 0xF0 == selector,
        (selector | 0x0F) & 0x0F == 0x0F,
{
}

impl Input {
    /// Both latches hold four bits; the selector holds the two fixed high
    /// bits and the two selector bits, nothing else.
    pub open spec fn wf(self) -> bool {
        &&& self.dpad <= 0x0F
        &&& self.buttons <= 0x0F
        &&& self.selector & 0xCF == 0xC0
    }

    /// Whether `button` is held down: its latch bit is clear.
    pub open spec fn is_pressed(self, button: Button) -> bool {
        if button.is_action() {
            self.buttons & button.bitflag() == 0
        } else {
            self.dpad & button.bitflag() == 0
        }
    }

    /// No button pressed, no latch selected.
    pub open spec fn initial() -> Input {
        Input { dpad: 0x0F, buttons: 0x0F, selector: SELECTOR_DEFAULT }
    }

    pub fn new() -> (input: Self)
        ensures
            input == Self::initial(),
            input.wf(),
            forall|b: Button| !input.is_pressed(b),
    {
        proof {
            lemma_selector_bits(0);
        }
        Self { dpad: 0x0F, buttons: 0x0F, selector: SELECTOR_DEFAULT }
    }

    /// The joypad byte: the selector in the high nibble, the selected latch
    /// in the low nibble, and all ones there when no latch is selected.
    pub open spec fn spec_get(self) -> u8 {
        if self.selector & DPAD_FLAG != 0 {
            self.dpad | self.selector
        } else if self.selector & BUTTONS_FLAG != 0 {
            self.buttons | self.selector
        } else {
            self.selector | 0x0F
        }
    }

    pub fn get(&self) -> (value: u8)
        ensures
            value == self.spec_get(),
    {
        if self.selector & DPAD_FLAG != 0 {
            self.dpad | self.selector
        } else if self.selector & BUTTONS_FLAG != 0 {
            self.buttons | self.selector
        } else {
            self.selector | 0x0F
        }
    }

    /// The joypad after a write of `value`: only the two selector bits are
    /// taken, and the two high bits stay set.
    pub open spec fn spec_set(self, value: u8) -> Input {
        Input { selector: (value & 0x30) | SELECTOR_DEFAULT, ..self }
    }

    pub fn set(&mut self, value: u8)
        ensures
            *final(self) == old(self).spec_set(value),
            old(self).wf() ==> final(self).wf(),
    {
        proof {
            lemma_selector_bits(value);
        }
        self.selector = (value & 0x30) | SELECTOR_DEFAULT;
    }

    pub open spec fn spec_key_down(self, button: Button) -> Input {
        if button.is_action() {
            Input { buttons: self.buttons & !button.bitflag(), ..self }
        } else {
            Input { dpad: self.dpad & !button.bitflag(), ..self }
        }
    }

    pub fn key_down(&mut self, button: Button)
        ensures
            *final(self) == old(self).spec_key_down(button),
            old(self).wf() ==> final(self).wf(),
    {
        proof {
            if self.wf() {
                lemma_key_down(*self, button, button);
            }
        }
        let flag = button.to_bitflag();
        if button.in_action_latch() {
            self.buttons = self.buttons & !flag;
        } else {
            self.dpad = self.dpad & !flag;
        }
    }

    pub open spec fn spec_key_up(self, button: Button) -> Input {
        if button.is_action() {
            Input { buttons: self.buttons | button.bitflag(), ..self }
        } else {
            Input { dpad: self.dpad | button.bitflag(), ..self }
        }
    }

    pub fn key_up(&mut self, button: Button)
        ensures
            *final(self) == old(self).spec_key_up(button),
            old(self).wf() ==> final(self).wf(),
    {
        proof {
            if self.wf() {
                lemma_key_up(*self, button, button);
            }
        }
        let flag = button.to_bitflag();
        if button.in_action_latch() {
            self.buttons = self.buttons | flag;
        } else {
            self.dpad = self.dpad | flag;
        }
    }
}

/// A write to the joypad byte changes the selector alone and keeps its two
/// high bits set.
pub proof fn lemma_set(input: Input, value: u8)
    requires
        input.wf(),
    ensures
        input.spec_set(value).wf(),
        input.spec_set(value).dpad == input.dpad,
        input.spec_set(value).buttons == input.buttons,
{
    lemma_selector_bits(value);
}

/// Pressing a button marks it pressed and changes the state of no other
/// button.
pub proof fn lemma_key_down(input: Input, button: Button, other: Button)
    requires
        input.wf(),
    ensures
        input.spec_key_down(button).wf(),
        input.spec_key_down(button).is_pressed(other) == (other == button || input.is_pressed(other)),
{
    lemma_latch_bits(input.buttons, button.bitflag(), other.bitflag());
    lemma_latch_bits(input.dpad, button.bitflag(), other.bitflag());
}

/// Releasing a button marks it released and changes the state of no other
/// button.
pub proof fn lemma_key_up(input: Input, button: Button, other: Button)
    requires
        input.wf(),
    ensures
        input.spec_key_up(button).wf(),
        input.spec_key_up(button).is_pressed(other) == (other != button && input.is_pressed(other)),
{
    lemma_latch_bits(input.buttons, button.bitflag(), other.bitflag());
    lemma_latch_bits(input.dpad, button.bitflag(), other.bitflag());
}

/// The joypad byte shows the selector in its high nibble and, in its low
/// nibble, the selected latch, or all ones when none is selected.
pub proof fn lemma_exposed_byte(input: Input)
    requires
        input.wf(),
    ensures
        input.spec_get() & 0xF0 == input.selector,
        input.spec_get() & 0x0F == (if input.selector & DPAD_FLAG != 0 {
            input.dpad
        } else if input.selector & BUTTONS_FLAG != 0 {
            input.buttons
        } else {
            0x0Fu8
        }),
{
    lemma_exposed_bits(input.selector, input.dpad);
    lemma_exposed_bits(input.selector, input.buttons);
}

} // verus!
