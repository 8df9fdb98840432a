use yeeboy::input::{Button, Input, BUTTONS_FLAG};

#[test]
fn test_get() {
    let mut input = Input::new();
    assert_eq!(input.get(), 0b1100_1111);
    input.key_down(Button::Select);
    assert_eq!(input.get(), 0b1100_1111);
    input.set(0b0001_0000);
    assert_eq!(input.get(), BUTTONS_FLAG | 0b1101_1011);
}

#[test]
fn selector_takes_only_its_two_bits() {
    let mut input = Input::new();
    input.set(0xFF);
    assert_eq!(input.selector, 0xF0);
    input.set(0x0F);
    assert_eq!(input.selector, 0xC0);
    assert_eq!(input.get(), 0xCF);
}

#[test]
fn directions_and_actions_have_their_own_latch() {
    let mut input = Input::new();
    input.key_down(Button::Right);
    input.key_down(Button::A);
    input.key_down(Button::Start);
    assert_eq!(input.dpad, 0b1110);
    assert_eq!(input.buttons, 0b0110);
    input.set(0x20);
    assert_eq!(input.get(), 0xE0 | 0b1110);
    input.set(0x10);
    assert_eq!(input.get(), 0xD0 | 0b0110);
    input.key_up(Button::A);
    assert_eq!(input.get(), 0xD0 | 0b0111);
    input.key_up(Button::Right);
    assert_eq!(input.dpad, 0x0F);
}

#[test]
fn every_button_has_one_latch_bit() {
    for (button, dpad, buttons) in [
        (Button::Right, 0b1110u8, 0b1111u8),
        (Button::Left, 0b1101, 0b1111),
        (Button::Up, 0b1011, 0b1111),
        (Button::Down, 0b0111, 0b1111),
        (Button::A, 0b1111, 0b1110),
        (Button::B, 0b1111, 0b1101),
        (Button::Select, 0b1111, 0b1011),
        (Button::Start, 0b1111, 0b0111),
    ] {
        let mut input = Input::new();
        input.key_down(button);
        assert_eq!(input.dpad, dpad);
        assert_eq!(input.buttons, buttons);
        input.key_up(button);
        assert_eq!(input.dpad, 0x0F);
        assert_eq!(input.buttons, 0x0F);
    }
}
