use nes_core::joypad::{Joypad, JoypadButton};
use nes_core::ppu_mask::{Color, MaskRegister};

#[test]
fn joypad_shifts_buttons_in_fixed_order() {
    let mut joypad = Joypad::new();
    joypad.set_button_pressed(JoypadButton::A, true);
    joypad.set_button_pressed(JoypadButton::Start, true);
    joypad.write(1); // strobe high: rewind
    joypad.write(0); // strobe low: start shifting
    assert_eq!(joypad.read(), 1); // A
    assert_eq!(joypad.read(), 0); // B
    assert_eq!(joypad.read(), 0); // Select
    assert_eq!(joypad.read(), 1); // Start
    assert_eq!(joypad.read(), 0); // Up
    assert_eq!(joypad.read(), 0); // Down
    assert_eq!(joypad.read(), 0); // Left
    assert_eq!(joypad.read(), 0); // Right
    assert_eq!(joypad.read(), 1); // exhausted: always 1
    assert_eq!(joypad.read(), 1);
}

#[test]
fn joypad_strobe_high_always_returns_button_a() {
    let mut joypad = Joypad::new();
    joypad.set_button_pressed(JoypadButton::A, true);
    joypad.write(1);
    assert_eq!(joypad.read(), 1);
    assert_eq!(joypad.read(), 1);
    joypad.set_button_pressed(JoypadButton::A, false);
    assert_eq!(joypad.read(), 0);
}

#[test]
fn joypad_buttons_release() {
    let mut joypad = Joypad::new();
    joypad.set_button_pressed(JoypadButton::Left, true);
    assert!(joypad.is_pressed(JoypadButton::Left));
    joypad.set_button_pressed(JoypadButton::Left, false);
    assert!(!joypad.is_pressed(JoypadButton::Left));
}

#[test]
fn mask_register_accessors_decode_the_bits() {
    let mut mask = MaskRegister::new();
    assert!(!mask.is_greyscale());
    mask.update(0b0001_1011);
    assert!(mask.is_greyscale());
    assert!(mask.leftmost_8pxl_bkg());
    assert!(!mask.leftmost_8pxl_sprite());
    assert!(mask.show_bkg());
    assert!(mask.show_sprites());
    assert!(mask.emphasize().is_empty());
}

#[test]
fn mask_register_emphasize_lists_red_blue_green() {
    let mut mask = MaskRegister::new();
    mask.update(0b1110_0000);
    let colors = mask.emphasize();
    assert_eq!(colors.len(), 3);
    assert_eq!(colors[0], Color::Red);
    assert_eq!(colors[1], Color::Blue);
    assert_eq!(colors[2], Color::Green);

    mask.update(0b0100_0000);
    let colors = mask.emphasize();
    assert_eq!(colors.len(), 1);
    assert_eq!(colors[0], Color::Green);
}
