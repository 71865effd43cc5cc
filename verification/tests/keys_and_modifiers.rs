use glutin_window::keys::{filter_nonprintable, glutin_key_to_script_key, Key, VirtualKeyCode};
use glutin_window::modifiers::{
    glutin_mods_to_script_mods, modifier_for_key, KeyModifiers, ScriptKeyModifiers, ALT, CONTROL,
    LEFT_ALT, LEFT_CONTROL, LEFT_SHIFT, LEFT_SUPER, RIGHT_ALT, RIGHT_CONTROL, RIGHT_SHIFT,
    RIGHT_SUPER, SHIFT, SUPER,
};
use glutin_window::window::char_is_control;

#[test]
fn letters_digits_and_keypad_translate() {
    assert_eq!(glutin_key_to_script_key(VirtualKeyCode::A), Ok(Key::A));
    assert_eq!(glutin_key_to_script_key(VirtualKeyCode::Z), Ok(Key::Z));
    assert_eq!(glutin_key_to_script_key(VirtualKeyCode::Key0), Ok(Key::Num0));
    assert_eq!(glutin_key_to_script_key(VirtualKeyCode::Key7), Ok(Key::Num7));
    assert_eq!(glutin_key_to_script_key(VirtualKeyCode::Numpad3), Ok(Key::Kp3));
}

#[test]
fn named_keys_translate() {
    assert_eq!(glutin_key_to_script_key(VirtualKeyCode::Return), Ok(Key::Enter));
    assert_eq!(glutin_key_to_script_key(VirtualKeyCode::Back), Ok(Key::Backspace));
    assert_eq!(glutin_key_to_script_key(VirtualKeyCode::Equals), Ok(Key::Equal));
    assert_eq!(glutin_key_to_script_key(VirtualKeyCode::Grave), Ok(Key::GraveAccent));
    assert_eq!(glutin_key_to_script_key(VirtualKeyCode::LBracket), Ok(Key::LeftBracket));
    assert_eq!(glutin_key_to_script_key(VirtualKeyCode::RWin), Ok(Key::RightSuper));
    assert_eq!(glutin_key_to_script_key(VirtualKeyCode::NavigateBackward), Ok(Key::NavigateBackward));
}

#[test]
fn subtract_and_minus_share_a_key() {
    assert_eq!(glutin_key_to_script_key(VirtualKeyCode::Subtract), Ok(Key::Minus));
    assert_eq!(glutin_key_to_script_key(VirtualKeyCode::Minus), Ok(Key::Minus));
}

#[test]
fn unmapped_keys_are_errors() {
    assert_eq!(glutin_key_to_script_key(VirtualKeyCode::F1), Err(()));
    assert_eq!(glutin_key_to_script_key(VirtualKeyCode::Snapshot), Err(()));
    assert_eq!(glutin_key_to_script_key(VirtualKeyCode::LMenu), Err(()));
    assert_eq!(glutin_key_to_script_key(VirtualKeyCode::Yen), Err(()));
}

#[test]
fn nonprintable_keys_drop_their_character() {
    assert_eq!(filter_nonprintable('a', VirtualKeyCode::Escape), None);
    assert_eq!(filter_nonprintable('a', VirtualKeyCode::F12), None);
    assert_eq!(filter_nonprintable('x', VirtualKeyCode::LShift), None);
    assert_eq!(filter_nonprintable('x', VirtualKeyCode::WebStop), None);
    assert_eq!(filter_nonprintable('a', VirtualKeyCode::A), Some('a'));
    assert_eq!(filter_nonprintable(' ', VirtualKeyCode::Space), Some(' '));
    assert_eq!(filter_nonprintable('\t', VirtualKeyCode::Tab), Some('\t'));
}

#[test]
fn control_characters_match_std() {
    for v in 0u32..=0x10ffff {
        if let Some(c) = char::from_u32(v) {
            assert_eq!(char_is_control(c), c.is_control(), "at U+{:04X}", v);
        }
    }
}

#[test]
fn modifier_keys_map_to_their_flags() {
    assert_eq!(modifier_for_key(VirtualKeyCode::LControl), Some(LEFT_CONTROL));
    assert_eq!(modifier_for_key(VirtualKeyCode::RControl), Some(RIGHT_CONTROL));
    assert_eq!(modifier_for_key(VirtualKeyCode::LShift), Some(LEFT_SHIFT));
    assert_eq!(modifier_for_key(VirtualKeyCode::RShift), Some(RIGHT_SHIFT));
    assert_eq!(modifier_for_key(VirtualKeyCode::LAlt), Some(LEFT_ALT));
    assert_eq!(modifier_for_key(VirtualKeyCode::RAlt), Some(RIGHT_ALT));
    assert_eq!(modifier_for_key(VirtualKeyCode::LWin), Some(LEFT_SUPER));
    assert_eq!(modifier_for_key(VirtualKeyCode::RWin), Some(RIGHT_SUPER));
    assert_eq!(modifier_for_key(VirtualKeyCode::LMenu), None);
    assert_eq!(modifier_for_key(VirtualKeyCode::A), None);
}

#[test]
fn toggling_twice_restores() {
    let mut m = KeyModifiers::empty();
    m.toggle(LEFT_SHIFT);
    assert_eq!(m.bits, LEFT_SHIFT);
    m.toggle(RIGHT_ALT);
    assert_eq!(m.bits, LEFT_SHIFT | RIGHT_ALT);
    m.toggle(LEFT_SHIFT);
    assert_eq!(m.bits, RIGHT_ALT);
    m.toggle(RIGHT_ALT);
    assert_eq!(m, KeyModifiers::empty());
}

#[test]
fn either_side_gives_the_script_flag() {
    assert_eq!(glutin_mods_to_script_mods(KeyModifiers { bits: 0 }), ScriptKeyModifiers { bits: 0 });
    assert_eq!(glutin_mods_to_script_mods(KeyModifiers { bits: LEFT_SHIFT }).bits, SHIFT);
    assert_eq!(glutin_mods_to_script_mods(KeyModifiers { bits: RIGHT_SHIFT }).bits, SHIFT);
    assert_eq!(glutin_mods_to_script_mods(KeyModifiers { bits: RIGHT_CONTROL }).bits, CONTROL);
    assert_eq!(glutin_mods_to_script_mods(KeyModifiers { bits: LEFT_ALT | RIGHT_ALT }).bits, ALT);
    assert_eq!(glutin_mods_to_script_mods(KeyModifiers { bits: LEFT_SUPER }).bits, SUPER);
    assert_eq!(glutin_mods_to_script_mods(KeyModifiers { bits: 0xff }).bits, SHIFT | CONTROL | ALT | SUPER);
    assert_eq!(
        glutin_mods_to_script_mods(KeyModifiers { bits: LEFT_CONTROL | RIGHT_SUPER }).bits,
        CONTROL | SUPER
    );
}

#[test]
fn script_modifier_sets_grow_by_insert() {
    let mut s = ScriptKeyModifiers::empty();
    s.insert(ALT);
    s.insert(SHIFT);
    s.insert(ALT);
    assert_eq!(s.bits, ALT | SHIFT);
}
