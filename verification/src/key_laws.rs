//! What the key tables are for: each windowing-system key code reaches the
//! script key of its own name, and keys that type text keep their character.
use vstd::prelude::*;
use crate::keys::{is_nonprintable_key, spec_filter_nonprintable, spec_script_key, Key, VirtualKeyCode};

verus! {

/// The key code that carries a script key's name (for `Minus`, the main-keyboard minus key).
pub open spec fn named_key_code(k: Key) -> VirtualKeyCode {
    match k {
        Key::A => VirtualKeyCode::A,
        Key::B => VirtualKeyCode::B,
        Key::C => VirtualKeyCode::C,
        Key::D => VirtualKeyCode::D,
        Key::E => VirtualKeyCode::E,
        Key::F => VirtualKeyCode::F,
        Key::G => VirtualKeyCode::G,
        Key::H => VirtualKeyCode::H,
        Key::I => VirtualKeyCode::I,
        Key::J => VirtualKeyCode::J,
        Key::K => VirtualKeyCode::K,
        Key::L => VirtualKeyCode::L,
        Key::M => VirtualKeyCode::M,
        Key::N => VirtualKeyCode::N,
        Key::O => VirtualKeyCode::O,
        Key::P => VirtualKeyCode::P,
        Key::Q => VirtualKeyCode::Q,
        Key::R => VirtualKeyCode::R,
        Key::S => VirtualKeyCode::S,
        Key::T => VirtualKeyCode::T,
        Key::U => VirtualKeyCode::U,
        Key::V => VirtualKeyCode::V,
        Key::W => VirtualKeyCode::W,
        Key::X => VirtualKeyCode::X,
        Key::Y => VirtualKeyCode::Y,
        Key::Z => VirtualKeyCode::Z,
        Key::Kp0 => VirtualKeyCode::Numpad0,
        Key::Kp1 => VirtualKeyCode::Numpad1,
        Key::Kp2 => VirtualKeyCode::Numpad2,
        Key::Kp3 => VirtualKeyCode::Numpad3,
        Key::Kp4 => VirtualKeyCode::Numpad4,
        Key::Kp5 => VirtualKeyCode::Numpad5,
        Key::Kp6 => VirtualKeyCode::Numpad6,
        Key::Kp7 => VirtualKeyCode::Numpad7,
        Key::Kp8 => VirtualKeyCode::Numpad8,
        Key::Kp9 => VirtualKeyCode::Numpad9,
        Key::Num0 => VirtualKeyCode::Key0,
        Key::Num1 => VirtualKeyCode::Key1,
        Key::Num2 => VirtualKeyCode::Key2,
        Key::Num3 => VirtualKeyCode::Key3,
        Key::Num4 => VirtualKeyCode::Key4,
        Key::Num5 => VirtualKeyCode::Key5,
        Key::Num6 => VirtualKeyCode::Key6,
        Key::Num7 => VirtualKeyCode::Key7,
        Key::Num8 => VirtualKeyCode::Key8,
        Key::Num9 => VirtualKeyCode::Key9,
        Key::Enter => VirtualKeyCode::Return,
        Key::Space => VirtualKeyCode::Space,
        Key::Escape => VirtualKeyCode::Escape,
        Key::Equal => VirtualKeyCode::Equals,
        Key::Minus => VirtualKeyCode::Minus,
        Key::Backspace => VirtualKeyCode::Back,
        Key::PageDown => VirtualKeyCode::PageDown,
        Key::PageUp => VirtualKeyCode::PageUp,
        Key::Insert => VirtualKeyCode::Insert,
        Key::Home => VirtualKeyCode::Home,
        Key::Delete => VirtualKeyCode::Delete,
        Key::End => VirtualKeyCode::End,
        Key::Left => VirtualKeyCode::Left,
        Key::Up => VirtualKeyCode::Up,
        Key::Right => VirtualKeyCode::Right,
        Key::Down => VirtualKeyCode::Down,
        Key::LeftShift => VirtualKeyCode::LShift,
        Key::LeftControl => VirtualKeyCode::LControl,
        Key::LeftAlt => VirtualKeyCode::LAlt,
        Key::LeftSuper => VirtualKeyCode::LWin,
        Key::RightShift => VirtualKeyCode::RShift,
        Key::RightControl => VirtualKeyCode::RControl,
        Key::RightAlt => VirtualKeyCode::RAlt,
        Key::RightSuper => VirtualKeyCode::RWin,
        Key::Apostrophe => VirtualKeyCode::Apostrophe,
        Key::Backslash => VirtualKeyCode::Backslash,
        Key::Comma => VirtualKeyCode::Comma,
        Key::GraveAccent => VirtualKeyCode::Grave,
        Key::LeftBracket => VirtualKeyCode::LBracket,
        Key::Period => VirtualKeyCode::Period,
        Key::RightBracket => VirtualKeyCode::RBracket,
        Key::Semicolon => VirtualKeyCode::Semicolon,
        Key::Slash => VirtualKeyCode::Slash,
        Key::Tab => VirtualKeyCode::Tab,
        Key::NavigateBackward => VirtualKeyCode::NavigateBackward,
        Key::NavigateForward => VirtualKeyCode::NavigateForward,
    }
}

/// Every script key is reached from the key code that carries its name.
pub proof fn lemma_every_script_key_comes_from_its_own_key_code(k: Key)
    ensures
        spec_script_key(named_key_code(k)) == Ok::<Key, ()>(k),
{
}

/// A key code reaches only the script key of its own name; the one key
/// reached from two codes is `Minus`, from the main-keyboard minus key and
/// from the keypad subtract key.
pub proof fn lemma_key_codes_keep_their_names(code: VirtualKeyCode)
    ensures
        match spec_script_key(code) {
            Ok(k) => code == named_key_code(k) || (code == VirtualKeyCode::Subtract && k == Key::Minus),
            Err(_) => true,
        },
{
}

/// Two different key codes reach the same script key only when they are the
/// two minus keys.
pub proof fn lemma_script_key_translation_injective(a: VirtualKeyCode, b: VirtualKeyCode)
    requires
        a != b,
        spec_script_key(a) is Ok,
        spec_script_key(a) == spec_script_key(b),
    ensures
        (a == VirtualKeyCode::Minus && b == VirtualKeyCode::Subtract)
            || (a == VirtualKeyCode::Subtract && b == VirtualKeyCode::Minus),
{
    lemma_key_codes_keep_their_names(a);
    lemma_key_codes_keep_their_names(b);
}

/// The arrow keys, which scroll the page, are passed on as themselves.
pub proof fn lemma_arrow_keys_are_themselves()
    ensures
        spec_script_key(VirtualKeyCode::Up) == Ok::<Key, ()>(Key::Up),
        spec_script_key(VirtualKeyCode::Down) == Ok::<Key, ()>(Key::Down),
        spec_script_key(VirtualKeyCode::Left) == Ok::<Key, ()>(Key::Left),
        spec_script_key(VirtualKeyCode::Right) == Ok::<Key, ()>(Key::Right),
{
}

/// Keys that type text: letters, digits on the main keyboard and the keypad,
/// space, tab, return, punctuation and the keypad operators.
pub open spec fn is_text_key(code: VirtualKeyCode) -> bool {
    match code {
        VirtualKeyCode::A | VirtualKeyCode::B | VirtualKeyCode::C | VirtualKeyCode::D |
        VirtualKeyCode::E | VirtualKeyCode::F | VirtualKeyCode::G | VirtualKeyCode::H |
        VirtualKeyCode::I | VirtualKeyCode::J | VirtualKeyCode::K | VirtualKeyCode::L |
        VirtualKeyCode::M | VirtualKeyCode::N | VirtualKeyCode::O | VirtualKeyCode::P |
        VirtualKeyCode::Q | VirtualKeyCode::R | VirtualKeyCode::S | VirtualKeyCode::T |
        VirtualKeyCode::U | VirtualKeyCode::V | VirtualKeyCode::W | VirtualKeyCode::X |
        VirtualKeyCode::Y | VirtualKeyCode::Z | VirtualKeyCode::Key0 | VirtualKeyCode::Key1 |
        VirtualKeyCode::Key2 | VirtualKeyCode::Key3 | VirtualKeyCode::Key4 | VirtualKeyCode::Key5 |
        VirtualKeyCode::Key6 | VirtualKeyCode::Key7 | VirtualKeyCode::Key8 | VirtualKeyCode::Key9 |
        VirtualKeyCode::Numpad0 | VirtualKeyCode::Numpad1 | VirtualKeyCode::Numpad2 | VirtualKeyCode::Numpad3 |
        VirtualKeyCode::Numpad4 | VirtualKeyCode::Numpad5 | VirtualKeyCode::Numpad6 | VirtualKeyCode::Numpad7 |
        VirtualKeyCode::Numpad8 | VirtualKeyCode::Numpad9 | VirtualKeyCode::Space | VirtualKeyCode::Tab |
        VirtualKeyCode::Return | VirtualKeyCode::Apostrophe | VirtualKeyCode::Backslash | VirtualKeyCode::Comma |
        VirtualKeyCode::Equals | VirtualKeyCode::Grave | VirtualKeyCode::LBracket | VirtualKeyCode::RBracket |
        VirtualKeyCode::Minus | VirtualKeyCode::Period | VirtualKeyCode::Semicolon | VirtualKeyCode::Slash |
        VirtualKeyCode::Colon | VirtualKeyCode::At | VirtualKeyCode::Underline | VirtualKeyCode::Add |
        VirtualKeyCode::Subtract | VirtualKeyCode::Multiply | VirtualKeyCode::Divide | VirtualKeyCode::Decimal |
        VirtualKeyCode::NumpadComma | VirtualKeyCode::NumpadEquals | VirtualKeyCode::NumpadEnter | VirtualKeyCode::Yen => true,
        _ => false,
    }
}

/// Function keys F1 to F15.
pub open spec fn is_function_key(code: VirtualKeyCode) -> bool {
    match code {
        VirtualKeyCode::F1 | VirtualKeyCode::F2 | VirtualKeyCode::F3 | VirtualKeyCode::F4 |
        VirtualKeyCode::F5 | VirtualKeyCode::F6 | VirtualKeyCode::F7 | VirtualKeyCode::F8 |
        VirtualKeyCode::F9 | VirtualKeyCode::F10 | VirtualKeyCode::F11 | VirtualKeyCode::F12 |
        VirtualKeyCode::F13 | VirtualKeyCode::F14 | VirtualKeyCode::F15 => true,
        _ => false,
    }
}

/// Modifier keys: Alt, Control, Shift, Windows and Menu, on either side.
pub open spec fn is_modifier_key(code: VirtualKeyCode) -> bool {
    match code {
        VirtualKeyCode::LAlt | VirtualKeyCode::RAlt | VirtualKeyCode::LControl | VirtualKeyCode::RControl |
        VirtualKeyCode::LShift | VirtualKeyCode::RShift | VirtualKeyCode::LWin | VirtualKeyCode::RWin |
        VirtualKeyCode::LMenu | VirtualKeyCode::RMenu => true,
        _ => false,
    }
}

/// Keys that move or edit: arrows, Home, End, page keys, Insert, Delete,
/// Backspace and Escape.
pub open spec fn is_editing_or_navigation_key(code: VirtualKeyCode) -> bool {
    match code {
        VirtualKeyCode::Left | VirtualKeyCode::Up | VirtualKeyCode::Right | VirtualKeyCode::Down |
        VirtualKeyCode::Home | VirtualKeyCode::End | VirtualKeyCode::PageUp | VirtualKeyCode::PageDown |
        VirtualKeyCode::Insert | VirtualKeyCode::Delete | VirtualKeyCode::Back | VirtualKeyCode::Escape => true,
        _ => false,
    }
}

/// System, media and browser keys.
pub open spec fn is_system_media_or_browser_key(code: VirtualKeyCode) -> bool {
    match code {
        VirtualKeyCode::Snapshot | VirtualKeyCode::Scroll | VirtualKeyCode::Pause | VirtualKeyCode::Mail |
        VirtualKeyCode::MediaSelect | VirtualKeyCode::MediaStop | VirtualKeyCode::Mute | VirtualKeyCode::MyComputer |
        VirtualKeyCode::NavigateForward | VirtualKeyCode::NavigateBackward | VirtualKeyCode::NextTrack | VirtualKeyCode::NoConvert |
        VirtualKeyCode::PlayPause | VirtualKeyCode::Power | VirtualKeyCode::PrevTrack | VirtualKeyCode::Sleep |
        VirtualKeyCode::Stop | VirtualKeyCode::VolumeDown | VirtualKeyCode::VolumeUp | VirtualKeyCode::Wake |
        VirtualKeyCode::WebBack | VirtualKeyCode::WebFavorites | VirtualKeyCode::WebForward | VirtualKeyCode::WebHome |
        VirtualKeyCode::WebRefresh | VirtualKeyCode::WebSearch | VirtualKeyCode::WebStop => true,
        _ => false,
    }
}

/// A key that types text keeps the character that came with it.
pub proof fn lemma_text_keys_keep_their_character(ch: char, code: VirtualKeyCode)
    requires
        is_text_key(code),
    ensures
        spec_filter_nonprintable(ch, code) == Some(ch),
{
}

/// Function, modifier, editing, navigation, system, media and browser keys
/// drop the character that came with them.
pub proof fn lemma_control_keys_drop_their_character(ch: char, code: VirtualKeyCode)
    requires
        is_function_key(code) || is_modifier_key(code) || is_editing_or_navigation_key(code)
            || is_system_media_or_browser_key(code),
    ensures
        spec_filter_nonprintable(ch, code) is None,
{
}

/// The filter never makes up a character: it passes on the one it was given
/// or none.
pub proof fn lemma_filter_passes_its_character_or_none(ch: char, code: VirtualKeyCode)
    ensures
        spec_filter_nonprintable(ch, code) == Some(ch) || spec_filter_nonprintable(ch, code) is None,
        spec_filter_nonprintable(ch, code) is None <==> is_nonprintable_key(code),
{
}

} // verus!
