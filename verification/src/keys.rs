//! Key codes as the windowing system reports them, the keys that the
//! script side understands, and the translation between the two.
use vstd::prelude::*;

verus! {

/// A key code as reported by the windowing system for a keyboard event.
#[derive(Clone, Copy, Debug, PartialEq, Eq)]
pub enum VirtualKeyCode {
    Key1,
    Key2,
    Key3,
    Key4,
    Key5,
    Key6,
    Key7,
    Key8,
    Key9,
    Key0,
    A,
    B,
    C,
    D,
    E,
    F,
    G,
    H,
    I,
    J,
    K,
    L,
    M,
    N,
    O,
    P,
    Q,
    R,
    S,
    T,
    U,
    V,
    W,
    X,
    Y,
    Z,
    Escape,
    F1,
    F2,
    F3,
    F4,
    F5,
    F6,
    F7,
    F8,
    F9,
    F10,
    F11,
    F12,
    F13,
    F14,
    F15,
    Snapshot,
    Scroll,
    Pause,
    Insert,
    Home,
    Delete,
    End,
    PageDown,
    PageUp,
    Left,
    Up,
    Right,
    Down,
    Back,
    Return,
    Space,
    Numlock,
    Numpad0,
    Numpad1,
    Numpad2,
    Numpad3,
    Numpad4,
    Numpad5,
    Numpad6,
    Numpad7,
    Numpad8,
    Numpad9,
    AbntC1,
    AbntC2,
    Add,
    Apostrophe,
    Apps,
    At,
    Ax,
    Backslash,
    Calculator,
    Capital,
    Colon,
    Comma,
    Convert,
    Decimal,
    Divide,
    Equals,
    Grave,
    Kana,
    Kanji,
    LAlt,
    LBracket,
    LControl,
    LMenu,
    LShift,
    LWin,
    Mail,
    MediaSelect,
    MediaStop,
    Minus,
    Multiply,
    Mute,
    MyComputer,
    NavigateForward,
    NavigateBackward,
    NextTrack,
    NoConvert,
    NumpadComma,
    NumpadEnter,
    NumpadEquals,
    OEM102,
    Period,
    PlayPause,
    Power,
    PrevTrack,
    RAlt,
    RBracket,
    RControl,
    RMenu,
    RShift,
    RWin,
    Semicolon,
    Slash,
    Sleep,
    Stop,
    Subtract,
    Sysrq,
    Tab,
    Underline,
    Unlabeled,
    VolumeDown,
    VolumeUp,
    Wake,
    WebBack,
    WebFavorites,
    WebForward,
    WebHome,
    WebRefresh,
    WebSearch,
    WebStop,
    Yen,
}

/// A key as the script side names it.
#[derive(Clone, Copy, Debug, PartialEq, Eq, Structural)]
pub enum Key {
    A,
    B,
    C,
    D,
    E,
    F,
    G,
    H,
    I,
    J,
    K,
    L,
    M,
    N,
    O,
    P,
    Q,
    R,
    S,
    T,
    U,
    V,
    W,
    X,
    Y,
    Z,
    Kp0,
    Kp1,
    Kp2,
    Kp3,
    Kp4,
    Kp5,
    Kp6,
    Kp7,
    Kp8,
    Kp9,
    Num0,
    Num1,
    Num2,
    Num3,
    Num4,
    Num5,
    Num6,
    Num7,
    Num8,
    Num9,
    Enter,
    Space,
    Escape,
    Equal,
    Minus,
    Backspace,
    PageDown,
    PageUp,
    Insert,
    Home,
    Delete,
    End,
    Left,
    Up,
    Right,
    Down,
    LeftShift,
    LeftControl,
    LeftAlt,
    LeftSuper,
    RightShift,
    RightControl,
    RightAlt,
    RightSuper,
    Apostrophe,
    Backslash,
    Comma,
    GraveAccent,
    LeftBracket,
    Period,
    RightBracket,
    Semicolon,
    Slash,
    Tab,
    NavigateBackward,
    NavigateForward,
}

/// The script key that a key code stands for, or `Err(())` for key codes
/// that have no script key.
pub open spec fn spec_script_key(code: VirtualKeyCode) -> Result<Key, ()> {
    match code {
        VirtualKeyCode::A => Ok(Key::A),
        VirtualKeyCode::B => Ok(Key::B),
        VirtualKeyCode::C => Ok(Key::C),
        VirtualKeyCode::D => Ok(Key::D),
        VirtualKeyCode::E => Ok(Key::E),
        VirtualKeyCode::F => Ok(Key::F),
        VirtualKeyCode::G => Ok(Key::G),
        VirtualKeyCode::H => Ok(Key::H),
        VirtualKeyCode::I => Ok(Key::I),
        VirtualKeyCode::J => Ok(Key::J),
        VirtualKeyCode::K => Ok(Key::K),
        VirtualKeyCode::L => Ok(Key::L),
        VirtualKeyCode::M => Ok(Key::M),
        VirtualKeyCode::N => Ok(Key::N),
        VirtualKeyCode::O => Ok(Key::O),
        VirtualKeyCode::P => Ok(Key::P),
        VirtualKeyCode::Q => Ok(Key::Q),
        VirtualKeyCode::R => Ok(Key::R),
        VirtualKeyCode::S => Ok(Key::S),
        VirtualKeyCode::T => Ok(Key::T),
        VirtualKeyCode::U => Ok(Key::U),
        VirtualKeyCode::V => Ok(Key::V),
        VirtualKeyCode::W => Ok(Key::W),
        VirtualKeyCode::X => Ok(Key::X),
        VirtualKeyCode::Y => Ok(Key::Y),
        VirtualKeyCode::Z => Ok(Key::Z),
        VirtualKeyCode::Numpad0 => Ok(Key::Kp0),
        VirtualKeyCode::Numpad1 => Ok(Key::Kp1),
        VirtualKeyCode::Numpad2 => Ok(Key::Kp2),
        VirtualKeyCode::Numpad3 => Ok(Key::Kp3),
        VirtualKeyCode::Numpad4 => Ok(Key::Kp4),
        VirtualKeyCode::Numpad5 => Ok(Key::Kp5),
        VirtualKeyCode::Numpad6 => Ok(Key::Kp6),
        VirtualKeyCode::Numpad7 => Ok(Key::Kp7),
        VirtualKeyCode::Numpad8 => Ok(Key::Kp8),
        VirtualKeyCode::Numpad9 => Ok(Key::Kp9),
        VirtualKeyCode::Key0 => Ok(Key::Num0),
        VirtualKeyCode::Key1 => Ok(Key::Num1),
        VirtualKeyCode::Key2 => Ok(Key::Num2),
        VirtualKeyCode::Key3 => Ok(Key::Num3),
        VirtualKeyCode::Key4 => Ok(Key::Num4),
        VirtualKeyCode::Key5 => Ok(Key::Num5),
        VirtualKeyCode::Key6 => Ok(Key::Num6),
        VirtualKeyCode::Key7 => Ok(Key::Num7),
        VirtualKeyCode::Key8 => Ok(Key::Num8),
        VirtualKeyCode::Key9 => Ok(Key::Num9),
        VirtualKeyCode::Return => Ok(Key::Enter),
        VirtualKeyCode::Space => Ok(Key::Space),
        VirtualKeyCode::Escape => Ok(Key::Escape),
        VirtualKeyCode::Equals => Ok(Key::Equal),
        VirtualKeyCode::Minus => Ok(Key::Minus),
        VirtualKeyCode::Back => Ok(Key::Backspace),
        VirtualKeyCode::PageDown => Ok(Key::PageDown),
        VirtualKeyCode::PageUp => Ok(Key::PageUp),
        VirtualKeyCode::Insert => Ok(Key::Insert),
        VirtualKeyCode::Home => Ok(Key::Home),
        VirtualKeyCode::Delete => Ok(Key::Delete),
        VirtualKeyCode::End => Ok(Key::End),
        VirtualKeyCode::Left => Ok(Key::Left),
        VirtualKeyCode::Up => Ok(Key::Up),
        VirtualKeyCode::Right => Ok(Key::Right),
        VirtualKeyCode::Down => Ok(Key::Down),
        VirtualKeyCode::LShift => Ok(Key::LeftShift),
        VirtualKeyCode::LControl => Ok(Key::LeftControl),
        VirtualKeyCode::LAlt => Ok(Key::LeftAlt),
        VirtualKeyCode::LWin => Ok(Key::LeftSuper),
        VirtualKeyCode::RShift => Ok(Key::RightShift),
        VirtualKeyCode::RControl => Ok(Key::RightControl),
        VirtualKeyCode::RAlt => Ok(Key::RightAlt),
        VirtualKeyCode::RWin => Ok(Key::RightSuper),
        VirtualKeyCode::Apostrophe => Ok(Key::Apostrophe),
        VirtualKeyCode::Backslash => Ok(Key::Backslash),
        VirtualKeyCode::Comma => Ok(Key::Comma),
        VirtualKeyCode::Grave => Ok(Key::GraveAccent),
        VirtualKeyCode::LBracket => Ok(Key::LeftBracket),
        VirtualKeyCode::Period => Ok(Key::Period),
        VirtualKeyCode::RBracket => Ok(Key::RightBracket),
        VirtualKeyCode::Semicolon => Ok(Key::Semicolon),
        VirtualKeyCode::Slash => Ok(Key::Slash),
        VirtualKeyCode::Tab => Ok(Key::Tab),
        VirtualKeyCode::Subtract => Ok(Key::Minus),
        VirtualKeyCode::NavigateBackward => Ok(Key::NavigateBackward),
        VirtualKeyCode::NavigateForward => Ok(Key::NavigateForward),
        _ => Err(()),
    }
}

/// Translates a windowing-system key code into the script-side key.
pub fn glutin_key_to_script_key(key: VirtualKeyCode) -> (r: Result<Key, ()>)
    ensures
        r == spec_script_key(key),
{
    match key {
        VirtualKeyCode::A => Ok(Key::A),
        VirtualKeyCode::B => Ok(Key::B),
        VirtualKeyCode::C => Ok(Key::C),
        VirtualKeyCode::D => Ok(Key::D),
        VirtualKeyCode::E => Ok(Key::E),
        VirtualKeyCode::F => Ok(Key::F),
        VirtualKeyCode::G => Ok(Key::G),
        VirtualKeyCode::H => Ok(Key::H),
        VirtualKeyCode::I => Ok(Key::I),
        VirtualKeyCode::J => Ok(Key::J),
        VirtualKeyCode::K => Ok(Key::K),
        VirtualKeyCode::L => Ok(Key::L),
        VirtualKeyCode::M => Ok(Key::M),
        VirtualKeyCode::N => Ok(Key::N),
        VirtualKeyCode::O => Ok(Key::O),
        VirtualKeyCode::P => Ok(Key::P),
        VirtualKeyCode::Q => Ok(Key::Q),
        VirtualKeyCode::R => Ok(Key::R),
        VirtualKeyCode::S => Ok(Key::S),
        VirtualKeyCode::T => Ok(Key::T),
        VirtualKeyCode::U => Ok(Key::U),
        VirtualKeyCode::V => Ok(Key::V),
        VirtualKeyCode::W => Ok(Key::W),
        VirtualKeyCode::X => Ok(Key::X),
        VirtualKeyCode::Y => Ok(Key::Y),
        VirtualKeyCode::Z => Ok(Key::Z),
        VirtualKeyCode::Numpad0 => Ok(Key::Kp0),
        VirtualKeyCode::Numpad1 => Ok(Key::Kp1),
        VirtualKeyCode::Numpad2 => Ok(Key::Kp2),
        VirtualKeyCode::Numpad3 => Ok(Key::Kp3),
        VirtualKeyCode::Numpad4 => Ok(Key::Kp4),
        VirtualKeyCode::Numpad5 => Ok(Key::Kp5),
        VirtualKeyCode::Numpad6 => Ok(Key::Kp6),
        VirtualKeyCode::Numpad7 => Ok(Key::Kp7),
        VirtualKeyCode::Numpad8 => Ok(Key::Kp8),
        VirtualKeyCode::Numpad9 => Ok(Key::Kp9),
        VirtualKeyCode::Key0 => Ok(Key::Num0),
        VirtualKeyCode::Key1 => Ok(Key::Num1),
        VirtualKeyCode::Key2 => Ok(Key::Num2),
        VirtualKeyCode::Key3 => Ok(Key::Num3),
        VirtualKeyCode::Key4 => Ok(Key::Num4),
        VirtualKeyCode::Key5 => Ok(Key::Num5),
        VirtualKeyCode::Key6 => Ok(Key::Num6),
        VirtualKeyCode::Key7 => Ok(Key::Num7),
        VirtualKeyCode::Key8 => Ok(Key::Num8),
        VirtualKeyCode::Key9 => Ok(Key::Num9),
        VirtualKeyCode::Return => Ok(Key::Enter),
        VirtualKeyCode::Space => Ok(Key::Space),
        VirtualKeyCode::Escape => Ok(Key::Escape),
        VirtualKeyCode::Equals => Ok(Key::Equal),
        VirtualKeyCode::Minus => Ok(Key::Minus),
        VirtualKeyCode::Back => Ok(Key::Backspace),
        VirtualKeyCode::PageDown => Ok(Key::PageDown),
        VirtualKeyCode::PageUp => Ok(Key::PageUp),
        VirtualKeyCode::Insert => Ok(Key::Insert),
        VirtualKeyCode::Home => Ok(Key::Home),
        VirtualKeyCode::Delete => Ok(Key::Delete),
        VirtualKeyCode::End => Ok(Key::End),
        VirtualKeyCode::Left => Ok(Key::Left),
        VirtualKeyCode::Up => Ok(Key::Up),
        VirtualKeyCode::Right => Ok(Key::Right),
        VirtualKeyCode::Down => Ok(Key::Down),
        VirtualKeyCode::LShift => Ok(Key::LeftShift),
        VirtualKeyCode::LControl => Ok(Key::LeftControl),
        VirtualKeyCode::LAlt => Ok(Key::LeftAlt),
        VirtualKeyCode::LWin => Ok(Key::LeftSuper),
        VirtualKeyCode::RShift => Ok(Key::RightShift),
        VirtualKeyCode::RControl => Ok(Key::RightControl),
        VirtualKeyCode::RAlt => Ok(Key::RightAlt),
        VirtualKeyCode::RWin => Ok(Key::RightSuper),
        VirtualKeyCode::Apostrophe => Ok(Key::Apostrophe),
        VirtualKeyCode::Backslash => Ok(Key::Backslash),
        VirtualKeyCode::Comma => Ok(Key::Comma),
        VirtualKeyCode::Grave => Ok(Key::GraveAccent),
        VirtualKeyCode::LBracket => Ok(Key::LeftBracket),
        VirtualKeyCode::Period => Ok(Key::Period),
        VirtualKeyCode::RBracket => Ok(Key::RightBracket),
        VirtualKeyCode::Semicolon => Ok(Key::Semicolon),
        VirtualKeyCode::Slash => Ok(Key::Slash),
        VirtualKeyCode::Tab => Ok(Key::Tab),
        VirtualKeyCode::Subtract => Ok(Key::Minus),
        VirtualKeyCode::NavigateBackward => Ok(Key::NavigateBackward),
        VirtualKeyCode::NavigateForward => Ok(Key::NavigateForward),
        _ => Err(()),
    }
}

/// Whether a key code belongs to a key that never produces printable text
/// (function, navigation, modifier, media and browser keys).
pub open spec fn is_nonprintable_key(code: VirtualKeyCode) -> bool {
    match code {
        VirtualKeyCode::Escape | VirtualKeyCode::F1 | VirtualKeyCode::F2 | VirtualKeyCode::F3 |
        VirtualKeyCode::F4 | VirtualKeyCode::F5 | VirtualKeyCode::F6 | VirtualKeyCode::F7 |
        VirtualKeyCode::F8 | VirtualKeyCode::F9 | VirtualKeyCode::F10 | VirtualKeyCode::F11 |
        VirtualKeyCode::F12 | VirtualKeyCode::F13 | VirtualKeyCode::F14 | VirtualKeyCode::F15 |
        VirtualKeyCode::Snapshot | VirtualKeyCode::Scroll | VirtualKeyCode::Pause | VirtualKeyCode::Insert |
        VirtualKeyCode::Home | VirtualKeyCode::Delete | VirtualKeyCode::End | VirtualKeyCode::PageDown |
        VirtualKeyCode::PageUp | VirtualKeyCode::Left | VirtualKeyCode::Up | VirtualKeyCode::Right |
        VirtualKeyCode::Down | VirtualKeyCode::Back | VirtualKeyCode::LAlt | VirtualKeyCode::LControl |
        VirtualKeyCode::LMenu | VirtualKeyCode::LShift | VirtualKeyCode::LWin | VirtualKeyCode::Mail |
        VirtualKeyCode::MediaSelect | VirtualKeyCode::MediaStop | VirtualKeyCode::Mute | VirtualKeyCode::MyComputer |
        VirtualKeyCode::NavigateForward | VirtualKeyCode::NavigateBackward | VirtualKeyCode::NextTrack | VirtualKeyCode::NoConvert |
        VirtualKeyCode::PlayPause | VirtualKeyCode::Power | VirtualKeyCode::PrevTrack | VirtualKeyCode::RAlt |
        VirtualKeyCode::RControl | VirtualKeyCode::RMenu | VirtualKeyCode::RShift | VirtualKeyCode::RWin |
        VirtualKeyCode::Sleep | VirtualKeyCode::Stop | VirtualKeyCode::VolumeDown | VirtualKeyCode::VolumeUp |
        VirtualKeyCode::Wake | VirtualKeyCode::WebBack | VirtualKeyCode::WebFavorites | VirtualKeyCode::WebForward |
        VirtualKeyCode::WebHome | VirtualKeyCode::WebRefresh | VirtualKeyCode::WebSearch | VirtualKeyCode::WebStop => true,
        _ => false,
    }
}

/// The character that a key keeps: none for a non-printable key, its own otherwise.
pub open spec fn spec_filter_nonprintable(ch: char, key_code: VirtualKeyCode) -> Option<char> {
    if is_nonprintable_key(key_code) { None } else { Some(ch) }
}

/// Drops the character that came with a non-printable key; keeps it otherwise.
pub fn filter_nonprintable(ch: char, key_code: VirtualKeyCode) -> (r: Option<char>)
    ensures
        r == spec_filter_nonprintable(ch, key_code),
        r == (if is_nonprintable_key(key_code) { None } else { Some(ch) }),
{
    match key_code {
        VirtualKeyCode::Escape | VirtualKeyCode::F1 | VirtualKeyCode::F2 | VirtualKeyCode::F3 |
        VirtualKeyCode::F4 | VirtualKeyCode::F5 | VirtualKeyCode::F6 | VirtualKeyCode::F7 |
        VirtualKeyCode::F8 | VirtualKeyCode::F9 | VirtualKeyCode::F10 | VirtualKeyCode::F11 |
        VirtualKeyCode::F12 | VirtualKeyCode::F13 | VirtualKeyCode::F14 | VirtualKeyCode::F15 |
        VirtualKeyCode::Snapshot | VirtualKeyCode::Scroll | VirtualKeyCode::Pause | VirtualKeyCode::Insert |
        VirtualKeyCode::Home | VirtualKeyCode::Delete | VirtualKeyCode::End | VirtualKeyCode::PageDown |
        VirtualKeyCode::PageUp | VirtualKeyCode::Left | VirtualKeyCode::Up | VirtualKeyCode::Right |
        VirtualKeyCode::Down | VirtualKeyCode::Back | VirtualKeyCode::LAlt | VirtualKeyCode::LControl |
        VirtualKeyCode::LMenu | VirtualKeyCode::LShift | VirtualKeyCode::LWin | VirtualKeyCode::Mail |
        VirtualKeyCode::MediaSelect | VirtualKeyCode::MediaStop | VirtualKeyCode::Mute | VirtualKeyCode::MyComputer |
        VirtualKeyCode::NavigateForward | VirtualKeyCode::NavigateBackward | VirtualKeyCode::NextTrack | VirtualKeyCode::NoConvert |
        VirtualKeyCode::PlayPause | VirtualKeyCode::Power | VirtualKeyCode::PrevTrack | VirtualKeyCode::RAlt |
        VirtualKeyCode::RControl | VirtualKeyCode::RMenu | VirtualKeyCode::RShift | VirtualKeyCode::RWin |
        VirtualKeyCode::Sleep | VirtualKeyCode::Stop | VirtualKeyCode::VolumeDown | VirtualKeyCode::VolumeUp |
        VirtualKeyCode::Wake | VirtualKeyCode::WebBack | VirtualKeyCode::WebFavorites | VirtualKeyCode::WebForward |
        VirtualKeyCode::WebHome | VirtualKeyCode::WebRefresh | VirtualKeyCode::WebSearch | VirtualKeyCode::WebStop => None,
        _ => Some(ch),
    }
}

} // verus!
