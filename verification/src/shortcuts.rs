//! The browser's keyboard shortcuts: zoom, navigation, scrolling, reload and quit.
use vstd::prelude::*;
use crate::events::{WindowEvent, WindowNavigateMsg, ZoomStep};
use crate::keys::Key;
use crate::modifiers::{ScriptKeyModifiers, ALT, CONTROL, NONE, SHIFT, SUPER};
use crate::window::{queued, WindowModel, WindowState};

verus! {

/// Every script-side modifier but Shift: Control, Alt and Super.
pub const ALL_BUT_SHIFT: u8 = 14;

/// The platform whose shortcut conventions apply: on macOS the Command key
/// takes the place of Control (and of Alt for history navigation).
#[derive(Clone, Copy, Debug, PartialEq, Eq)]
pub enum ShortcutPlatform {
    MacOs,
    Other,
}

/// The modifier of shortcuts that use Command on macOS and Control elsewhere.
pub open spec fn spec_cmd_or_control(p: ShortcutPlatform) -> u8 {
    match p {
        ShortcutPlatform::MacOs => SUPER,
        ShortcutPlatform::Other => CONTROL,
    }
}

/// The modifier of shortcuts that use Command on macOS and Alt elsewhere.
pub open spec fn spec_cmd_or_alt(p: ShortcutPlatform) -> u8 {
    match p {
        ShortcutPlatform::MacOs => SUPER,
        ShortcutPlatform::Other => ALT,
    }
}

/// The modifier of shortcuts that use Command on macOS and Control elsewhere.
pub fn cmd_or_control(p: ShortcutPlatform) -> (r: u8)
    ensures
        r == spec_cmd_or_control(p),
{
    match p {
        ShortcutPlatform::MacOs => SUPER,
        ShortcutPlatform::Other => CONTROL,
    }
}

/// The modifier of shortcuts that use Command on macOS and Alt elsewhere.
pub fn cmd_or_alt(p: ShortcutPlatform) -> (r: u8)
    ensures
        r == spec_cmd_or_alt(p),
{
    match p {
        ShortcutPlatform::MacOs => SUPER,
        ShortcutPlatform::Other => ALT,
    }
}

/// A scroll that a key asks for. With `L` the line height of 38 pixels and
/// `h` the framebuffer height, the deltas are: page down `(0, 2L - h)`,
/// page up `(0, h - 2L)`, line up `(0, 3L)`, line down `(0, -3L)`,
/// line left `(L, 0)`, line right `(-L, 0)`.
#[derive(Clone, Copy, Debug, PartialEq, Eq)]
pub enum KeyScroll {
    PageDown,
    PageUp,
    LineUp,
    LineDown,
    LineLeft,
    LineRight,
}

/// What a key event is bound to.
#[derive(Clone, Copy, Debug, PartialEq)]
pub enum KeyBinding {
    /// Hand this event to the compositor.
    Send(WindowEvent),
    /// Scroll the page.
    Scroll(KeyScroll),
    /// Nothing.
    Nothing,
}

/// The platform's own bindings, consulted when no general binding applies:
/// Command/Control with `[` and `]` go back and forward.
pub open spec fn spec_platform_key_binding(key: Key, mods: u8, p: ShortcutPlatform) -> KeyBinding {
    if mods == spec_cmd_or_control(p) && key == Key::LeftBracket {
        KeyBinding::Send(WindowEvent::Navigation(WindowNavigateMsg::Back))
    } else if mods == spec_cmd_or_control(p) && key == Key::RightBracket {
        KeyBinding::Send(WindowEvent::Navigation(WindowNavigateMsg::Forward))
    } else {
        KeyBinding::Nothing
    }
}

/// The binding of a key event with character `ch`, key `key` and modifier
/// bits `mods`, tried in order. `builtin_shortcuts` is the value of the
/// preference that enables the quit and reload shortcuts, which act only
/// when it is `Some(true)`.
pub open spec fn spec_key_binding(
    ch: Option<char>,
    key: Key,
    mods: u8,
    p: ShortcutPlatform,
    builtin_shortcuts: Option<bool>,
) -> KeyBinding {
    let c = spec_cmd_or_control(p);
    let ca = spec_cmd_or_alt(p);
    let enabled = builtin_shortcuts == Some(true);
    if ch == Some('+') {
        if mods & ALL_BUT_SHIFT == c {
            KeyBinding::Send(WindowEvent::Zoom(ZoomStep::In))
        } else if mods & ALL_BUT_SHIFT == c | ALT {
            KeyBinding::Send(WindowEvent::PinchZoom(ZoomStep::In))
        } else {
            KeyBinding::Nothing
        }
    } else if mods == c && ch == Some('-') {
        KeyBinding::Send(WindowEvent::Zoom(ZoomStep::Out))
    } else if ch == Some('-') && mods == c | ALT {
        KeyBinding::Send(WindowEvent::PinchZoom(ZoomStep::Out))
    } else if mods == c && ch == Some('0') {
        KeyBinding::Send(WindowEvent::ResetZoom)
    } else if mods == NONE && ch is None && key == Key::NavigateForward {
        KeyBinding::Send(WindowEvent::Navigation(WindowNavigateMsg::Forward))
    } else if mods == NONE && ch is None && key == Key::NavigateBackward {
        KeyBinding::Send(WindowEvent::Navigation(WindowNavigateMsg::Back))
    } else if mods == NONE && ch is None && key == Key::Escape {
        if enabled { KeyBinding::Send(WindowEvent::Quit) } else { KeyBinding::Nothing }
    } else if mods == ca && ch is None && key == Key::Right {
        KeyBinding::Send(WindowEvent::Navigation(WindowNavigateMsg::Forward))
    } else if mods == ca && ch is None && key == Key::Left {
        KeyBinding::Send(WindowEvent::Navigation(WindowNavigateMsg::Back))
    } else if (mods == NONE && ch is None && key == Key::PageDown) || (mods == NONE && ch == Some(' ')) {
        KeyBinding::Scroll(KeyScroll::PageDown)
    } else if (mods == NONE && ch is None && key == Key::PageUp) || (mods == SHIFT && ch == Some(' ')) {
        KeyBinding::Scroll(KeyScroll::PageUp)
    } else if mods == NONE && ch is None && key == Key::Up {
        KeyBinding::Scroll(KeyScroll::LineUp)
    } else if mods == NONE && ch is None && key == Key::Down {
        KeyBinding::Scroll(KeyScroll::LineDown)
    } else if mods == NONE && ch is None && key == Key::Left {
        KeyBinding::Scroll(KeyScroll::LineLeft)
    } else if mods == NONE && ch is None && key == Key::Right {
        KeyBinding::Scroll(KeyScroll::LineRight)
    } else if mods == c && ch == Some('r') {
        if enabled { KeyBinding::Send(WindowEvent::Reload) } else { KeyBinding::Nothing }
    } else if mods == c && ch == Some('q') {
        if enabled { KeyBinding::Send(WindowEvent::Quit) } else { KeyBinding::Nothing }
    } else {
        spec_platform_key_binding(key, mods, p)
    }
}

/// Whether `ch` is the character `c`.
fn is_char(ch: Option<char>, c: char) -> (r: bool)
    ensures
        r == (ch == Some(c)),
{
    match ch {
        Some(x) => x == c,
        None => false,
    }
}

/// The platform's own bindings: Command/Control with `[` and `]` go back and forward.
pub fn platform_handle_key(key: Key, mods: ScriptKeyModifiers, p: ShortcutPlatform) -> (r: KeyBinding)
    ensures
        r == spec_platform_key_binding(key, mods.bits, p),
{
    let c = cmd_or_control(p);
    if mods.bits == c && key == Key::LeftBracket {
        KeyBinding::Send(WindowEvent::Navigation(WindowNavigateMsg::Back))
    } else if mods.bits == c && key == Key::RightBracket {
        KeyBinding::Send(WindowEvent::Navigation(WindowNavigateMsg::Forward))
    } else {
        KeyBinding::Nothing
    }
}

/// The binding of a key event; see [`spec_key_binding`].
pub fn key_binding(
    ch: Option<char>,
    key: Key,
    mods: ScriptKeyModifiers,
    p: ShortcutPlatform,
    builtin_shortcuts: Option<bool>,
) -> (r: KeyBinding)
    ensures
        r == spec_key_binding(ch, key, mods.bits, p, builtin_shortcuts),
{
    let c = cmd_or_control(p);
    let ca = cmd_or_alt(p);
    let m = mods.bits;
    let enabled = match builtin_shortcuts {
        Some(b) => b,
        None => false,
    };
    let no_char = ch.is_none();
    if is_char(ch, '+') {
        if m & ALL_BUT_SHIFT == c {
            KeyBinding::Send(WindowEvent::Zoom(ZoomStep::In))
        } else if m & ALL_BUT_SHIFT == c | ALT {
            KeyBinding::Send(WindowEvent::PinchZoom(ZoomStep::In))
        } else {
            KeyBinding::Nothing
        }
    } else if m == c && is_char(ch, '-') {
        KeyBinding::Send(WindowEvent::Zoom(ZoomStep::Out))
    } else if is_char(ch, '-') && m == c | ALT {
        KeyBinding::Send(WindowEvent::PinchZoom(ZoomStep::Out))
    } else if m == c && is_char(ch, '0') {
        KeyBinding::Send(WindowEvent::ResetZoom)
    } else if m == NONE && no_char && key == Key::NavigateForward {
        KeyBinding::Send(WindowEvent::Navigation(WindowNavigateMsg::Forward))
    } else if m == NONE && no_char && key == Key::NavigateBackward {
        KeyBinding::Send(WindowEvent::Navigation(WindowNavigateMsg::Back))
    } else if m == NONE && no_char && key == Key::Escape {
        if enabled { KeyBinding::Send(WindowEvent::Quit) } else { KeyBinding::Nothing }
    } else if m == ca && no_char && key == Key::Right {
        KeyBinding::Send(WindowEvent::Navigation(WindowNavigateMsg::Forward))
    } else if m == ca && no_char && key == Key::Left {
        KeyBinding::Send(WindowEvent::Navigation(WindowNavigateMsg::Back))
    } else if (m == NONE && no_char && key == Key::PageDown) || (m == NONE && is_char(ch, ' ')) {
        KeyBinding::Scroll(KeyScroll::PageDown)
    } else if (m == NONE && no_char && key == Key::PageUp) || (m == SHIFT && is_char(ch, ' ')) {
        KeyBinding::Scroll(KeyScroll::PageUp)
    } else if m == NONE && no_char && key == Key::Up {
        KeyBinding::Scroll(KeyScroll::LineUp)
    } else if m == NONE && no_char && key == Key::Down {
        KeyBinding::Scroll(KeyScroll::LineDown)
    } else if m == NONE && no_char && key == Key::Left {
        KeyBinding::Scroll(KeyScroll::LineLeft)
    } else if m == NONE && no_char && key == Key::Right {
        KeyBinding::Scroll(KeyScroll::LineRight)
    } else if m == c && is_char(ch, 'r') {
        if enabled { KeyBinding::Send(WindowEvent::Reload) } else { KeyBinding::Nothing }
    } else if m == c && is_char(ch, 'q') {
        if enabled { KeyBinding::Send(WindowEvent::Quit) } else { KeyBinding::Nothing }
    } else {
        platform_handle_key(key, mods, p)
    }
}

impl WindowState {
    /// Acts on a key event that the compositor passes back to the window: a
    /// bound event is queued; a bound scroll is returned for the caller to
    /// carry out, since its size depends on the framebuffer.
    pub fn handle_key(
        &mut self,
        ch: Option<char>,
        key: Key,
        mods: ScriptKeyModifiers,
        p: ShortcutPlatform,
        builtin_shortcuts: Option<bool>,
    ) -> (r: Option<KeyScroll>)
        ensures
            match spec_key_binding(ch, key, mods.bits, p, builtin_shortcuts) {
                KeyBinding::Send(e) => final(self)@ == queued(old(self)@, e) && r is None,
                KeyBinding::Scroll(s) => final(self)@ == old(self)@ && r == Some(s),
                KeyBinding::Nothing => final(self)@ == old(self)@ && r is None,
            },
            final(self).current_url == old(self).current_url,
    {
        match key_binding(ch, key, mods, p, builtin_shortcuts) {
            KeyBinding::Send(e) => {
                self.event_queue.push(e);
                None
            },
            KeyBinding::Scroll(s) => Some(s),
            KeyBinding::Nothing => None,
        }
    }
}

} // verus!
