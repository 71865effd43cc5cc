use glutin_window::cursor::{glutin_cursor, Cursor, MouseCursor};
use glutin_window::events::{WindowEvent, WindowNavigateMsg, ZoomStep};
use glutin_window::keys::Key;
use glutin_window::modifiers::{ScriptKeyModifiers, ALT, CONTROL, NONE, SHIFT, SUPER};
use glutin_window::shortcuts::{key_binding, platform_handle_key, KeyBinding, KeyScroll, ShortcutPlatform};
use glutin_window::title::page_title;
use glutin_window::window::WindowState;
use url::Url;

fn m(bits: u8) -> ScriptKeyModifiers {
    ScriptKeyModifiers { bits }
}

fn other(ch: Option<char>, key: Key, bits: u8) -> KeyBinding {
    key_binding(ch, key, m(bits), ShortcutPlatform::Other, Some(true))
}

fn send(e: WindowEvent) -> KeyBinding {
    KeyBinding::Send(e)
}

#[test]
fn zoom_shortcuts() {
    assert_eq!(other(Some('+'), Key::Equal, CONTROL), send(WindowEvent::Zoom(ZoomStep::In)));
    assert_eq!(other(Some('+'), Key::Equal, CONTROL | SHIFT), send(WindowEvent::Zoom(ZoomStep::In)));
    assert_eq!(other(Some('+'), Key::Equal, CONTROL | ALT | SHIFT), send(WindowEvent::PinchZoom(ZoomStep::In)));
    assert_eq!(other(Some('+'), Key::Equal, NONE), KeyBinding::Nothing);
    assert_eq!(other(Some('-'), Key::Minus, CONTROL), send(WindowEvent::Zoom(ZoomStep::Out)));
    assert_eq!(other(Some('-'), Key::Minus, CONTROL | ALT), send(WindowEvent::PinchZoom(ZoomStep::Out)));
    assert_eq!(other(Some('-'), Key::Minus, CONTROL | SHIFT), KeyBinding::Nothing);
    assert_eq!(other(Some('0'), Key::Num0, CONTROL), send(WindowEvent::ResetZoom));
}

#[test]
fn zoom_ignores_shift_and_undefined_bits() {
    assert_eq!(other(Some('+'), Key::Equal, CONTROL | 0x10), send(WindowEvent::Zoom(ZoomStep::In)));
    assert_eq!(other(Some('+'), Key::Equal, CONTROL | ALT | 0xf0), send(WindowEvent::PinchZoom(ZoomStep::In)));
}

#[test]
fn navigation_shortcuts() {
    assert_eq!(other(None, Key::NavigateForward, NONE), send(WindowEvent::Navigation(WindowNavigateMsg::Forward)));
    assert_eq!(other(None, Key::NavigateBackward, NONE), send(WindowEvent::Navigation(WindowNavigateMsg::Back)));
    assert_eq!(other(None, Key::Right, ALT), send(WindowEvent::Navigation(WindowNavigateMsg::Forward)));
    assert_eq!(other(None, Key::Left, ALT), send(WindowEvent::Navigation(WindowNavigateMsg::Back)));
    assert_eq!(other(None, Key::LeftBracket, CONTROL), send(WindowEvent::Navigation(WindowNavigateMsg::Back)));
    assert_eq!(other(Some('['), Key::LeftBracket, CONTROL), send(WindowEvent::Navigation(WindowNavigateMsg::Back)));
    assert_eq!(other(None, Key::RightBracket, CONTROL), send(WindowEvent::Navigation(WindowNavigateMsg::Forward)));
    assert_eq!(other(None, Key::RightBracket, SUPER), KeyBinding::Nothing);
}

#[test]
fn mac_uses_command() {
    let mac = |ch, key, bits| key_binding(ch, key, m(bits), ShortcutPlatform::MacOs, Some(true));
    assert_eq!(mac(Some('+'), Key::Equal, SUPER), send(WindowEvent::Zoom(ZoomStep::In)));
    assert_eq!(mac(Some('+'), Key::Equal, CONTROL), KeyBinding::Nothing);
    assert_eq!(mac(None, Key::Left, SUPER), send(WindowEvent::Navigation(WindowNavigateMsg::Back)));
    assert_eq!(mac(None, Key::Left, ALT), KeyBinding::Nothing);
    assert_eq!(mac(Some('q'), Key::Q, SUPER), send(WindowEvent::Quit));
    assert_eq!(
        platform_handle_key(Key::RightBracket, m(SUPER), ShortcutPlatform::MacOs),
        send(WindowEvent::Navigation(WindowNavigateMsg::Forward))
    );
}

#[test]
fn scroll_shortcuts() {
    assert_eq!(other(None, Key::PageDown, NONE), KeyBinding::Scroll(KeyScroll::PageDown));
    assert_eq!(other(Some(' '), Key::Space, NONE), KeyBinding::Scroll(KeyScroll::PageDown));
    assert_eq!(other(None, Key::PageUp, NONE), KeyBinding::Scroll(KeyScroll::PageUp));
    assert_eq!(other(Some(' '), Key::Space, SHIFT), KeyBinding::Scroll(KeyScroll::PageUp));
    assert_eq!(other(None, Key::Up, NONE), KeyBinding::Scroll(KeyScroll::LineUp));
    assert_eq!(other(None, Key::Down, NONE), KeyBinding::Scroll(KeyScroll::LineDown));
    assert_eq!(other(None, Key::Left, NONE), KeyBinding::Scroll(KeyScroll::LineLeft));
    assert_eq!(other(None, Key::Right, NONE), KeyBinding::Scroll(KeyScroll::LineRight));
    assert_eq!(other(None, Key::Up, SHIFT), KeyBinding::Nothing);
}

#[test]
fn quit_and_reload_need_the_preference() {
    assert_eq!(other(None, Key::Escape, NONE), send(WindowEvent::Quit));
    assert_eq!(other(Some('r'), Key::R, CONTROL), send(WindowEvent::Reload));
    assert_eq!(other(Some('q'), Key::Q, CONTROL), send(WindowEvent::Quit));
    for pref in [None, Some(false)] {
        assert_eq!(key_binding(None, Key::Escape, m(NONE), ShortcutPlatform::Other, pref), KeyBinding::Nothing);
        assert_eq!(key_binding(Some('r'), Key::R, m(CONTROL), ShortcutPlatform::Other, pref), KeyBinding::Nothing);
        assert_eq!(key_binding(Some('q'), Key::Q, m(CONTROL), ShortcutPlatform::Other, pref), KeyBinding::Nothing);
    }
}

#[test]
fn handle_key_queues_or_returns_scroll() {
    let mut w = WindowState::new();
    assert_eq!(w.handle_key(Some('0'), Key::Num0, m(CONTROL), ShortcutPlatform::Other, None), None);
    assert_eq!(w.handle_key(None, Key::PageUp, m(NONE), ShortcutPlatform::Other, None), Some(KeyScroll::PageUp));
    assert_eq!(w.handle_key(Some('a'), Key::A, m(NONE), ShortcutPlatform::Other, None), None);
    assert_eq!(w.take_events(), vec![WindowEvent::ResetZoom]);
}

#[test]
fn cursors_map_by_name() {
    assert_eq!(glutin_cursor(Cursor::NoCursor), MouseCursor::NoneCursor);
    assert_eq!(glutin_cursor(Cursor::Pointer), MouseCursor::Hand);
    assert_eq!(glutin_cursor(Cursor::Default), MouseCursor::Default);
    assert_eq!(glutin_cursor(Cursor::Text), MouseCursor::Text);
    assert_eq!(glutin_cursor(Cursor::NwseResize), MouseCursor::NwseResize);
    assert_eq!(glutin_cursor(Cursor::ZoomOut), MouseCursor::ZoomOut);
}

#[test]
fn page_titles() {
    assert_eq!(page_title(Some("Hello".to_string()), "x".to_string()), "Hello - Servo");
    assert_eq!(page_title(Some(String::new()), "fallback".to_string()), "fallback - Servo");
    assert_eq!(page_title(None, "fallback".to_string()), "fallback - Servo");
}

#[test]
fn window_title_falls_back_to_url_or_untitled() {
    let mut w = WindowState::new();
    assert_eq!(w.page_title(None), "Untitled - Servo");
    assert_eq!(w.page_title(Some("Doc".to_string())), "Doc - Servo");
    w.set_page_url(Url::parse("https://example.org/a?b=c").unwrap());
    assert_eq!(w.fallback_title(), "https://example.org/a?b=c");
    assert_eq!(w.page_title(Some(String::new())), "https://example.org/a?b=c - Servo");
    assert_eq!(w.page_title(Some("Doc".to_string())), "Doc - Servo");
}
