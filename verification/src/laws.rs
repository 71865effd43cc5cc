//! Properties of the window's event handling that span several events.
use vstd::prelude::*;
use crate::events::{
    ElementState, InputEvent, KeyState, MouseButton, MouseWindowEvent, ScriptMouseButton, WindowEvent,
};
use crate::keys::{spec_script_key, Key, VirtualKeyCode};
use crate::shortcuts::{spec_key_binding, KeyBinding, ShortcutPlatform};
use crate::events::{WindowNavigateMsg, ZoomStep};
use crate::modifiers::{ALT, CONTROL, SUPER};
use crate::modifiers::{lemma_toggle_twice, spec_modifier_for_key, spec_modifiers_after_key, spec_script_mods};
use crate::window::{
    first_match, is_control_char, is_first_match, lemma_first_match_absent, lemma_first_match_is, spec_pressed_char, spec_window_run,
    spec_window_step, spec_within_click_distance, swap_removed, WindowModel,
};

verus! {

/// A key released reports the character that its press received, and the
/// window forgets it again. Pressing and then releasing a key whose scan
/// code is not already held leaves the held keys as they were, consumes the
/// pending character, leaves the modifiers as they were, and queues a press
/// event and a release event that carry the same character; the press
/// carries the modifiers as the key made them, the release those from before.
pub proof fn lemma_press_release_reports_pressed_char(m: WindowModel, scan_code: u8, code: VirtualKeyCode)
    requires
        forall|j: int| 0 <= j < m.pressed_key_map.len() ==> #[trigger] m.pressed_key_map[j].0 != scan_code,
    ensures
        ({
            let m1 = spec_window_step(m, InputEvent::KeyboardInput(ElementState::Pressed, scan_code, Some(code))).0;
            let m2 = spec_window_step(m1, InputEvent::KeyboardInput(ElementState::Released, scan_code, Some(code))).0;
            let ch = spec_pressed_char(m.pending_key_event_char, code);
            &&& m2.pressed_key_map == m.pressed_key_map
            &&& m2.pending_key_event_char is None
            &&& m2.key_modifiers == m.key_modifiers
            &&& m2.mouse_pos == m.mouse_pos
            &&& match spec_script_key(code) {
                Ok(key) => m2.events == m.events.push(
                    WindowEvent::KeyEvent(ch, key, KeyState::Pressed, spec_script_mods(spec_modifiers_after_key(m.key_modifiers, code))),
                ).push(WindowEvent::KeyEvent(ch, key, KeyState::Released, spec_script_mods(m.key_modifiers))),
                Err(_) => m2.events == m.events,
            }
        }),
{
    let m1 = spec_window_step(m, InputEvent::KeyboardInput(ElementState::Pressed, scan_code, Some(code))).0;
    let ch = spec_pressed_char(m.pending_key_event_char, code);
    let map = m.pressed_key_map;
    match ch {
        Some(c) => {
            assert(m1.pressed_key_map == map.push((scan_code, c)));
            assert(is_first_match(m1.pressed_key_map, scan_code, map.len() as int)) by {
                assert forall|j: int| 0 <= j < map.len() implies #[trigger] m1.pressed_key_map[j].0 != scan_code by {
                    assert(m1.pressed_key_map[j] == map[j]);
                }
            }
            lemma_first_match_is(m1.pressed_key_map, scan_code, map.len() as int);
            assert(swap_removed(m1.pressed_key_map, map.len() as int) =~= map);
        },
        None => {
            assert(m1.pressed_key_map == map);
            lemma_first_match_absent(map, scan_code);
        },
    }
    match spec_modifier_for_key(code) {
        Some(flag) => lemma_toggle_twice(m.key_modifiers, flag),
        None => {},
    }
}

/// A left or right button pressed at one point and released at another
/// queues, after the events already queued: a cursor move and a mouse-down
/// at the first point, then a cursor move and a mouse-up at the second, and
/// a click at the second point exactly when the two points are less than
/// 10 pixels apart.
pub proof fn lemma_press_release_click(m: WindowModel, button: MouseButton, x: i32, y: i32, x2: i32, y2: i32)
    requires
        button == MouseButton::Left || button == MouseButton::Right,
    ensures
        ({
            let m1 = spec_window_step(m, InputEvent::MouseInput(ElementState::Pressed, button, Some((x, y)))).0;
            let m2 = spec_window_step(m1, InputEvent::MouseInput(ElementState::Released, button, Some((x2, y2)))).0;
            let base = m.events + seq![
                WindowEvent::MouseWindowMoveEventClass(x, y),
                WindowEvent::MouseWindowEventClass(MouseWindowEvent::MouseDown(ScriptMouseButton::Left, x, y)),
                WindowEvent::MouseWindowMoveEventClass(x2, y2),
                WindowEvent::MouseWindowEventClass(MouseWindowEvent::MouseUp(ScriptMouseButton::Left, x2, y2)),
            ];
            &&& m2.events == (if spec_within_click_distance((x, y), x2, y2) {
                base.push(WindowEvent::MouseWindowEventClass(MouseWindowEvent::Click(ScriptMouseButton::Left, x2, y2)))
            } else {
                base
            })
            &&& m2.mouse_pos == (x2, y2)
            &&& m2.mouse_down_button == Some(button)
            &&& m2.mouse_down_point == (x, y)
        }),
{
    let m1 = spec_window_step(m, InputEvent::MouseInput(ElementState::Pressed, button, Some((x, y)))).0;
    let m2 = spec_window_step(m1, InputEvent::MouseInput(ElementState::Released, button, Some((x2, y2)))).0;
    let base = m.events + seq![
        WindowEvent::MouseWindowMoveEventClass(x, y),
        WindowEvent::MouseWindowEventClass(MouseWindowEvent::MouseDown(ScriptMouseButton::Left, x, y)),
        WindowEvent::MouseWindowMoveEventClass(x2, y2),
        WindowEvent::MouseWindowEventClass(MouseWindowEvent::MouseUp(ScriptMouseButton::Left, x2, y2)),
    ];
    if spec_within_click_distance((x, y), x2, y2) {
        assert(m2.events =~= base.push(
            WindowEvent::MouseWindowEventClass(MouseWindowEvent::Click(ScriptMouseButton::Left, x2, y2)),
        ));
    } else {
        assert(m2.events =~= base);
    }
}

/// Handling an event never changes or drops an event already queued: the
/// queue after it starts with the queue before it.
pub proof fn lemma_step_keeps_queued_events(m: WindowModel, e: InputEvent)
    ensures
        m.events.len() <= spec_window_step(m, e).0.events.len(),
        spec_window_step(m, e).0.events.subrange(0, m.events.len() as int) == m.events,
{
    let m2 = spec_window_step(m, e).0;
    assert(m2.events.subrange(0, m.events.len() as int) =~= m.events);
}

/// Handling a run of events reports that the window should close exactly
/// when one of the events is a close request.
pub proof fn lemma_run_closes_iff_close_requested(m: WindowModel, es: Seq<InputEvent>)
    ensures
        spec_window_run(m, es).1 <==> exists|i: int| 0 <= i < es.len() && es[i] == InputEvent::Closed,
    decreases es.len(),
{
    if es.len() > 0 {
        let prefix = es.drop_last();
        lemma_run_closes_iff_close_requested(m, prefix);
        if spec_window_run(m, es).1 {
            if spec_window_run(m, prefix).1 {
                let i = choose|i: int| 0 <= i < prefix.len() && prefix[i] == InputEvent::Closed;
                assert(es[i] == prefix[i]);
            } else {
                assert(es[es.len() - 1] == InputEvent::Closed);
            }
        } else {
            assert forall|i: int| 0 <= i < es.len() implies es[i] != InputEvent::Closed by {
                if i < es.len() - 1 {
                    assert(es[i] == prefix[i]);
                }
            }
        }
    }
}

/// No control character is pending or remembered for a held key.
pub open spec fn held_chars_printable(m: WindowModel) -> bool {
    &&& (m.pending_key_event_char matches Some(c) ==> !is_control_char(c))
    &&& forall|i: int| 0 <= i < m.pressed_key_map.len() ==> !is_control_char(#[trigger] m.pressed_key_map[i].1)
}

/// Control characters never reach a key event: every event keeps the pending
/// character and the characters remembered for held keys free of them.
pub proof fn lemma_step_keeps_held_chars_printable(m: WindowModel, e: InputEvent)
    requires
        held_chars_printable(m),
    ensures
        held_chars_printable(spec_window_step(m, e).0),
{
    let m2 = spec_window_step(m, e).0;
    match e {
        InputEvent::KeyboardInput(state, scan_code, Some(code)) => {
            let map = m.pressed_key_map;
            match state {
                ElementState::Pressed => {
                    assert forall|i: int| 0 <= i < m2.pressed_key_map.len() implies !is_control_char(
                        #[trigger] m2.pressed_key_map[i].1,
                    ) by {
                        if i < map.len() {
                            assert(m2.pressed_key_map[i] == map[i]);
                        }
                    }
                },
                ElementState::Released => {
                    match first_match(map, scan_code) {
                        Some(k) => {
                            assert(is_first_match(map, scan_code, k)) by {
                                assert(exists|j: int| is_first_match(map, scan_code, j));
                            }
                            assert forall|i: int| 0 <= i < m2.pressed_key_map.len() implies !is_control_char(
                                #[trigger] m2.pressed_key_map[i].1,
                            ) by {
                                if i == k {
                                    assert(m2.pressed_key_map[i] == map[map.len() - 1]);
                                } else {
                                    assert(m2.pressed_key_map[i] == map[i]);
                                }
                            }
                        },
                        None => {},
                    }
                },
            }
        },
        _ => {},
    }
}

/// The quit and reload shortcuts act only when the preference that enables
/// the built-in shortcuts is set to true: otherwise no key event is bound to
/// quitting or reloading.
pub proof fn lemma_quit_and_reload_need_preference(
    ch: Option<char>,
    key: Key,
    mods: u8,
    p: ShortcutPlatform,
    builtin_shortcuts: Option<bool>,
)
    requires
        builtin_shortcuts != Some(true),
    ensures
        spec_key_binding(ch, key, mods, p, builtin_shortcuts) != KeyBinding::Send(WindowEvent::Quit),
        spec_key_binding(ch, key, mods, p, builtin_shortcuts) != KeyBinding::Send(WindowEvent::Reload),
{
}

/// Moving the cursor changes only the cursor position and queues a move
/// event: the point and button of the last press are kept.
pub proof fn lemma_cursor_move_keeps_press(m: WindowModel, x: i32, y: i32)
    ensures
        ({
            let m2 = spec_window_step(m, InputEvent::MouseMoved(x, y)).0;
            &&& m2.mouse_down_point == m.mouse_down_point
            &&& m2.mouse_down_button == m.mouse_down_button
            &&& m2.mouse_pos == (x, y)
            &&& m2.events == m.events.push(WindowEvent::MouseWindowMoveEventClass(x, y))
            &&& m2.key_modifiers == m.key_modifiers
            &&& m2.pending_key_event_char == m.pending_key_event_char
            &&& m2.pressed_key_map == m.pressed_key_map
        }),
{
}

/// Every event of `es` is a cursor move.
pub open spec fn all_cursor_moves(es: Seq<InputEvent>) -> bool {
    forall|i: int| 0 <= i < es.len() ==> #[trigger] es[i] is MouseMoved
}

/// Any run of cursor moves keeps the point and button of the last press.
pub proof fn lemma_cursor_moves_keep_press(m: WindowModel, es: Seq<InputEvent>)
    requires
        all_cursor_moves(es),
    ensures
        spec_window_run(m, es).0.mouse_down_point == m.mouse_down_point,
        spec_window_run(m, es).0.mouse_down_button == m.mouse_down_button,
    decreases es.len(),
{
    if es.len() > 0 {
        let prefix = es.drop_last();
        assert(all_cursor_moves(prefix)) by {
            assert forall|i: int| 0 <= i < prefix.len() implies #[trigger] prefix[i] is MouseMoved by {
                assert(prefix[i] == es[i]);
            }
        }
        lemma_cursor_moves_keep_press(m, prefix);
        assert(es[es.len() - 1] is MouseMoved);
    }
}

/// A press at `p`, any run of cursor moves, and a release of the same left
/// or right button at `q` end in a move to `q` and a mouse-up at `q`,
/// followed by a click at `q` exactly when `q` lies less than 10 pixels
/// from `p`: dragging the mouse away does not click.
pub proof fn lemma_drag_clicks_only_near_the_press(
    m: WindowModel,
    button: MouseButton,
    p: (i32, i32),
    es: Seq<InputEvent>,
    q: (i32, i32),
)
    requires
        button == MouseButton::Left || button == MouseButton::Right,
        all_cursor_moves(es),
    ensures
        ({
            let m1 = spec_window_step(m, InputEvent::MouseInput(ElementState::Pressed, button, Some(p))).0;
            let m2 = spec_window_run(m1, es).0;
            let m3 = spec_window_step(m2, InputEvent::MouseInput(ElementState::Released, button, Some(q))).0;
            let released = m2.events + seq![
                WindowEvent::MouseWindowMoveEventClass(q.0, q.1),
                WindowEvent::MouseWindowEventClass(MouseWindowEvent::MouseUp(ScriptMouseButton::Left, q.0, q.1)),
            ];
            m3.events == if (p.0 - q.0) * (p.0 - q.0) + (p.1 - q.1) * (p.1 - q.1) < 100 {
                released.push(WindowEvent::MouseWindowEventClass(MouseWindowEvent::Click(ScriptMouseButton::Left, q.0, q.1)))
            } else {
                released
            }
        }),
{
    let m1 = spec_window_step(m, InputEvent::MouseInput(ElementState::Pressed, button, Some(p))).0;
    let m2 = spec_window_run(m1, es).0;
    let m3 = spec_window_step(m2, InputEvent::MouseInput(ElementState::Released, button, Some(q))).0;
    lemma_cursor_moves_keep_press(m1, es);
    assert(m2.mouse_down_point == p);
    assert(m2.mouse_down_button == Some(button));
    let released = m2.events + seq![
        WindowEvent::MouseWindowMoveEventClass(q.0, q.1),
        WindowEvent::MouseWindowEventClass(MouseWindowEvent::MouseUp(ScriptMouseButton::Left, q.0, q.1)),
    ];
    if (p.0 - q.0) * (p.0 - q.0) + (p.1 - q.1) * (p.1 - q.1) < 100 {
        assert(m3.events =~= released.push(
            WindowEvent::MouseWindowEventClass(MouseWindowEvent::Click(ScriptMouseButton::Left, q.0, q.1)),
        ));
    } else {
        assert(m3.events =~= released);
    }
}

/// The zoom shortcuts use Command on macOS and Control elsewhere: with that
/// modifier '+' zooms in (Shift may be held, as '+' often needs it), '-'
/// zooms out and '0' resets the zoom; with Alt added, '+' and '-' change the
/// pinch zoom. On macOS, Control with '-' does not zoom.
pub proof fn lemma_zoom_shortcuts(key: Key, p: ShortcutPlatform, pref: Option<bool>)
    ensures
        ({
            let cmd: u8 = if p == ShortcutPlatform::MacOs { 8u8 } else { 2u8 };
            let cmd_shift: u8 = if p == ShortcutPlatform::MacOs { 9u8 } else { 3u8 };
            let cmd_alt: u8 = if p == ShortcutPlatform::MacOs { 12u8 } else { 6u8 };
            &&& spec_key_binding(Some('+'), key, cmd, p, pref) == KeyBinding::Send(WindowEvent::Zoom(ZoomStep::In))
            &&& spec_key_binding(Some('+'), key, cmd_shift, p, pref) == KeyBinding::Send(WindowEvent::Zoom(ZoomStep::In))
            &&& spec_key_binding(Some('-'), key, cmd, p, pref) == KeyBinding::Send(WindowEvent::Zoom(ZoomStep::Out))
            &&& spec_key_binding(Some('0'), key, cmd, p, pref) == KeyBinding::Send(WindowEvent::ResetZoom)
            &&& spec_key_binding(Some('+'), key, cmd_alt, p, pref) == KeyBinding::Send(WindowEvent::PinchZoom(ZoomStep::In))
            &&& spec_key_binding(Some('-'), key, cmd_alt, p, pref) == KeyBinding::Send(WindowEvent::PinchZoom(ZoomStep::Out))
            &&& spec_key_binding(Some('-'), key, 2u8, ShortcutPlatform::MacOs, pref) == KeyBinding::Nothing
        }),
{
    assert(8u8 & 14u8 == 8u8 && 9u8 & 14u8 == 8u8 && 12u8 & 14u8 == 12u8 && 2u8 & 14u8 == 2u8
        && 3u8 & 14u8 == 2u8 && 6u8 & 14u8 == 6u8) by (bit_vector);
    assert(SUPER | ALT == 12u8 && CONTROL | ALT == 6u8) by (bit_vector);
}

/// The shortcuts are the same on both platforms up to the modifier: a key
/// event with Command alone on macOS is bound as the same key event with
/// Control alone elsewhere, except for the arrows Left and Right without a
/// character, which on macOS with Command go back and forward as they do
/// with Alt elsewhere.
pub proof fn lemma_command_on_mac_is_control_elsewhere(ch: Option<char>, key: Key, pref: Option<bool>)
    ensures
        !(ch is None && (key == Key::Left || key == Key::Right)) ==>
            spec_key_binding(ch, key, SUPER, ShortcutPlatform::MacOs, pref)
                == spec_key_binding(ch, key, CONTROL, ShortcutPlatform::Other, pref),
        (ch is None && (key == Key::Left || key == Key::Right)) ==>
            spec_key_binding(ch, key, SUPER, ShortcutPlatform::MacOs, pref)
                == spec_key_binding(ch, key, ALT, ShortcutPlatform::Other, pref),
        spec_key_binding(None, Key::Left, ALT, ShortcutPlatform::Other, pref)
            == KeyBinding::Send(WindowEvent::Navigation(WindowNavigateMsg::Back)),
        spec_key_binding(None, Key::Right, ALT, ShortcutPlatform::Other, pref)
            == KeyBinding::Send(WindowEvent::Navigation(WindowNavigateMsg::Forward)),
{
    assert(8u8 & 14u8 == 8u8 && 2u8 & 14u8 == 2u8 && 4u8 & 14u8 == 4u8) by (bit_vector);
    assert(SUPER | ALT == 12u8 && CONTROL | ALT == 6u8) by (bit_vector);
}

} // verus!
