use glutin_window::events::{
    glutin_phase_to_touch_event_type, glutin_pressure_stage_to_touchpad_pressure_phase, key_state,
    ElementState, InputEvent, KeyState, MouseButton, MouseWindowEvent, ScriptMouseButton,
    TouchEventType, TouchPhase, TouchpadPressurePhase, WindowEvent,
};
use glutin_window::keys::{Key, VirtualKeyCode};
use glutin_window::modifiers::{ScriptKeyModifiers, LEFT_CONTROL, LEFT_SHIFT, CONTROL, SHIFT};
use glutin_window::window::{position_of_scan_code, uses_event_polling, within_click_distance, WindowState};

fn press(scan: u8, code: VirtualKeyCode) -> InputEvent {
    InputEvent::KeyboardInput(ElementState::Pressed, scan, Some(code))
}

fn release(scan: u8, code: VirtualKeyCode) -> InputEvent {
    InputEvent::KeyboardInput(ElementState::Released, scan, Some(code))
}

fn mods(bits: u8) -> ScriptKeyModifiers {
    ScriptKeyModifiers { bits }
}

#[test]
fn phases_translate() {
    assert_eq!(glutin_phase_to_touch_event_type(TouchPhase::Started), TouchEventType::Down);
    assert_eq!(glutin_phase_to_touch_event_type(TouchPhase::Moved), TouchEventType::Move);
    assert_eq!(glutin_phase_to_touch_event_type(TouchPhase::Ended), TouchEventType::Up);
    assert_eq!(glutin_phase_to_touch_event_type(TouchPhase::Cancelled), TouchEventType::Cancel);
    assert_eq!(key_state(ElementState::Pressed), KeyState::Pressed);
    assert_eq!(key_state(ElementState::Released), KeyState::Released);
}

#[test]
fn pressure_stages_translate() {
    assert_eq!(glutin_pressure_stage_to_touchpad_pressure_phase(-4), TouchpadPressurePhase::BeforeClick);
    assert_eq!(glutin_pressure_stage_to_touchpad_pressure_phase(0), TouchpadPressurePhase::BeforeClick);
    assert_eq!(glutin_pressure_stage_to_touchpad_pressure_phase(1), TouchpadPressurePhase::AfterFirstClick);
    assert_eq!(glutin_pressure_stage_to_touchpad_pressure_phase(2), TouchpadPressurePhase::AfterSecondClick);
    assert_eq!(glutin_pressure_stage_to_touchpad_pressure_phase(i64::MAX), TouchpadPressurePhase::AfterSecondClick);
}

#[test]
fn typed_character_travels_from_press_to_release() {
    let mut w = WindowState::new();
    assert!(!w.handle_window_event(InputEvent::ReceivedCharacter('a')));
    assert_eq!(w.pending_key_event_char, Some('a'));
    assert!(!w.handle_window_event(press(30, VirtualKeyCode::A)));
    assert_eq!(w.pending_key_event_char, None);
    assert_eq!(w.pressed_key_map, vec![(30, 'a')]);
    assert!(!w.handle_window_event(release(30, VirtualKeyCode::A)));
    assert!(w.pressed_key_map.is_empty());
    assert_eq!(
        w.take_events(),
        vec![
            WindowEvent::KeyEvent(Some('a'), Key::A, KeyState::Pressed, mods(0)),
            WindowEvent::KeyEvent(Some('a'), Key::A, KeyState::Released, mods(0)),
        ]
    );
    assert!(w.event_queue.is_empty());
}

#[test]
fn control_characters_are_not_kept() {
    let mut w = WindowState::new();
    w.handle_window_event(InputEvent::ReceivedCharacter('\u{8}'));
    assert_eq!(w.pending_key_event_char, None);
    w.handle_window_event(InputEvent::ReceivedCharacter('\u{9f}'));
    assert_eq!(w.pending_key_event_char, None);
    w.handle_window_event(InputEvent::ReceivedCharacter('é'));
    assert_eq!(w.pending_key_event_char, Some('é'));
}

#[test]
fn nonprintable_key_drops_pending_character() {
    let mut w = WindowState::new();
    w.handle_window_event(InputEvent::ReceivedCharacter('x'));
    w.handle_window_event(press(1, VirtualKeyCode::Escape));
    assert_eq!(w.pending_key_event_char, None);
    assert!(w.pressed_key_map.is_empty());
    assert_eq!(
        w.take_events(),
        vec![WindowEvent::KeyEvent(None, Key::Escape, KeyState::Pressed, mods(0))]
    );
}

#[test]
fn release_takes_first_entry_with_its_scan_code() {
    let mut w = WindowState::new();
    w.pressed_key_map = vec![(5, 'p'), (7, 'q'), (5, 'r'), (9, 's')];
    w.handle_window_event(release(5, VirtualKeyCode::P));
    assert_eq!(w.pressed_key_map, vec![(9, 's'), (7, 'q'), (5, 'r')]);
    assert_eq!(
        w.take_events(),
        vec![WindowEvent::KeyEvent(Some('p'), Key::P, KeyState::Released, mods(0))]
    );
    w.handle_window_event(release(42, VirtualKeyCode::Q));
    assert_eq!(w.pressed_key_map, vec![(9, 's'), (7, 'q'), (5, 'r')]);
    assert_eq!(
        w.take_events(),
        vec![WindowEvent::KeyEvent(None, Key::Q, KeyState::Released, mods(0))]
    );
}

#[test]
fn finds_the_first_scan_code() {
    let map = vec![(5u8, 'p'), (7, 'q'), (5, 'r')];
    assert_eq!(position_of_scan_code(&map, 5), Some(0));
    assert_eq!(position_of_scan_code(&map, 7), Some(1));
    assert_eq!(position_of_scan_code(&map, 8), None);
}

#[test]
fn modifier_keys_toggle_on_press_and_release() {
    let mut w = WindowState::new();
    w.handle_window_event(press(29, VirtualKeyCode::LControl));
    assert_eq!(w.key_modifiers.bits, LEFT_CONTROL);
    w.handle_window_event(press(42, VirtualKeyCode::LShift));
    assert_eq!(w.key_modifiers.bits, LEFT_CONTROL | LEFT_SHIFT);
    w.handle_window_event(InputEvent::ReceivedCharacter('T'));
    w.handle_window_event(press(20, VirtualKeyCode::T));
    w.handle_window_event(release(42, VirtualKeyCode::LShift));
    w.handle_window_event(release(29, VirtualKeyCode::LControl));
    assert_eq!(w.key_modifiers.bits, 0);
    assert_eq!(
        w.take_events(),
        vec![
            WindowEvent::KeyEvent(None, Key::LeftControl, KeyState::Pressed, mods(CONTROL)),
            WindowEvent::KeyEvent(None, Key::LeftShift, KeyState::Pressed, mods(CONTROL | SHIFT)),
            WindowEvent::KeyEvent(Some('T'), Key::T, KeyState::Pressed, mods(CONTROL | SHIFT)),
            WindowEvent::KeyEvent(None, Key::LeftShift, KeyState::Released, mods(CONTROL)),
            WindowEvent::KeyEvent(None, Key::LeftControl, KeyState::Released, mods(0)),
        ]
    );
}

#[test]
fn unmapped_key_queues_nothing_and_unknown_key_is_ignored() {
    let mut w = WindowState::new();
    w.handle_window_event(InputEvent::ReceivedCharacter('z'));
    w.handle_window_event(press(59, VirtualKeyCode::F1));
    w.handle_window_event(InputEvent::KeyboardInput(ElementState::Pressed, 3, None));
    assert!(w.event_queue.is_empty());
    assert_eq!(w.pending_key_event_char, None);
}

#[test]
fn click_when_released_nearby() {
    let mut w = WindowState::new();
    w.handle_window_event(InputEvent::MouseInput(ElementState::Pressed, MouseButton::Left, Some((10, 20))));
    w.handle_window_event(InputEvent::MouseInput(ElementState::Released, MouseButton::Left, Some((16, 27))));
    assert_eq!(
        w.take_events(),
        vec![
            WindowEvent::MouseWindowMoveEventClass(10, 20),
            WindowEvent::MouseWindowEventClass(MouseWindowEvent::MouseDown(ScriptMouseButton::Left, 10, 20)),
            WindowEvent::MouseWindowMoveEventClass(16, 27),
            WindowEvent::MouseWindowEventClass(MouseWindowEvent::MouseUp(ScriptMouseButton::Left, 16, 27)),
            WindowEvent::MouseWindowEventClass(MouseWindowEvent::Click(ScriptMouseButton::Left, 16, 27)),
        ]
    );
    assert_eq!(w.mouse_down_button, Some(MouseButton::Left));
    assert_eq!(w.mouse_down_point, (10, 20));
    assert_eq!(w.mouse_pos, (16, 27));
}

#[test]
fn no_click_at_ten_pixels() {
    let mut w = WindowState::new();
    w.handle_mouse(MouseButton::Right, ElementState::Pressed, 0, 0);
    w.handle_mouse(MouseButton::Right, ElementState::Released, 6, 8);
    assert_eq!(
        w.take_events(),
        vec![
            WindowEvent::MouseWindowEventClass(MouseWindowEvent::MouseDown(ScriptMouseButton::Left, 0, 0)),
            WindowEvent::MouseWindowEventClass(MouseWindowEvent::MouseUp(ScriptMouseButton::Left, 6, 8)),
        ]
    );
}

#[test]
fn no_click_for_another_button_or_without_press() {
    let mut w = WindowState::new();
    w.handle_mouse(MouseButton::Left, ElementState::Released, 3, 3);
    w.handle_mouse(MouseButton::Left, ElementState::Pressed, 3, 3);
    w.handle_mouse(MouseButton::Right, ElementState::Released, 3, 3);
    assert_eq!(
        w.take_events(),
        vec![
            WindowEvent::MouseWindowEventClass(MouseWindowEvent::MouseUp(ScriptMouseButton::Left, 3, 3)),
            WindowEvent::MouseWindowEventClass(MouseWindowEvent::MouseDown(ScriptMouseButton::Left, 3, 3)),
            WindowEvent::MouseWindowEventClass(MouseWindowEvent::MouseUp(ScriptMouseButton::Left, 3, 3)),
        ]
    );
}

#[test]
fn click_distance_edges() {
    assert!(within_click_distance((0, 0), 0, 0));
    assert!(within_click_distance((0, 0), 6, 7));
    assert!(within_click_distance((0, 0), -9, 0));
    assert!(!within_click_distance((0, 0), 10, 0));
    assert!(!within_click_distance((0, 0), 6, 8));
    assert!(!within_click_distance((i32::MIN, i32::MIN), i32::MAX, i32::MAX));
    assert!(within_click_distance((i32::MAX, i32::MIN), i32::MAX - 3, i32::MIN + 4));
}

#[test]
fn button_event_without_position_uses_last_cursor_position() {
    let mut w = WindowState::new();
    w.handle_window_event(InputEvent::MouseMoved(40, 50));
    w.handle_window_event(InputEvent::MouseInput(ElementState::Pressed, MouseButton::Right, None));
    assert_eq!(
        w.take_events(),
        vec![
            WindowEvent::MouseWindowMoveEventClass(40, 50),
            WindowEvent::MouseWindowEventClass(MouseWindowEvent::MouseDown(ScriptMouseButton::Left, 40, 50)),
        ]
    );
    assert_eq!(w.mouse_down_point, (40, 50));
}

#[test]
fn middle_and_other_buttons_are_ignored() {
    let mut w = WindowState::new();
    w.handle_window_event(InputEvent::MouseInput(ElementState::Pressed, MouseButton::Middle, Some((1, 2))));
    w.handle_window_event(InputEvent::MouseInput(ElementState::Pressed, MouseButton::Other(7), Some((1, 2))));
    assert!(w.event_queue.is_empty());
    assert_eq!(w.mouse_pos, (0, 0));
    assert_eq!(w.mouse_down_button, None);
}

#[test]
fn scroll_touch_and_pressure_events() {
    let mut w = WindowState::new();
    w.handle_window_event(InputEvent::MouseMoved(7, -3));
    w.take_events();
    w.handle_window_event(InputEvent::MouseWheel(0, 12.5f32.to_bits(), TouchPhase::Moved));
    w.handle_window_event(InputEvent::Touch(TouchPhase::Started, 0x1_0000_0005, 1.5f64.to_bits(), 2.5f64.to_bits()));
    w.handle_window_event(InputEvent::TouchpadPressure(0.75f32.to_bits(), 1));
    w.scroll_window((-38.0f32).to_bits(), 0, TouchEventType::Move);
    assert_eq!(
        w.take_events(),
        vec![
            WindowEvent::Scroll(0, 12.5f32.to_bits(), 7, -3, TouchEventType::Move),
            WindowEvent::Touch(TouchEventType::Down, 5, 1.5f64.to_bits(), 2.5f64.to_bits()),
            WindowEvent::TouchpadPressure(7, -3, 0.75f32.to_bits(), TouchpadPressurePhase::AfterFirstClick),
            WindowEvent::Scroll((-38.0f32).to_bits(), 0, 7, -3, TouchEventType::Move),
        ]
    );
}

#[test]
fn resize_refresh_close_and_others() {
    let mut w = WindowState::new();
    assert!(!w.handle_window_event(InputEvent::Resized(800, 600)));
    assert!(!w.handle_window_event(InputEvent::Refresh));
    assert!(!w.handle_window_event(InputEvent::Other));
    assert!(w.handle_window_event(InputEvent::Closed));
    assert_eq!(w.take_events(), vec![WindowEvent::Resize(800, 600), WindowEvent::Refresh]);
}

#[test]
fn a_batch_reports_close_and_handles_every_event() {
    let mut w = WindowState::new();
    let batch = vec![InputEvent::Refresh, InputEvent::Closed, InputEvent::Resized(1, 2)];
    assert!(w.handle_window_events(&batch));
    assert_eq!(w.take_events(), vec![WindowEvent::Refresh, WindowEvent::Resize(1, 2)]);
    let quiet = vec![InputEvent::Refresh, InputEvent::Other];
    assert!(!w.handle_window_events(&quiet));
    assert!(!w.handle_window_events(&vec![]));
}

#[test]
fn waiting_collects_earlier_quit_and_later_events() {
    let mut w = WindowState::new();
    w.handle_window_event(InputEvent::Refresh);
    let earlier = w.take_events();
    w.handle_window_event(InputEvent::Resized(3, 4));
    let all = w.finish_wait(earlier, true);
    assert_eq!(all, vec![WindowEvent::Refresh, WindowEvent::Quit, WindowEvent::Resize(3, 4)]);
    assert!(w.event_queue.is_empty());
    let none = w.finish_wait(vec![], false);
    assert!(none.is_empty());
}

#[test]
fn polling_is_used_for_output_exit_or_headless() {
    assert!(!uses_event_polling(false, false, false));
    assert!(uses_event_polling(true, false, false));
    assert!(uses_event_polling(false, true, false));
    assert!(uses_event_polling(false, false, true));
}

#[test]
fn toggle_modifier_flips_bits() {
    let mut w = WindowState::new();
    w.toggle_modifier(LEFT_SHIFT);
    w.toggle_modifier(LEFT_CONTROL);
    w.toggle_modifier(LEFT_SHIFT);
    assert_eq!(w.key_modifiers.bits, LEFT_CONTROL);
}
