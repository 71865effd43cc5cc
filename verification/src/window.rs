//! The window's input state and the state machine that turns windowing-system
//! events into compositor events.
use vstd::prelude::*;
use url::Url;
use crate::events::{
    glutin_phase_to_touch_event_type, glutin_pressure_stage_to_touchpad_pressure_phase,
    key_state, spec_key_state, spec_pressure_phase, spec_touch_event_type, ElementState,
    InputEvent, MouseButton, MouseWindowEvent, ScriptMouseButton, TouchEventType, WindowEvent,
};
use crate::keys::{
    filter_nonprintable, glutin_key_to_script_key, is_nonprintable_key, spec_script_key,
    VirtualKeyCode,
};
use crate::modifiers::{
    glutin_mods_to_script_mods, modifier_for_key, spec_modifiers_after_key, spec_script_mods,
    KeyModifiers,
};

verus! {

/// What the window remembers between events, as mathematical values.
#[verifier::ext_equal]
pub struct WindowModel {
    /// The button of the last mouse press, if any.
    pub mouse_down_button: Option<MouseButton>,
    /// Where the last mouse press happened.
    pub mouse_down_point: (i32, i32),
    /// Compositor events not yet handed out, oldest first.
    pub events: Seq<WindowEvent>,
    /// The last known cursor position.
    pub mouse_pos: (i32, i32),
    /// The modifier keys believed to be held.
    pub key_modifiers: KeyModifiers,
    /// The character of the last printable character event, kept for the next key press.
    pub pending_key_event_char: Option<char>,
    /// Scan codes of keys pressed and not yet released, with the character each press produced.
    pub pressed_key_map: Seq<(u8, char)>,
}

/// The input state of a browser window.
pub struct WindowState {
    pub mouse_down_button: Option<MouseButton>,
    pub mouse_down_point: (i32, i32),
    pub event_queue: Vec<WindowEvent>,
    pub mouse_pos: (i32, i32),
    pub key_modifiers: KeyModifiers,
    /// The address of the page shown, once the compositor has told it.
    pub current_url: Option<Url>,
    /// The contents of the last ReceivedCharacter event for use in a subsequent key event.
    pub pending_key_event_char: Option<char>,
    /// The keys that have been pressed but not yet released, to allow providing
    /// the equivalent character data on release as was received for the press.
    pub pressed_key_map: Vec<(u8, char)>,
}

impl View for WindowState {
    type V = WindowModel;

    open spec fn view(&self) -> WindowModel {
        WindowModel {
            mouse_down_button: self.mouse_down_button,
            mouse_down_point: self.mouse_down_point,
            events: self.event_queue@,
            mouse_pos: self.mouse_pos,
            key_modifiers: self.key_modifiers,
            pending_key_event_char: self.pending_key_event_char,
            pressed_key_map: self.pressed_key_map@,
        }
    }
}

/// The state of a freshly opened window: nothing pressed, nothing queued,
/// cursor and press point at the origin.
pub open spec fn initial_model() -> WindowModel {
    WindowModel {
        mouse_down_button: None,
        mouse_down_point: (0, 0),
        events: Seq::empty(),
        mouse_pos: (0, 0),
        key_modifiers: KeyModifiers { bits: 0 },
        pending_key_event_char: None,
        pressed_key_map: Seq::empty(),
    }
}

/// A control character: one of the C0 (U+0000 to U+001F) or C1 (U+007F to
/// U+009F) control codes, the general category Cc.
pub open spec fn is_control_char(c: char) -> bool {
    (c as u32) <= 0x1f || (0x7f <= (c as u32) && (c as u32) <= 0x9f)
}

/// Whether `c` is a control character.
pub fn char_is_control(c: char) -> (r: bool)
    ensures
        r == is_control_char(c),
{
    let v = c as u32;
    v <= 0x1f || (0x7f <= v && v <= 0x9f)
}

/// `m` with `e` appended to its queued events.
pub open spec fn queued(m: WindowModel, e: WindowEvent) -> WindowModel {
    WindowModel { events: m.events.push(e), ..m }
}

/// `i` is the first position in `m` whose scan code is `code`.
pub open spec fn is_first_match(m: Seq<(u8, char)>, code: u8, i: int) -> bool {
    &&& 0 <= i < m.len()
    &&& m[i].0 == code
    &&& forall|j: int| 0 <= j < i ==> #[trigger] m[j].0 != code
}

/// The first position in `m` whose scan code is `code`, if there is one.
pub open spec fn first_match(m: Seq<(u8, char)>, code: u8) -> Option<int> {
    if exists|i: int| is_first_match(m, code, i) {
        Some(choose|i: int| is_first_match(m, code, i))
    } else {
        None
    }
}

/// `s` with its element at `i` replaced by its last element, and the last removed.
pub open spec fn swap_removed<T>(s: Seq<T>, i: int) -> Seq<T> {
    s.update(i, s.last()).drop_last()
}

/// The character that a key press reports: the pending character unless the
/// key is one that never produces printable text.
pub open spec fn spec_pressed_char(pending: Option<char>, code: VirtualKeyCode) -> Option<char> {
    match pending {
        Some(c) => if is_nonprintable_key(code) { None } else { Some(c) },
        None => None,
    }
}

/// The state after a keyboard event with a known key code: a modifier key
/// flips its flag; a press takes the pending character (dropping it for
/// non-printable keys) and remembers it under the scan code; a release takes
/// back the character remembered under the scan code, if any. A key event is
/// queued when the key code has a script key, with the modifiers as they are
/// after the flip.
pub open spec fn spec_key_input(m: WindowModel, state: ElementState, scan_code: u8, code: VirtualKeyCode) -> WindowModel {
    let mods = spec_modifiers_after_key(m.key_modifiers, code);
    let ch: Option<char> = match state {
        ElementState::Pressed => spec_pressed_char(m.pending_key_event_char, code),
        ElementState::Released => match first_match(m.pressed_key_map, scan_code) {
            Some(i) => Some(m.pressed_key_map[i].1),
            None => None,
        },
    };
    let pending: Option<char> = match state {
        ElementState::Pressed => None,
        ElementState::Released => m.pending_key_event_char,
    };
    let map: Seq<(u8, char)> = match state {
        ElementState::Pressed => match ch {
            Some(c) => m.pressed_key_map.push((scan_code, c)),
            None => m.pressed_key_map,
        },
        ElementState::Released => match first_match(m.pressed_key_map, scan_code) {
            Some(i) => swap_removed(m.pressed_key_map, i),
            None => m.pressed_key_map,
        },
    };
    let events: Seq<WindowEvent> = match spec_script_key(code) {
        Ok(key) => m.events.push(
            WindowEvent::KeyEvent(ch, key, spec_key_state(state), spec_script_mods(mods)),
        ),
        Err(_) => m.events,
    };
    WindowModel {
        key_modifiers: mods,
        pending_key_event_char: pending,
        pressed_key_map: map,
        events: events,
        ..m
    }
}

/// Whether a press at `p` and a release at `(x, y)` are less than 10 pixels apart.
pub open spec fn spec_within_click_distance(p: (i32, i32), x: i32, y: i32) -> bool {
    (p.0 - x) * (p.0 - x) + (p.1 - y) * (p.1 - y) < 100
}

/// The state after a left or right mouse button event at `(x, y)`. A press
/// remembers the button and the point and queues a mouse-down. A release
/// queues a mouse-up; when the same button was pressed last, less than 10
/// pixels away, a click follows it. Script-side events always name the
/// left button.
pub open spec fn spec_handle_mouse(m: WindowModel, button: MouseButton, action: ElementState, x: i32, y: i32) -> WindowModel {
    match action {
        ElementState::Pressed => WindowModel {
            mouse_down_point: (x, y),
            mouse_down_button: Some(button),
            events: m.events.push(
                WindowEvent::MouseWindowEventClass(MouseWindowEvent::MouseDown(ScriptMouseButton::Left, x, y)),
            ),
            ..m
        },
        ElementState::Released => {
            let up = WindowEvent::MouseWindowEventClass(MouseWindowEvent::MouseUp(ScriptMouseButton::Left, x, y));
            if m.mouse_down_button == Some(button) && spec_within_click_distance(m.mouse_down_point, x, y) {
                queued(
                    queued(m, up),
                    WindowEvent::MouseWindowEventClass(MouseWindowEvent::Click(ScriptMouseButton::Left, x, y)),
                )
            } else {
                queued(m, up)
            }
        },
    }
}

/// The state after a scroll by the given deltas: a scroll event at the cursor.
pub open spec fn spec_scroll(m: WindowModel, dx_bits: u32, dy_bits: u32, phase: TouchEventType) -> WindowModel {
    queued(m, WindowEvent::Scroll(dx_bits, dy_bits, m.mouse_pos.0, m.mouse_pos.1, phase))
}

/// `m` with the cursor at `(x, y)` and a cursor-move event queued.
pub open spec fn spec_moved(m: WindowModel, x: i32, y: i32) -> WindowModel {
    queued(WindowModel { mouse_pos: (x, y), ..m }, WindowEvent::MouseWindowMoveEventClass(x, y))
}

/// One step of the window: the state after `e`, and whether `e` asks the window to close.
pub open spec fn spec_window_step(m: WindowModel, e: InputEvent) -> (WindowModel, bool) {
    match e {
        InputEvent::ReceivedCharacter(ch) => (
            if is_control_char(ch) { m } else { WindowModel { pending_key_event_char: Some(ch), ..m } },
            false,
        ),
        InputEvent::KeyboardInput(state, scan_code, Some(code)) => (spec_key_input(m, state, scan_code, code), false),
        InputEvent::KeyboardInput(_, _, None) => (m, false),
        InputEvent::Resized(w, h) => (queued(m, WindowEvent::Resize(w, h)), false),
        InputEvent::MouseInput(state, button, pos) => (
            if button == MouseButton::Left || button == MouseButton::Right {
                match pos {
                    Some((x, y)) => spec_handle_mouse(spec_moved(m, x, y), button, state, x, y),
                    None => spec_handle_mouse(m, button, state, m.mouse_pos.0, m.mouse_pos.1),
                }
            } else {
                m
            },
            false,
        ),
        InputEvent::MouseMoved(x, y) => (spec_moved(m, x, y), false),
        InputEvent::MouseWheel(dx, dy, phase) => (spec_scroll(m, dx, dy, spec_touch_event_type(phase)), false),
        InputEvent::Touch(phase, id, lx, ly) => (
            queued(m, WindowEvent::Touch(spec_touch_event_type(phase), id as i32, lx, ly)),
            false,
        ),
        InputEvent::TouchpadPressure(pressure, stage) => (
            queued(m, WindowEvent::TouchpadPressure(m.mouse_pos.0, m.mouse_pos.1, pressure, spec_pressure_phase(stage))),
            false,
        ),
        InputEvent::Refresh => (queued(m, WindowEvent::Refresh), false),
        InputEvent::Closed => (m, true),
        InputEvent::Other => (m, false),
    }
}

/// The state after the events `es` in order, and whether any of them asked
/// the window to close.
pub open spec fn spec_window_run(m: WindowModel, es: Seq<InputEvent>) -> (WindowModel, bool)
    decreases es.len(),
{
    if es.len() == 0 {
        (m, false)
    } else {
        let before = spec_window_run(m, es.drop_last());
        let after = spec_window_step(before.0, es.last());
        (after.0, after.1 || before.1)
    }
}

/// The first position with a scan code is what `first_match` names.
pub proof fn lemma_first_match_is(m: Seq<(u8, char)>, code: u8, i: int)
    requires
        is_first_match(m, code, i),
    ensures
        first_match(m, code) == Some(i),
{
    let k = choose|k: int| is_first_match(m, code, k);
    assert(is_first_match(m, code, k));
    if k < i {
        assert(m[k].0 != code);
    } else if k > i {
        assert(m[i].0 != code);
    }
}

/// With no position holding the scan code, `first_match` names none.
pub proof fn lemma_first_match_absent(m: Seq<(u8, char)>, code: u8)
    requires
        forall|j: int| 0 <= j < m.len() ==> #[trigger] m[j].0 != code,
    ensures
        first_match(m, code) is None,
{
    if exists|k: int| is_first_match(m, code, k) {
        let k = choose|k: int| is_first_match(m, code, k);
        assert(m[k].0 != code);
    }
}

/// Where in `map` the first key with scan code `code` is.
pub fn position_of_scan_code(map: &Vec<(u8, char)>, code: u8) -> (r: Option<usize>)
    ensures
        match r {
            Some(i) => first_match(map@, code) == Some(i as int),
            None => first_match(map@, code) is None,
        },
{
    let mut i: usize = 0;
    while i < map.len()
        invariant
            0 <= i <= map.len(),
            forall|j: int| 0 <= j < i ==> #[trigger] map@[j].0 != code,
        decreases map.len() - i,
    {
        if map[i].0 == code {
            proof {
                lemma_first_match_is(map@, code, i as int);
            }
            return Some(i);
        }
        i += 1;
    }
    proof {
        lemma_first_match_absent(map@, code);
    }
    None
}

/// Whether a press at `p` and a release at `(x, y)` are less than 10 pixels apart.
pub fn within_click_distance(p: (i32, i32), x: i32, y: i32) -> (r: bool)
    ensures
        r == spec_within_click_distance(p, x, y),
{
    let dx: i64 = p.0 as i64 - x as i64;
    let dy: i64 = p.1 as i64 - y as i64;
    if dx <= -10 || dx >= 10 || dy <= -10 || dy >= 10 {
        assert(dx * dx + dy * dy >= 100) by (nonlinear_arith)
            requires
                dx <= -10 || dx >= 10 || dy <= -10 || dy >= 10,
        ;
        false
    } else {
        assert(0 <= dx * dx <= 100 && 0 <= dy * dy <= 100) by (nonlinear_arith)
            requires
                -10 < dx < 10,
                -10 < dy < 10,
        ;
        dx * dx + dy * dy < 100
    }
}

/// Whether the window should only poll for pending events instead of waiting
/// for the next one: when it writes its output to a file, exits after the
/// page has loaded, or runs without a visible window.
pub fn uses_event_polling(writes_output_file: bool, exit_after_load: bool, headless: bool) -> (r: bool)
    ensures
        r == (writes_output_file || exit_after_load || headless),
{
    writes_output_file || exit_after_load || headless
}

impl WindowState {
    /// The input state of a freshly opened window.
    pub fn new() -> (r: WindowState)
        ensures
            r@ == initial_model(),
            r.current_url is None,
    {
        WindowState {
            mouse_down_button: None,
            mouse_down_point: (0, 0),
            event_queue: Vec::new(),
            mouse_pos: (0, 0),
            key_modifiers: KeyModifiers::empty(),
            current_url: None,
            pending_key_event_char: None,
            pressed_key_map: Vec::new(),
        }
    }

    /// Flips the given modifier flags.
    pub fn toggle_modifier(&mut self, modifier: u8)
        ensures
            final(self)@ == (WindowModel { key_modifiers: KeyModifiers { bits: old(self).key_modifiers.bits ^ modifier }, ..old(self)@ }),
            final(self).current_url == old(self).current_url,
    {
        self.key_modifiers.toggle(modifier);
    }

    /// Handles a keyboard event whose key code is known.
    fn handle_key_input(&mut self, state: ElementState, scan_code: u8, code: VirtualKeyCode)
        ensures
            final(self)@ == spec_key_input(old(self)@, state, scan_code, code),
            final(self).current_url == old(self).current_url,
    {
        match modifier_for_key(code) {
            Some(flag) => self.toggle_modifier(flag),
            None => {},
        }
        let ch: Option<char> = match state {
            ElementState::Pressed => {
                // Retrieve any previously stored character and remember it
                // under the scan code, unless the key is not a printable one.
                let ch = match self.pending_key_event_char {
                    Some(p) => filter_nonprintable(p, code),
                    None => None,
                };
                self.pending_key_event_char = None;
                match ch {
                    Some(c) => self.pressed_key_map.push((scan_code, c)),
                    None => {},
                }
                ch
            },
            ElementState::Released => {
                // Retrieve the character stored for this key at its press, if any.
                match position_of_scan_code(&self.pressed_key_map, scan_code) {
                    Some(idx) => {
                        let entry = self.pressed_key_map.swap_remove(idx);
                        Some(entry.1)
                    },
                    None => None,
                }
            },
        };
        match glutin_key_to_script_key(code) {
            Ok(key) => {
                let st = key_state(state);
                let modifiers = glutin_mods_to_script_mods(self.key_modifiers);
                self.event_queue.push(WindowEvent::KeyEvent(ch, key, st, modifiers));
            },
            Err(_) => {},
        }
    }

    /// Handles a left or right mouse button event at `(x, y)`.
    pub fn handle_mouse(&mut self, button: MouseButton, action: ElementState, x: i32, y: i32)
        ensures
            final(self)@ == spec_handle_mouse(old(self)@, button, action, x, y),
            final(self).current_url == old(self).current_url,
    {
        let event = match action {
            ElementState::Pressed => {
                self.mouse_down_point = (x, y);
                self.mouse_down_button = Some(button);
                MouseWindowEvent::MouseDown(ScriptMouseButton::Left, x, y)
            },
            ElementState::Released => {
                let mouse_up_event = MouseWindowEvent::MouseUp(ScriptMouseButton::Left, x, y);
                match self.mouse_down_button {
                    None => mouse_up_event,
                    Some(but) => {
                        if button == but && within_click_distance(self.mouse_down_point, x, y) {
                            self.event_queue.push(WindowEvent::MouseWindowEventClass(mouse_up_event));
                            MouseWindowEvent::Click(ScriptMouseButton::Left, x, y)
                        } else {
                            mouse_up_event
                        }
                    },
                }
            },
        };
        self.event_queue.push(WindowEvent::MouseWindowEventClass(event));
    }

    /// Queues a scroll event at the cursor, with the given `f32` delta bit patterns.
    pub fn scroll_window(&mut self, dx_bits: u32, dy_bits: u32, phase: TouchEventType)
        ensures
            final(self)@ == spec_scroll(old(self)@, dx_bits, dy_bits, phase),
            final(self).current_url == old(self).current_url,
    {
        let event = WindowEvent::Scroll(dx_bits, dy_bits, self.mouse_pos.0, self.mouse_pos.1, phase);
        self.event_queue.push(event);
    }

    /// Handles one event from the windowing system; returns whether it asks
    /// the window to close.
    pub fn handle_window_event(&mut self, event: InputEvent) -> (close: bool)
        ensures
            final(self)@ == spec_window_step(old(self)@, event).0,
            close == spec_window_step(old(self)@, event).1,
            final(self).current_url == old(self).current_url,
    {
        match event {
            InputEvent::ReceivedCharacter(ch) => {
                if !char_is_control(ch) {
                    self.pending_key_event_char = Some(ch);
                }
            },
            InputEvent::KeyboardInput(state, scan_code, Some(code)) => {
                self.handle_key_input(state, scan_code, code);
            },
            InputEvent::KeyboardInput(_, _, None) => {},
            InputEvent::Resized(width, height) => {
                self.event_queue.push(WindowEvent::Resize(width, height));
            },
            InputEvent::MouseInput(state, button, pos) => {
                if button == MouseButton::Left || button == MouseButton::Right {
                    match pos {
                        Some((x, y)) => {
                            self.mouse_pos = (x, y);
                            self.event_queue.push(WindowEvent::MouseWindowMoveEventClass(x, y));
                            self.handle_mouse(button, state, x, y);
                        },
                        None => {
                            let mouse_pos = self.mouse_pos;
                            self.handle_mouse(button, state, mouse_pos.0, mouse_pos.1);
                        },
                    }
                }
            },
            InputEvent::MouseMoved(x, y) => {
                self.mouse_pos = (x, y);
                self.event_queue.push(WindowEvent::MouseWindowMoveEventClass(x, y));
            },
            InputEvent::MouseWheel(dx_bits, dy_bits, phase) => {
                let phase = glutin_phase_to_touch_event_type(phase);
                self.scroll_window(dx_bits, dy_bits, phase);
            },
            InputEvent::Touch(phase, id, lx, ly) => {
                let phase = glutin_phase_to_touch_event_type(phase);
                let id = id as i32;
                self.event_queue.push(WindowEvent::Touch(phase, id, lx, ly));
            },
            InputEvent::TouchpadPressure(pressure, stage) => {
                let m = self.mouse_pos;
                let phase = glutin_pressure_stage_to_touchpad_pressure_phase(stage);
                self.event_queue.push(WindowEvent::TouchpadPressure(m.0, m.1, pressure, phase));
            },
            InputEvent::Refresh => {
                self.event_queue.push(WindowEvent::Refresh);
            },
            InputEvent::Closed => {
                return true;
            },
            InputEvent::Other => {},
        }
        false
    }

    /// Handles the events in order, every one of them; returns whether any
    /// asked the window to close.
    pub fn handle_window_events(&mut self, events: &Vec<InputEvent>) -> (close: bool)
        ensures
            final(self)@ == spec_window_run(old(self)@, events@).0,
            close == spec_window_run(old(self)@, events@).1,
            final(self).current_url == old(self).current_url,
    {
        let mut close_event = false;
        let mut i: usize = 0;
        while i < events.len()
            invariant
                0 <= i <= events.len(),
                self@ == spec_window_run(old(self)@, events@.take(i as int)).0,
                close_event == spec_window_run(old(self)@, events@.take(i as int)).1,
                self.current_url == old(self).current_url,
            decreases events.len() - i,
        {
            let event = events[i];
            let closes = self.handle_window_event(event);
            close_event = closes || close_event;
            assert(events@.take(i + 1).drop_last() == events@.take(i as int));
            i += 1;
        }
        assert(events@.take(events.len() as int) == events@);
        close_event
    }

    /// Hands out the queued events, oldest first, and empties the queue.
    pub fn take_events(&mut self) -> (r: Vec<WindowEvent>)
        ensures
            r@ == old(self)@.events,
            final(self)@ == (WindowModel { events: Seq::empty(), ..old(self)@ }),
            final(self).current_url == old(self).current_url,
    {
        let mut events: Vec<WindowEvent> = Vec::new();
        std::mem::swap(&mut events, &mut self.event_queue);
        events
    }

    /// Completes a round of waiting for events: the events taken before the
    /// round, then a quit event if the round saw the window close, then the
    /// events queued during the round. The queue is left empty.
    pub fn finish_wait(&mut self, earlier: Vec<WindowEvent>, close_event: bool) -> (r: Vec<WindowEvent>)
        ensures
            r@ == earlier@ + (if close_event { seq![WindowEvent::Quit] } else { Seq::empty() }) + old(self)@.events,
            final(self)@ == (WindowModel { events: Seq::empty(), ..old(self)@ }),
            final(self).current_url == old(self).current_url,
    {
        let mut events = earlier;
        if close_event {
            events.push(WindowEvent::Quit);
        }
        let mut later = self.take_events();
        events.append(&mut later);
        events
    }

    /// Remembers the address of the page shown.
    pub fn set_page_url(&mut self, url: Url)
        ensures
            final(self)@ == old(self)@,
            final(self).current_url == Some(url),
    {
        self.current_url = Some(url);
    }
}

} // verus!
