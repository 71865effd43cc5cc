//! The events that reach the window from the windowing system, the events that
//! the window hands on to the compositor, and the small translations between
//! their vocabularies.
//!
//! Values that the windowing system reports as floating-point numbers (scroll
//! deltas, touch locations, touchpad pressure) travel through this library as
//! their IEEE-754 bit patterns; the library never interprets them.
use vstd::prelude::*;
use crate::keys::{Key, VirtualKeyCode};
use crate::modifiers::ScriptKeyModifiers;

verus! {

/// Whether a key or a mouse button went down or up.
#[derive(Clone, Copy, Debug, PartialEq, Eq)]
pub enum ElementState {
    Pressed,
    Released,
}

/// A mouse button as the windowing system names it.
#[derive(Clone, Copy, Debug, PartialEq, Eq, Structural)]
pub enum MouseButton {
    Left,
    Right,
    Middle,
    Other(u8),
}

/// Phase of a touch or scroll gesture as reported by the windowing system.
#[derive(Clone, Copy, Debug, PartialEq, Eq)]
pub enum TouchPhase {
    Started,
    Moved,
    Ended,
    Cancelled,
}

/// One event from the windowing system, reduced to what the window reads of it.
#[derive(Clone, Copy, Debug, PartialEq)]
pub enum InputEvent {
    /// A character that the keyboard produced.
    ReceivedCharacter(char),
    /// A key went down or up: its state, its scan code and, when the system
    /// knows it, its key code.
    KeyboardInput(ElementState, u8, Option<VirtualKeyCode>),
    /// The window was resized to the given width and height.
    Resized(u32, u32),
    /// A mouse button went down or up, at the given position when known.
    MouseInput(ElementState, MouseButton, Option<(i32, i32)>),
    /// The cursor moved to the given position.
    MouseMoved(i32, i32),
    /// The wheel scrolled: the bit patterns of the horizontal and vertical
    /// pixel deltas, already snapped to the major axis, and the phase.
    MouseWheel(u32, u32, TouchPhase),
    /// A touch point: its phase, its identifier, and the bit patterns of the
    /// `f64` coordinates of its location.
    Touch(TouchPhase, u64, u64, u64),
    /// Touchpad pressure: the bit pattern of the `f32` pressure and the click stage.
    TouchpadPressure(u32, i64),
    /// The window asks to be redrawn.
    Refresh,
    /// The window was asked to close.
    Closed,
    /// Any other event; the window ignores it.
    Other,
}

/// Whether a key went down or up, as the script side names it.
#[derive(Clone, Copy, Debug, PartialEq, Eq)]
pub enum KeyState {
    Pressed,
    Released,
}

/// A mouse button as the script side names it.
#[derive(Clone, Copy, Debug, PartialEq, Eq)]
pub enum ScriptMouseButton {
    Left,
    Middle,
    Right,
}

/// A mouse event for the compositor, with its position in device pixels.
#[derive(Clone, Copy, Debug, PartialEq, Eq)]
pub enum MouseWindowEvent {
    Click(ScriptMouseButton, i32, i32),
    MouseDown(ScriptMouseButton, i32, i32),
    MouseUp(ScriptMouseButton, i32, i32),
}

/// Phase of a touch event as the script side expects it.
#[derive(Clone, Copy, Debug, PartialEq, Eq)]
pub enum TouchEventType {
    Down,
    Move,
    Up,
    Cancel,
}

/// How far a touchpad press has gone.
#[derive(Clone, Copy, Debug, PartialEq, Eq)]
pub enum TouchpadPressurePhase {
    BeforeClick,
    AfterFirstClick,
    AfterSecondClick,
}

/// A step through the session history.
#[derive(Clone, Copy, Debug, PartialEq, Eq)]
pub enum WindowNavigateMsg {
    Forward,
    Back,
}

/// One step of zoom: in multiplies the scale by 1.1, out divides it by 1.1.
#[derive(Clone, Copy, Debug, PartialEq, Eq)]
pub enum ZoomStep {
    In,
    Out,
}

/// An event that the window hands on to the compositor.
#[derive(Clone, Copy, Debug, PartialEq)]
pub enum WindowEvent {
    /// A key event: the character it produced, if any, the key, whether it
    /// went down or up, and the modifiers held.
    KeyEvent(Option<char>, Key, KeyState, ScriptKeyModifiers),
    /// The window now has the given width and height.
    Resize(u32, u32),
    /// The cursor is at the given position.
    MouseWindowMoveEventClass(i32, i32),
    /// A mouse button event.
    MouseWindowEventClass(MouseWindowEvent),
    /// Scroll by the deltas whose `f32` bit patterns are given, with the
    /// cursor at the given position, in the given phase.
    Scroll(u32, u32, i32, i32, TouchEventType),
    /// A touch: phase, identifier, and the `f64` bit patterns of its location.
    Touch(TouchEventType, i32, u64, u64),
    /// Touchpad pressure at the cursor position: the `f32` bit pattern of the
    /// pressure and its phase.
    TouchpadPressure(i32, i32, u32, TouchpadPressurePhase),
    /// Redraw.
    Refresh,
    /// Quit the browser.
    Quit,
    /// Go forward or back in the session history.
    Navigation(WindowNavigateMsg),
    /// Change the page zoom by one step.
    Zoom(ZoomStep),
    /// Change the pinch zoom by one step.
    PinchZoom(ZoomStep),
    /// Reset the page zoom.
    ResetZoom,
    /// Reload the page.
    Reload,
}

pub open spec fn spec_touch_event_type(phase: TouchPhase) -> TouchEventType {
    match phase {
        TouchPhase::Started => TouchEventType::Down,
        TouchPhase::Moved => TouchEventType::Move,
        TouchPhase::Ended => TouchEventType::Up,
        TouchPhase::Cancelled => TouchEventType::Cancel,
    }
}

/// Maps a windowing-system touch phase to the script-side touch event type.
pub fn glutin_phase_to_touch_event_type(phase: TouchPhase) -> (r: TouchEventType)
    ensures
        r == spec_touch_event_type(phase),
{
    match phase {
        TouchPhase::Started => TouchEventType::Down,
        TouchPhase::Moved => TouchEventType::Move,
        TouchPhase::Ended => TouchEventType::Up,
        TouchPhase::Cancelled => TouchEventType::Cancel,
    }
}

/// The pressure phase for a touchpad click stage: below 1 no click yet,
/// below 2 the first click, otherwise the second.
pub open spec fn spec_pressure_phase(stage: i64) -> TouchpadPressurePhase {
    if stage < 1 {
        TouchpadPressurePhase::BeforeClick
    } else if stage < 2 {
        TouchpadPressurePhase::AfterFirstClick
    } else {
        TouchpadPressurePhase::AfterSecondClick
    }
}

/// Maps a touchpad click stage to the script-side pressure phase.
pub fn glutin_pressure_stage_to_touchpad_pressure_phase(stage: i64) -> (r: TouchpadPressurePhase)
    ensures
        r == spec_pressure_phase(stage),
{
    if stage < 1 {
        TouchpadPressurePhase::BeforeClick
    } else if stage < 2 {
        TouchpadPressurePhase::AfterFirstClick
    } else {
        TouchpadPressurePhase::AfterSecondClick
    }
}

pub open spec fn spec_key_state(state: ElementState) -> KeyState {
    match state {
        ElementState::Pressed => KeyState::Pressed,
        ElementState::Released => KeyState::Released,
    }
}

/// Maps a key's windowing-system state to the script-side key state.
pub fn key_state(state: ElementState) -> (r: KeyState)
    ensures
        r == spec_key_state(state),
{
    match state {
        ElementState::Pressed => KeyState::Pressed,
        ElementState::Released => KeyState::Released,
    }
}

} // verus!
