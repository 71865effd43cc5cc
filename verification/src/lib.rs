//! The input-handling core of a glutin-based browser window: it turns the
//! windowing system's keyboard, mouse and touch events into the events that
//! the compositor consumes, tracks modifier keys, held keys and clicks, maps
//! key presses to browser shortcuts, and composes the window title.

pub mod cursor;
pub mod events;
pub mod key_laws;
pub mod keys;
pub mod laws;
pub mod modifiers;
pub mod shortcuts;
pub mod title;
pub mod window;
