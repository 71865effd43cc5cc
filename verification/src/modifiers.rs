//! Modifier-key state: the per-side flags that the window tracks while keys
//! go down and up, and the side-less flags that the script side receives.
use vstd::prelude::*;
use crate::keys::VirtualKeyCode;

verus! {

/// Left Control key flag of [`KeyModifiers`].
pub const LEFT_CONTROL: u8 = 1;
/// Right Control key flag of [`KeyModifiers`].
pub const RIGHT_CONTROL: u8 = 2;
/// Left Shift key flag of [`KeyModifiers`].
pub const LEFT_SHIFT: u8 = 4;
/// Right Shift key flag of [`KeyModifiers`].
pub const RIGHT_SHIFT: u8 = 8;
/// Left Alt key flag of [`KeyModifiers`].
pub const LEFT_ALT: u8 = 16;
/// Right Alt key flag of [`KeyModifiers`].
pub const RIGHT_ALT: u8 = 32;
/// Left Super (Windows / Command) key flag of [`KeyModifiers`].
pub const LEFT_SUPER: u8 = 64;
/// Right Super (Windows / Command) key flag of [`KeyModifiers`].
pub const RIGHT_SUPER: u8 = 128;

/// No flag of [`ScriptKeyModifiers`].
pub const NONE: u8 = 0;
/// Shift flag of [`ScriptKeyModifiers`].
pub const SHIFT: u8 = 1;
/// Control flag of [`ScriptKeyModifiers`].
pub const CONTROL: u8 = 2;
/// Alt flag of [`ScriptKeyModifiers`].
pub const ALT: u8 = 4;
/// Super flag of [`ScriptKeyModifiers`].
pub const SUPER: u8 = 8;

/// The set of modifier keys, told apart by side, that the window believes
/// to be held down. Each bit is one of the flags `LEFT_CONTROL` .. `RIGHT_SUPER`.
#[derive(Clone, Copy, Debug, PartialEq, Eq)]
pub struct KeyModifiers {
    pub bits: u8,
}

/// The modifier set that accompanies a key event sent to the script side.
/// Each bit is one of `SHIFT`, `CONTROL`, `ALT`, `SUPER`.
#[derive(Clone, Copy, Debug, PartialEq, Eq)]
pub struct ScriptKeyModifiers {
    pub bits: u8,
}

/// `m` with the flags of `flag` flipped.
pub open spec fn toggled(m: KeyModifiers, flag: u8) -> KeyModifiers {
    KeyModifiers { bits: m.bits ^ flag }
}

impl KeyModifiers {
    /// The set with no modifier held.
    pub fn empty() -> (r: KeyModifiers)
        ensures
            r.bits == 0,
    {
        KeyModifiers { bits: 0 }
    }

    /// Flips the flags of `flag`: held ones are released, released ones held.
    pub fn toggle(&mut self, flag: u8)
        ensures
            *final(self) == toggled(*old(self), flag),
    {
        self.bits = self.bits ^ flag;
    }

    /// Whether any flag of `flags` is held.
    pub fn intersects(&self, flags: u8) -> (r: bool)
        ensures
            r == (self.bits & flags != 0),
    {
        self.bits & flags != 0
    }
}

impl ScriptKeyModifiers {
    /// The set with no modifier.
    pub fn empty() -> (r: ScriptKeyModifiers)
        ensures
            r.bits == NONE,
    {
        ScriptKeyModifiers { bits: NONE }
    }

    /// Adds the flags of `flag`.
    pub fn insert(&mut self, flag: u8)
        ensures
            final(self).bits == old(self).bits | flag,
    {
        self.bits = self.bits | flag;
    }
}

/// The per-side flag that a modifier key code toggles, if it is a modifier key.
pub open spec fn spec_modifier_for_key(code: VirtualKeyCode) -> Option<u8> {
    match code {
        VirtualKeyCode::LControl => Some(LEFT_CONTROL),
        VirtualKeyCode::RControl => Some(RIGHT_CONTROL),
        VirtualKeyCode::LShift => Some(LEFT_SHIFT),
        VirtualKeyCode::RShift => Some(RIGHT_SHIFT),
        VirtualKeyCode::LAlt => Some(LEFT_ALT),
        VirtualKeyCode::RAlt => Some(RIGHT_ALT),
        VirtualKeyCode::LWin => Some(LEFT_SUPER),
        VirtualKeyCode::RWin => Some(RIGHT_SUPER),
        _ => None,
    }
}

/// The per-side flag that a modifier key code toggles, if it is a modifier key.
pub fn modifier_for_key(code: VirtualKeyCode) -> (r: Option<u8>)
    ensures
        r == spec_modifier_for_key(code),
{
    match code {
        VirtualKeyCode::LControl => Some(LEFT_CONTROL),
        VirtualKeyCode::RControl => Some(RIGHT_CONTROL),
        VirtualKeyCode::LShift => Some(LEFT_SHIFT),
        VirtualKeyCode::RShift => Some(RIGHT_SHIFT),
        VirtualKeyCode::LAlt => Some(LEFT_ALT),
        VirtualKeyCode::RAlt => Some(RIGHT_ALT),
        VirtualKeyCode::LWin => Some(LEFT_SUPER),
        VirtualKeyCode::RWin => Some(RIGHT_SUPER),
        _ => None,
    }
}

/// The modifier set after a keyboard event for `code`: a modifier key flips
/// its flag (on press and on release alike); other keys leave the set alone.
pub open spec fn spec_modifiers_after_key(m: KeyModifiers, code: VirtualKeyCode) -> KeyModifiers {
    match spec_modifier_for_key(code) {
        Some(flag) => toggled(m, flag),
        None => m,
    }
}

/// The script-side flag set for a per-side set: a flag is present when the
/// left or the right key of its kind is held.
pub open spec fn spec_script_mods(m: KeyModifiers) -> ScriptKeyModifiers {
    let shift: u8 = if m.bits & (LEFT_SHIFT | RIGHT_SHIFT) != 0 { SHIFT } else { NONE };
    let control: u8 = if m.bits & (LEFT_CONTROL | RIGHT_CONTROL) != 0 { CONTROL } else { NONE };
    let alt: u8 = if m.bits & (LEFT_ALT | RIGHT_ALT) != 0 { ALT } else { NONE };
    let sup: u8 = if m.bits & (LEFT_SUPER | RIGHT_SUPER) != 0 { SUPER } else { NONE };
    ScriptKeyModifiers { bits: shift | control | alt | sup }
}

/// Collapses the per-side modifier set into the side-less set of the script side.
pub fn glutin_mods_to_script_mods(modifiers: KeyModifiers) -> (r: ScriptKeyModifiers)
    ensures
        r == spec_script_mods(modifiers),
{
    let mut result = ScriptKeyModifiers::empty();
    let shift: u8 = if modifiers.intersects(LEFT_SHIFT | RIGHT_SHIFT) { SHIFT } else { NONE };
    let control: u8 = if modifiers.intersects(LEFT_CONTROL | RIGHT_CONTROL) { CONTROL } else { NONE };
    let alt: u8 = if modifiers.intersects(LEFT_ALT | RIGHT_ALT) { ALT } else { NONE };
    let sup: u8 = if modifiers.intersects(LEFT_SUPER | RIGHT_SUPER) { SUPER } else { NONE };
    if shift != NONE {
        result.insert(SHIFT);
    }
    if control != NONE {
        result.insert(CONTROL);
    }
    if alt != NONE {
        result.insert(ALT);
    }
    if sup != NONE {
        result.insert(SUPER);
    }
    proof {
        lemma_or_chain(shift, control, alt, sup);
    }
    result
}

/// Inserting each of four flag values one at a time into an empty set, and
/// skipping the ones that are zero, gives their union.
proof fn lemma_or_chain(a: u8, b: u8, c: u8, d: u8)
    ensures
        ({
            let r0: u8 = 0u8;
            let r1: u8 = if a != 0 { r0 | a } else { r0 };
            let r2: u8 = if b != 0 { r1 | b } else { r1 };
            let r3: u8 = if c != 0 { r2 | c } else { r2 };
            let r4: u8 = if d != 0 { r3 | d } else { r3 };
            r4 == a | b | c | d
        }),
{
    assert(({
        let r0: u8 = 0u8;
        let r1: u8 = if a != 0 { r0 | a } else { r0 };
        let r2: u8 = if b != 0 { r1 | b } else { r1 };
        let r3: u8 = if c != 0 { r2 | c } else { r2 };
        let r4: u8 = if d != 0 { r3 | d } else { r3 };
        r4 == a | b | c | d
    })) by (bit_vector);
}

/// Flipping the same flags twice gives back the set one started from: a
/// modifier key that goes down and up again leaves the state as it was.
pub proof fn lemma_toggle_twice(m: KeyModifiers, flag: u8)
    ensures
        toggled(toggled(m, flag), flag) == m,
{
    let b = m.bits;
    assert((b ^ flag) ^ flag == b) by (bit_vector);
}

/// A flag of the script-side set is present exactly when the left or the
/// right key of its kind is held, and no other bit is ever set.
pub proof fn lemma_script_mods_flags(m: KeyModifiers)
    ensures
        (spec_script_mods(m).bits & SHIFT != 0) == (m.bits & (LEFT_SHIFT | RIGHT_SHIFT) != 0),
        (spec_script_mods(m).bits & CONTROL != 0) == (m.bits & (LEFT_CONTROL | RIGHT_CONTROL) != 0),
        (spec_script_mods(m).bits & ALT != 0) == (m.bits & (LEFT_ALT | RIGHT_ALT) != 0),
        (spec_script_mods(m).bits & SUPER != 0) == (m.bits & (LEFT_SUPER | RIGHT_SUPER) != 0),
        spec_script_mods(m).bits & 0xf0 == 0,
{
    let b = m.bits;
    let s: u8 = if b & (LEFT_SHIFT | RIGHT_SHIFT) != 0 { SHIFT } else { NONE };
    let c: u8 = if b & (LEFT_CONTROL | RIGHT_CONTROL) != 0 { CONTROL } else { NONE };
    let a: u8 = if b & (LEFT_ALT | RIGHT_ALT) != 0 { ALT } else { NONE };
    let u: u8 = if b & (LEFT_SUPER | RIGHT_SUPER) != 0 { SUPER } else { NONE };
    assert(spec_script_mods(m).bits == s | c | a | u);
    assert({
        &&& ((s | c | a | u) & 1u8 != 0) == (b & (4u8 | 8u8) != 0)
        &&& ((s | c | a | u) & 2u8 != 0) == (b & (1u8 | 2u8) != 0)
        &&& ((s | c | a | u) & 4u8 != 0) == (b & (16u8 | 32u8) != 0)
        &&& ((s | c | a | u) & 8u8 != 0) == (b & (64u8 | 128u8) != 0)
        &&& (s | c | a | u) & 0xf0u8 == 0
    }) by (bit_vector)
        requires
            s == (if b & (4u8 | 8u8) != 0 { 1u8 } else { 0u8 }),
            c == (if b & (1u8 | 2u8) != 0 { 2u8 } else { 0u8 }),
            a == (if b & (16u8 | 32u8) != 0 { 4u8 } else { 0u8 }),
            u == (if b & (64u8 | 128u8) != 0 { 8u8 } else { 0u8 }),
    ;
}

} // verus!
