//! The mouse cursor that a page asks for, and the windowing system's cursor shown for it.
use vstd::prelude::*;

verus! {

/// A cursor as a page's style asks for it.
#[derive(Clone, Copy, Debug, PartialEq, Eq)]
pub enum Cursor {
    NoCursor,
    Default,
    Pointer,
    ContextMenu,
    Help,
    Progress,
    Wait,
    Cell,
    Crosshair,
    Text,
    VerticalText,
    Alias,
    Copy,
    Move,
    NoDrop,
    NotAllowed,
    Grab,
    Grabbing,
    EResize,
    NResize,
    NeResize,
    NwResize,
    SResize,
    SeResize,
    SwResize,
    WResize,
    EwResize,
    NsResize,
    NeswResize,
    NwseResize,
    ColResize,
    RowResize,
    AllScroll,
    ZoomIn,
    ZoomOut,
}

/// A cursor shape that the windowing system can show.
#[derive(Clone, Copy, Debug, PartialEq, Eq)]
pub enum MouseCursor {
    Default,
    Crosshair,
    Hand,
    Arrow,
    Move,
    Text,
    Wait,
    Help,
    Progress,
    NotAllowed,
    ContextMenu,
    NoneCursor,
    Cell,
    VerticalText,
    Alias,
    Copy,
    NoDrop,
    Grab,
    Grabbing,
    AllScroll,
    ZoomIn,
    ZoomOut,
    EResize,
    NResize,
    NeResize,
    NwResize,
    SResize,
    SeResize,
    SwResize,
    WResize,
    EwResize,
    NsResize,
    NeswResize,
    NwseResize,
    ColResize,
    RowResize,
}

/// The windowing-system cursor shown for a requested cursor.
pub open spec fn spec_glutin_cursor(c: Cursor) -> MouseCursor {
    match c {
        Cursor::NoCursor => MouseCursor::NoneCursor,
        Cursor::Default => MouseCursor::Default,
        Cursor::Pointer => MouseCursor::Hand,
        Cursor::ContextMenu => MouseCursor::ContextMenu,
        Cursor::Help => MouseCursor::Help,
        Cursor::Progress => MouseCursor::Progress,
        Cursor::Wait => MouseCursor::Wait,
        Cursor::Cell => MouseCursor::Cell,
        Cursor::Crosshair => MouseCursor::Crosshair,
        Cursor::Text => MouseCursor::Text,
        Cursor::VerticalText => MouseCursor::VerticalText,
        Cursor::Alias => MouseCursor::Alias,
        Cursor::Copy => MouseCursor::Copy,
        Cursor::Move => MouseCursor::Move,
        Cursor::NoDrop => MouseCursor::NoDrop,
        Cursor::NotAllowed => MouseCursor::NotAllowed,
        Cursor::Grab => MouseCursor::Grab,
        Cursor::Grabbing => MouseCursor::Grabbing,
        Cursor::EResize => MouseCursor::EResize,
        Cursor::NResize => MouseCursor::NResize,
        Cursor::NeResize => MouseCursor::NeResize,
        Cursor::NwResize => MouseCursor::NwResize,
        Cursor::SResize => MouseCursor::SResize,
        Cursor::SeResize => MouseCursor::SeResize,
        Cursor::SwResize => MouseCursor::SwResize,
        Cursor::WResize => MouseCursor::WResize,
        Cursor::EwResize => MouseCursor::EwResize,
        Cursor::NsResize => MouseCursor::NsResize,
        Cursor::NeswResize => MouseCursor::NeswResize,
        Cursor::NwseResize => MouseCursor::NwseResize,
        Cursor::ColResize => MouseCursor::ColResize,
        Cursor::RowResize => MouseCursor::RowResize,
        Cursor::AllScroll => MouseCursor::AllScroll,
        Cursor::ZoomIn => MouseCursor::ZoomIn,
        Cursor::ZoomOut => MouseCursor::ZoomOut,
    }
}

/// The windowing-system cursor shown for a requested cursor: the same shape
/// by name, the pointer as a hand, and no cursor as the empty cursor.
pub fn glutin_cursor(c: Cursor) -> (r: MouseCursor)
    ensures
        r == spec_glutin_cursor(c),
{
    match c {
        Cursor::NoCursor => MouseCursor::NoneCursor,
        Cursor::Default => MouseCursor::Default,
        Cursor::Pointer => MouseCursor::Hand,
        Cursor::ContextMenu => MouseCursor::ContextMenu,
        Cursor::Help => MouseCursor::Help,
        Cursor::Progress => MouseCursor::Progress,
        Cursor::Wait => MouseCursor::Wait,
        Cursor::Cell => MouseCursor::Cell,
        Cursor::Crosshair => MouseCursor::Crosshair,
        Cursor::Text => MouseCursor::Text,
        Cursor::VerticalText => MouseCursor::VerticalText,
        Cursor::Alias => MouseCursor::Alias,
        Cursor::Copy => MouseCursor::Copy,
        Cursor::Move => MouseCursor::Move,
        Cursor::NoDrop => MouseCursor::NoDrop,
        Cursor::NotAllowed => MouseCursor::NotAllowed,
        Cursor::Grab => MouseCursor::Grab,
        Cursor::Grabbing => MouseCursor::Grabbing,
        Cursor::EResize => MouseCursor::EResize,
        Cursor::NResize => MouseCursor::NResize,
        Cursor::NeResize => MouseCursor::NeResize,
        Cursor::NwResize => MouseCursor::NwResize,
        Cursor::SResize => MouseCursor::SResize,
        Cursor::SeResize => MouseCursor::SeResize,
        Cursor::SwResize => MouseCursor::SwResize,
        Cursor::WResize => MouseCursor::WResize,
        Cursor::EwResize => MouseCursor::EwResize,
        Cursor::NsResize => MouseCursor::NsResize,
        Cursor::NeswResize => MouseCursor::NeswResize,
        Cursor::NwseResize => MouseCursor::NwseResize,
        Cursor::ColResize => MouseCursor::ColResize,
        Cursor::RowResize => MouseCursor::RowResize,
        Cursor::AllScroll => MouseCursor::AllScroll,
        Cursor::ZoomIn => MouseCursor::ZoomIn,
        Cursor::ZoomOut => MouseCursor::ZoomOut,
    }
}


/// The requested cursor that a windowing-system cursor shape is named after:
/// the same name, except the hand for the pointer and the empty cursor for
/// no cursor; the plain arrow answers no request.
pub open spec fn requested_cursor(c: MouseCursor) -> Option<Cursor> {
    match c {
        MouseCursor::NoneCursor => Some(Cursor::NoCursor),
        MouseCursor::Default => Some(Cursor::Default),
        MouseCursor::Hand => Some(Cursor::Pointer),
        MouseCursor::ContextMenu => Some(Cursor::ContextMenu),
        MouseCursor::Help => Some(Cursor::Help),
        MouseCursor::Progress => Some(Cursor::Progress),
        MouseCursor::Wait => Some(Cursor::Wait),
        MouseCursor::Cell => Some(Cursor::Cell),
        MouseCursor::Crosshair => Some(Cursor::Crosshair),
        MouseCursor::Text => Some(Cursor::Text),
        MouseCursor::VerticalText => Some(Cursor::VerticalText),
        MouseCursor::Alias => Some(Cursor::Alias),
        MouseCursor::Copy => Some(Cursor::Copy),
        MouseCursor::Move => Some(Cursor::Move),
        MouseCursor::NoDrop => Some(Cursor::NoDrop),
        MouseCursor::NotAllowed => Some(Cursor::NotAllowed),
        MouseCursor::Grab => Some(Cursor::Grab),
        MouseCursor::Grabbing => Some(Cursor::Grabbing),
        MouseCursor::EResize => Some(Cursor::EResize),
        MouseCursor::NResize => Some(Cursor::NResize),
        MouseCursor::NeResize => Some(Cursor::NeResize),
        MouseCursor::NwResize => Some(Cursor::NwResize),
        MouseCursor::SResize => Some(Cursor::SResize),
        MouseCursor::SeResize => Some(Cursor::SeResize),
        MouseCursor::SwResize => Some(Cursor::SwResize),
        MouseCursor::WResize => Some(Cursor::WResize),
        MouseCursor::EwResize => Some(Cursor::EwResize),
        MouseCursor::NsResize => Some(Cursor::NsResize),
        MouseCursor::NeswResize => Some(Cursor::NeswResize),
        MouseCursor::NwseResize => Some(Cursor::NwseResize),
        MouseCursor::ColResize => Some(Cursor::ColResize),
        MouseCursor::RowResize => Some(Cursor::RowResize),
        MouseCursor::AllScroll => Some(Cursor::AllScroll),
        MouseCursor::ZoomIn => Some(Cursor::ZoomIn),
        MouseCursor::ZoomOut => Some(Cursor::ZoomOut),
        MouseCursor::Arrow => None,
    }
}

/// Each requested cursor is shown as the shape named after it, so no two
/// requests share a shape, and the plain arrow is never shown.
pub proof fn lemma_cursor_shown_as_its_own_shape(c: Cursor)
    ensures
        requested_cursor(spec_glutin_cursor(c)) == Some(c),
        spec_glutin_cursor(c) != MouseCursor::Arrow,
{
}

} // verus!
