//! Cursor shapes that Chromium asks the host to show.

use vstd::prelude::*;

use crate::codes;

verus! {

/// A cursor shape requested by a page.
#[derive(Debug, Clone, Copy, PartialEq, Eq, Structural)]
pub enum ChromeCursorType {
    Default,
    Crosshair,
    Pointer,
    Move,
    Text,
    Wait,
    Help,
    Progress,
    NotAllowed,
    ContextMenu,
    Cell,
    VerticalText,
    Alias,
    Copy,
    NoDrop,
    Grab,
    Grabbing,
    AllScroll,
    ZoomIn,
    ZoomOut,
    EResize,
    NResize,
    NeResize,
    NwResize,
    SResize,
    SeResize,
    SwResize,
    WResize,
    EwResize,
    NsResize,
    NeswResize,
    NwseResize,
    ColResize,
    RowResize,
}

/// Wire code of a cursor shape; the default cursor has none of its own.
pub open spec fn cursor_type_code(c: ChromeCursorType) -> Option<u8> {
    match c {
        ChromeCursorType::Default => None,
        ChromeCursorType::Crosshair => Some(codes::CURSOR_CROSSHAIR),
        ChromeCursorType::Pointer => Some(codes::CURSOR_POINTER),
        ChromeCursorType::Move => Some(codes::CURSOR_MOVE),
        ChromeCursorType::Text => Some(codes::CURSOR_TEXT),
        ChromeCursorType::Wait => Some(codes::CURSOR_WAIT),
        ChromeCursorType::Help => Some(codes::CURSOR_HELP),
        ChromeCursorType::Progress => Some(codes::CURSOR_PROGRESS),
        ChromeCursorType::NotAllowed => Some(codes::CURSOR_NOT_ALLOWED),
        ChromeCursorType::ContextMenu => Some(codes::CURSOR_CONTEXT_MENU),
        ChromeCursorType::Cell => Some(codes::CURSOR_CELL),
        ChromeCursorType::VerticalText => Some(codes::CURSOR_VERTICAL_TEXT),
        ChromeCursorType::Alias => Some(codes::CURSOR_ALIAS),
        ChromeCursorType::Copy => Some(codes::CURSOR_COPY),
        ChromeCursorType::NoDrop => Some(codes::CURSOR_NO_DROP),
        ChromeCursorType::Grab => Some(codes::CURSOR_GRAB),
        ChromeCursorType::Grabbing => Some(codes::CURSOR_GRABBING),
        ChromeCursorType::AllScroll => Some(codes::CURSOR_ALL_SCROLL),
        ChromeCursorType::ZoomIn => Some(codes::CURSOR_ZOOM_IN),
        ChromeCursorType::ZoomOut => Some(codes::CURSOR_ZOOM_OUT),
        ChromeCursorType::EResize => Some(codes::CURSOR_E_RESIZE),
        ChromeCursorType::NResize => Some(codes::CURSOR_N_RESIZE),
        ChromeCursorType::NeResize => Some(codes::CURSOR_NE_RESIZE),
        ChromeCursorType::NwResize => Some(codes::CURSOR_NW_RESIZE),
        ChromeCursorType::SResize => Some(codes::CURSOR_S_RESIZE),
        ChromeCursorType::SeResize => Some(codes::CURSOR_SE_RESIZE),
        ChromeCursorType::SwResize => Some(codes::CURSOR_SW_RESIZE),
        ChromeCursorType::WResize => Some(codes::CURSOR_W_RESIZE),
        ChromeCursorType::EwResize => Some(codes::CURSOR_EW_RESIZE),
        ChromeCursorType::NsResize => Some(codes::CURSOR_NS_RESIZE),
        ChromeCursorType::NeswResize => Some(codes::CURSOR_NESW_RESIZE),
        ChromeCursorType::NwseResize => Some(codes::CURSOR_NWSE_RESIZE),
        ChromeCursorType::ColResize => Some(codes::CURSOR_COL_RESIZE),
        ChromeCursorType::RowResize => Some(codes::CURSOR_ROW_RESIZE),
    }
}

/// The value a wire code decodes to.
pub open spec fn cursor_type_of(value: u8) -> ChromeCursorType {
    if value == codes::CURSOR_CROSSHAIR {
        ChromeCursorType::Crosshair
    } else if value == codes::CURSOR_POINTER {
        ChromeCursorType::Pointer
    } else if value == codes::CURSOR_MOVE {
        ChromeCursorType::Move
    } else if value == codes::CURSOR_TEXT {
        ChromeCursorType::Text
    } else if value == codes::CURSOR_WAIT {
        ChromeCursorType::Wait
    } else if value == codes::CURSOR_HELP {
        ChromeCursorType::Help
    } else if value == codes::CURSOR_PROGRESS {
        ChromeCursorType::Progress
    } else if value == codes::CURSOR_NOT_ALLOWED {
        ChromeCursorType::NotAllowed
    } else if value == codes::CURSOR_CONTEXT_MENU {
        ChromeCursorType::ContextMenu
    } else if value == codes::CURSOR_CELL {
        ChromeCursorType::Cell
    } else if value == codes::CURSOR_VERTICAL_TEXT {
        ChromeCursorType::VerticalText
    } else if value == codes::CURSOR_ALIAS {
        ChromeCursorType::Alias
    } else if value == codes::CURSOR_COPY {
        ChromeCursorType::Copy
    } else if value == codes::CURSOR_NO_DROP {
        ChromeCursorType::NoDrop
    } else if value == codes::CURSOR_GRAB {
        ChromeCursorType::Grab
    } else if value == codes::CURSOR_GRABBING {
        ChromeCursorType::Grabbing
    } else if value == codes::CURSOR_ALL_SCROLL {
        ChromeCursorType::AllScroll
    } else if value == codes::CURSOR_ZOOM_IN {
        ChromeCursorType::ZoomIn
    } else if value == codes::CURSOR_ZOOM_OUT {
        ChromeCursorType::ZoomOut
    } else if value == codes::CURSOR_E_RESIZE {
        ChromeCursorType::EResize
    } else if value == codes::CURSOR_N_RESIZE {
        ChromeCursorType::NResize
    } else if value == codes::CURSOR_NE_RESIZE {
        ChromeCursorType::NeResize
    } else if value == codes::CURSOR_NW_RESIZE {
        ChromeCursorType::NwResize
    } else if value == codes::CURSOR_S_RESIZE {
        ChromeCursorType::SResize
    } else if value == codes::CURSOR_SE_RESIZE {
        ChromeCursorType::SeResize
    } else if value == codes::CURSOR_SW_RESIZE {
        ChromeCursorType::SwResize
    } else if value == codes::CURSOR_W_RESIZE {
        ChromeCursorType::WResize
    } else if value == codes::CURSOR_EW_RESIZE {
        ChromeCursorType::EwResize
    } else if value == codes::CURSOR_NS_RESIZE {
        ChromeCursorType::NsResize
    } else if value == codes::CURSOR_NESW_RESIZE {
        ChromeCursorType::NeswResize
    } else if value == codes::CURSOR_NWSE_RESIZE {
        ChromeCursorType::NwseResize
    } else if value == codes::CURSOR_COL_RESIZE {
        ChromeCursorType::ColResize
    } else if value == codes::CURSOR_ROW_RESIZE {
        ChromeCursorType::RowResize
    } else {
        ChromeCursorType::Default
    }
}

/// Decode a cursor shape; a code without a shape of its own is the default cursor.
pub fn cursor_type_from_ffi(value: u8) -> (c: ChromeCursorType)
    ensures
        c == cursor_type_of(value),
        cursor_type_code(c) == Some(value) || (c == ChromeCursorType::Default && forall|
            x: ChromeCursorType,
        | cursor_type_code(x) != Some(value)),
{
    match value {
        codes::CURSOR_CROSSHAIR => ChromeCursorType::Crosshair,
        codes::CURSOR_POINTER => ChromeCursorType::Pointer,
        codes::CURSOR_MOVE => ChromeCursorType::Move,
        codes::CURSOR_TEXT => ChromeCursorType::Text,
        codes::CURSOR_WAIT => ChromeCursorType::Wait,
        codes::CURSOR_HELP => ChromeCursorType::Help,
        codes::CURSOR_PROGRESS => ChromeCursorType::Progress,
        codes::CURSOR_NOT_ALLOWED => ChromeCursorType::NotAllowed,
        codes::CURSOR_CONTEXT_MENU => ChromeCursorType::ContextMenu,
        codes::CURSOR_CELL => ChromeCursorType::Cell,
        codes::CURSOR_VERTICAL_TEXT => ChromeCursorType::VerticalText,
        codes::CURSOR_ALIAS => ChromeCursorType::Alias,
        codes::CURSOR_COPY => ChromeCursorType::Copy,
        codes::CURSOR_NO_DROP => ChromeCursorType::NoDrop,
        codes::CURSOR_GRAB => ChromeCursorType::Grab,
        codes::CURSOR_GRABBING => ChromeCursorType::Grabbing,
        codes::CURSOR_ALL_SCROLL => ChromeCursorType::AllScroll,
        codes::CURSOR_ZOOM_IN => ChromeCursorType::ZoomIn,
        codes::CURSOR_ZOOM_OUT => ChromeCursorType::ZoomOut,
        codes::CURSOR_E_RESIZE => ChromeCursorType::EResize,
        codes::CURSOR_N_RESIZE => ChromeCursorType::NResize,
        codes::CURSOR_NE_RESIZE => ChromeCursorType::NeResize,
        codes::CURSOR_NW_RESIZE => ChromeCursorType::NwResize,
        codes::CURSOR_S_RESIZE => ChromeCursorType::SResize,
        codes::CURSOR_SE_RESIZE => ChromeCursorType::SeResize,
        codes::CURSOR_SW_RESIZE => ChromeCursorType::SwResize,
        codes::CURSOR_W_RESIZE => ChromeCursorType::WResize,
        codes::CURSOR_EW_RESIZE => ChromeCursorType::EwResize,
        codes::CURSOR_NS_RESIZE => ChromeCursorType::NsResize,
        codes::CURSOR_NESW_RESIZE => ChromeCursorType::NeswResize,
        codes::CURSOR_NWSE_RESIZE => ChromeCursorType::NwseResize,
        codes::CURSOR_COL_RESIZE => ChromeCursorType::ColResize,
        codes::CURSOR_ROW_RESIZE => ChromeCursorType::RowResize,
        _ => ChromeCursorType::Default,
    }
}

/// Decoding undoes encoding: every value with a wire code decodes back to itself.
pub proof fn lemma_cursor_codes_round_trip()
    ensures
        forall|x: ChromeCursorType| #[trigger] cursor_type_code(x) matches Some(c) ==> cursor_type_of(c) == x,
{
}

} // verus!
