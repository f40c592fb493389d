//! Mouse event vocabulary and its wire encoding.

use vstd::prelude::*;

use crate::codes;

verus! {

#[derive(Debug, Clone, Copy, PartialEq, Eq, Structural)]
pub enum ChromeMouseEventType {
    Down,
    Up,
    Move,
    Enter,
    Leave,
}

#[derive(Debug, Clone, Copy, PartialEq, Eq, Structural)]
pub enum ChromeMouseButton {
    NoButton,
    Left,
    Middle,
    Right,
    Back,
    Forward,
}

#[derive(Debug, Clone, Copy, PartialEq, Eq, Structural)]
pub enum ChromePointerType {
    Unknown,
    Mouse,
    Pen,
    Touch,
    Eraser,
}

pub open spec fn mouse_event_type_code(t: ChromeMouseEventType) -> u8 {
    match t {
        ChromeMouseEventType::Down => codes::MOUSE_EVENT_DOWN,
        ChromeMouseEventType::Up => codes::MOUSE_EVENT_UP,
        ChromeMouseEventType::Move => codes::MOUSE_EVENT_MOVE,
        ChromeMouseEventType::Enter => codes::MOUSE_EVENT_ENTER,
        ChromeMouseEventType::Leave => codes::MOUSE_EVENT_LEAVE,
    }
}

pub open spec fn mouse_button_code(b: ChromeMouseButton) -> u8 {
    match b {
        ChromeMouseButton::NoButton => codes::MOUSE_BUTTON_NONE,
        ChromeMouseButton::Left => codes::MOUSE_BUTTON_LEFT,
        ChromeMouseButton::Middle => codes::MOUSE_BUTTON_MIDDLE,
        ChromeMouseButton::Right => codes::MOUSE_BUTTON_RIGHT,
        ChromeMouseButton::Back => codes::MOUSE_BUTTON_BACK,
        ChromeMouseButton::Forward => codes::MOUSE_BUTTON_FORWARD,
    }
}

pub open spec fn pointer_type_code(p: ChromePointerType) -> u8 {
    match p {
        ChromePointerType::Unknown => codes::POINTER_TYPE_UNKNOWN,
        ChromePointerType::Mouse => codes::POINTER_TYPE_MOUSE,
        ChromePointerType::Pen => codes::POINTER_TYPE_PEN,
        ChromePointerType::Touch => codes::POINTER_TYPE_TOUCH,
        ChromePointerType::Eraser => codes::POINTER_TYPE_ERASER,
    }
}

pub fn mouse_event_type_to_ffi(value: ChromeMouseEventType) -> (code: u8)
    ensures
        code == mouse_event_type_code(value),
{
    match value {
        ChromeMouseEventType::Down => codes::MOUSE_EVENT_DOWN,
        ChromeMouseEventType::Up => codes::MOUSE_EVENT_UP,
        ChromeMouseEventType::Move => codes::MOUSE_EVENT_MOVE,
        ChromeMouseEventType::Enter => codes::MOUSE_EVENT_ENTER,
        ChromeMouseEventType::Leave => codes::MOUSE_EVENT_LEAVE,
    }
}

/// The value a wire code decodes to.
pub open spec fn mouse_event_type_of(value: u8) -> ChromeMouseEventType {
    if value == codes::MOUSE_EVENT_DOWN {
        ChromeMouseEventType::Down
    } else if value == codes::MOUSE_EVENT_UP {
        ChromeMouseEventType::Up
    } else if value == codes::MOUSE_EVENT_MOVE {
        ChromeMouseEventType::Move
    } else if value == codes::MOUSE_EVENT_ENTER {
        ChromeMouseEventType::Enter
    } else if value == codes::MOUSE_EVENT_LEAVE {
        ChromeMouseEventType::Leave
    } else {
        ChromeMouseEventType::Move
    }
}

/// Decode a mouse event type; unknown codes read as `Move`.
pub fn mouse_event_type_from_ffi(value: u8) -> (t: ChromeMouseEventType)
    ensures
        t == mouse_event_type_of(value),
        mouse_event_type_code(t) == value || (t == ChromeMouseEventType::Move && forall|
            x: ChromeMouseEventType,
        | mouse_event_type_code(x) != value),
{
    match value {
        codes::MOUSE_EVENT_DOWN => ChromeMouseEventType::Down,
        codes::MOUSE_EVENT_UP => ChromeMouseEventType::Up,
        codes::MOUSE_EVENT_MOVE => ChromeMouseEventType::Move,
        codes::MOUSE_EVENT_ENTER => ChromeMouseEventType::Enter,
        codes::MOUSE_EVENT_LEAVE => ChromeMouseEventType::Leave,
        _ => ChromeMouseEventType::Move,
    }
}

pub fn mouse_button_to_ffi(value: ChromeMouseButton) -> (code: u8)
    ensures
        code == mouse_button_code(value),
{
    match value {
        ChromeMouseButton::NoButton => codes::MOUSE_BUTTON_NONE,
        ChromeMouseButton::Left => codes::MOUSE_BUTTON_LEFT,
        ChromeMouseButton::Middle => codes::MOUSE_BUTTON_MIDDLE,
        ChromeMouseButton::Right => codes::MOUSE_BUTTON_RIGHT,
        ChromeMouseButton::Back => codes::MOUSE_BUTTON_BACK,
        ChromeMouseButton::Forward => codes::MOUSE_BUTTON_FORWARD,
    }
}

/// The value a wire code decodes to.
pub open spec fn mouse_button_of(value: u8) -> ChromeMouseButton {
    if value == codes::MOUSE_BUTTON_LEFT {
        ChromeMouseButton::Left
    } else if value == codes::MOUSE_BUTTON_MIDDLE {
        ChromeMouseButton::Middle
    } else if value == codes::MOUSE_BUTTON_RIGHT {
        ChromeMouseButton::Right
    } else if value == codes::MOUSE_BUTTON_BACK {
        ChromeMouseButton::Back
    } else if value == codes::MOUSE_BUTTON_FORWARD {
        ChromeMouseButton::Forward
    } else {
        ChromeMouseButton::NoButton
    }
}

/// Decode a mouse button; unknown codes read as no button.
pub fn mouse_button_from_ffi(value: u8) -> (b: ChromeMouseButton)
    ensures
        b == mouse_button_of(value),
        mouse_button_code(b) == value || (b == ChromeMouseButton::NoButton && forall|
            x: ChromeMouseButton,
        | mouse_button_code(x) != value),
{
    match value {
        codes::MOUSE_BUTTON_LEFT => ChromeMouseButton::Left,
        codes::MOUSE_BUTTON_MIDDLE => ChromeMouseButton::Middle,
        codes::MOUSE_BUTTON_RIGHT => ChromeMouseButton::Right,
        codes::MOUSE_BUTTON_BACK => ChromeMouseButton::Back,
        codes::MOUSE_BUTTON_FORWARD => ChromeMouseButton::Forward,
        _ => ChromeMouseButton::NoButton,
    }
}

pub fn pointer_type_to_ffi(value: ChromePointerType) -> (code: u8)
    ensures
        code == pointer_type_code(value),
{
    match value {
        ChromePointerType::Unknown => codes::POINTER_TYPE_UNKNOWN,
        ChromePointerType::Mouse => codes::POINTER_TYPE_MOUSE,
        ChromePointerType::Pen => codes::POINTER_TYPE_PEN,
        ChromePointerType::Touch => codes::POINTER_TYPE_TOUCH,
        ChromePointerType::Eraser => codes::POINTER_TYPE_ERASER,
    }
}

/// The value a wire code decodes to.
pub open spec fn pointer_type_of(value: u8) -> ChromePointerType {
    if value == codes::POINTER_TYPE_MOUSE {
        ChromePointerType::Mouse
    } else if value == codes::POINTER_TYPE_PEN {
        ChromePointerType::Pen
    } else if value == codes::POINTER_TYPE_TOUCH {
        ChromePointerType::Touch
    } else if value == codes::POINTER_TYPE_ERASER {
        ChromePointerType::Eraser
    } else {
        ChromePointerType::Unknown
    }
}

/// Decode a pointer type; unknown codes read as `Unknown`.
pub fn pointer_type_from_ffi(value: u8) -> (p: ChromePointerType)
    ensures
        p == pointer_type_of(value),
        pointer_type_code(p) == value || (p == ChromePointerType::Unknown && forall|
            x: ChromePointerType,
        | pointer_type_code(x) != value),
{
    match value {
        codes::POINTER_TYPE_MOUSE => ChromePointerType::Mouse,
        codes::POINTER_TYPE_PEN => ChromePointerType::Pen,
        codes::POINTER_TYPE_TOUCH => ChromePointerType::Touch,
        codes::POINTER_TYPE_ERASER => ChromePointerType::Eraser,
        _ => ChromePointerType::Unknown,
    }
}

/// Distinct mouse values have distinct codes, so decoding an encoded value
/// gives it back.
pub proof fn lemma_mouse_codes_injective(
    a: ChromeMouseEventType,
    b: ChromeMouseEventType,
    c: ChromeMouseButton,
    d: ChromeMouseButton,
    e: ChromePointerType,
    f: ChromePointerType,
)
    ensures
        mouse_event_type_code(a) == mouse_event_type_code(b) ==> a == b,
        mouse_button_code(c) == mouse_button_code(d) ==> c == d,
        pointer_type_code(e) == pointer_type_code(f) ==> e == f,
{
}

/// Decoding undoes encoding: every value with a wire code decodes back to itself.
pub proof fn lemma_mouse_codes_round_trip()
    ensures
        forall|x: ChromeMouseEventType| #[trigger] mouse_event_type_of(mouse_event_type_code(x)) == x,
        forall|x: ChromeMouseButton| #[trigger] mouse_button_of(mouse_button_code(x)) == x,
        forall|x: ChromePointerType| #[trigger] pointer_type_of(pointer_type_code(x)) == x,
{
}

} // verus!
