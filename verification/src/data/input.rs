//! Keyboard input payloads and scroll granularity.

use vstd::prelude::*;

use crate::codes;

verus! {

#[derive(Debug, Clone, Copy, PartialEq, Eq, Structural)]
pub enum ChromeKeyEventType {
    RawKeyDown,
    KeyDown,
    KeyUp,
    Char,
}

#[derive(Debug, Clone, Copy, PartialEq, Eq, Structural)]
pub enum ChromeScrollGranularity {
    PrecisePixel,
    Pixel,
    Line,
    Page,
    Document,
}

/// Keyboard input payload; field names follow Chromium's vocabulary.
#[derive(Debug, Clone, PartialEq, Eq)]
pub struct ChromeKeyEvent {
    pub type_: ChromeKeyEventType,
    pub modifiers: u32,
    pub windows_key_code: i32,
    pub native_key_code: i32,
    pub dom_code: Option<String>,
    pub dom_key: Option<String>,
    pub text: Option<String>,
    pub unmodified_text: Option<String>,
    pub auto_repeat: bool,
    pub is_keypad: bool,
    pub is_system_key: bool,
    pub location: i32,
}

pub open spec fn key_event_type_code(t: ChromeKeyEventType) -> u8 {
    match t {
        ChromeKeyEventType::RawKeyDown => codes::KEY_EVENT_RAW_KEY_DOWN,
        ChromeKeyEventType::KeyDown => codes::KEY_EVENT_KEY_DOWN,
        ChromeKeyEventType::KeyUp => codes::KEY_EVENT_KEY_UP,
        ChromeKeyEventType::Char => codes::KEY_EVENT_CHAR,
    }
}

pub fn key_event_type_to_ffi(value: ChromeKeyEventType) -> (code: u8)
    ensures
        code == key_event_type_code(value),
{
    match value {
        ChromeKeyEventType::RawKeyDown => codes::KEY_EVENT_RAW_KEY_DOWN,
        ChromeKeyEventType::KeyDown => codes::KEY_EVENT_KEY_DOWN,
        ChromeKeyEventType::KeyUp => codes::KEY_EVENT_KEY_UP,
        ChromeKeyEventType::Char => codes::KEY_EVENT_CHAR,
    }
}

pub open spec fn scroll_granularity_code(g: ChromeScrollGranularity) -> u8 {
    match g {
        ChromeScrollGranularity::PrecisePixel => codes::SCROLL_BY_PRECISE_PIXEL,
        ChromeScrollGranularity::Pixel => codes::SCROLL_BY_PIXEL,
        ChromeScrollGranularity::Line => codes::SCROLL_BY_LINE,
        ChromeScrollGranularity::Page => codes::SCROLL_BY_PAGE,
        ChromeScrollGranularity::Document => codes::SCROLL_BY_DOCUMENT,
    }
}

pub fn scroll_granularity_to_ffi(value: ChromeScrollGranularity) -> (code: u8)
    ensures
        code == scroll_granularity_code(value),
{
    match value {
        ChromeScrollGranularity::PrecisePixel => codes::SCROLL_BY_PRECISE_PIXEL,
        ChromeScrollGranularity::Pixel => codes::SCROLL_BY_PIXEL,
        ChromeScrollGranularity::Line => codes::SCROLL_BY_LINE,
        ChromeScrollGranularity::Page => codes::SCROLL_BY_PAGE,
        ChromeScrollGranularity::Document => codes::SCROLL_BY_DOCUMENT,
    }
}

/// The value a wire code decodes to.
pub open spec fn scroll_granularity_of(value: u8) -> ChromeScrollGranularity {
    if value == codes::SCROLL_BY_PRECISE_PIXEL {
        ChromeScrollGranularity::PrecisePixel
    } else if value == codes::SCROLL_BY_PIXEL {
        ChromeScrollGranularity::Pixel
    } else if value == codes::SCROLL_BY_LINE {
        ChromeScrollGranularity::Line
    } else if value == codes::SCROLL_BY_PAGE {
        ChromeScrollGranularity::Page
    } else if value == codes::SCROLL_BY_DOCUMENT {
        ChromeScrollGranularity::Document
    } else {
        ChromeScrollGranularity::Pixel
    }
}

/// Decode a scroll granularity; unknown codes read as `Pixel`.
pub fn scroll_granularity_from_ffi(value: u8) -> (g: ChromeScrollGranularity)
    ensures
        g == scroll_granularity_of(value),
        scroll_granularity_code(g) == value || (g == ChromeScrollGranularity::Pixel && forall|
            x: ChromeScrollGranularity,
        | scroll_granularity_code(x) != value),
{
    match value {
        codes::SCROLL_BY_PRECISE_PIXEL => ChromeScrollGranularity::PrecisePixel,
        codes::SCROLL_BY_PIXEL => ChromeScrollGranularity::Pixel,
        codes::SCROLL_BY_LINE => ChromeScrollGranularity::Line,
        codes::SCROLL_BY_PAGE => ChromeScrollGranularity::Page,
        codes::SCROLL_BY_DOCUMENT => ChromeScrollGranularity::Document,
        _ => ChromeScrollGranularity::Pixel,
    }
}

/// Distinct scroll granularities and key event types have distinct codes.
pub proof fn lemma_input_codes_injective(
    a: ChromeScrollGranularity,
    b: ChromeScrollGranularity,
    c: ChromeKeyEventType,
    d: ChromeKeyEventType,
)
    ensures
        scroll_granularity_code(a) == scroll_granularity_code(b) ==> a == b,
        key_event_type_code(c) == key_event_type_code(d) ==> c == d,
{
}

/// Decoding undoes encoding: every value with a wire code decodes back to itself.
pub proof fn lemma_input_codes_round_trip()
    ensures
        forall|x: ChromeScrollGranularity| #[trigger] scroll_granularity_of(scroll_granularity_code(x)) == x,
{
}

} // verus!
