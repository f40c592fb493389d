//! IME (input method editor) text spans, composition state and bounds.

use vstd::prelude::*;

use crate::codes;
use crate::data::ids::TabId;

verus! {

#[derive(Debug, Clone, Copy, PartialEq, Eq, Structural)]
pub enum ChromeImeTextSpanType {
    Composition,
    Suggestion,
    MisspellingSuggestion,
    Autocorrect,
    GrammarSuggestion,
}

#[derive(Debug, Clone, Copy, PartialEq, Eq, Structural)]
pub enum ChromeImeTextSpanThickness {
    NoThickness,
    Thin,
    Thick,
}

impl Default for ChromeImeTextSpanThickness {
    fn default() -> (t: Self)
        ensures
            t == ChromeImeTextSpanThickness::NoThickness,
    {
        ChromeImeTextSpanThickness::NoThickness
    }
}

#[derive(Debug, Clone, Copy, PartialEq, Eq, Structural)]
pub enum ChromeImeTextSpanUnderlineStyle {
    NoUnderline,
    Solid,
    Dot,
    Dash,
    Squiggle,
}

impl Default for ChromeImeTextSpanUnderlineStyle {
    fn default() -> (s: Self)
        ensures
            s == ChromeImeTextSpanUnderlineStyle::NoUnderline,
    {
        ChromeImeTextSpanUnderlineStyle::NoUnderline
    }
}

#[derive(Debug, Clone, Copy, PartialEq, Eq, Structural)]
pub struct ChromeImeTextRange {
    pub start: i32,
    pub end: i32,
}

#[derive(Debug, Clone, Copy, PartialEq, Eq, Structural)]
pub struct ChromeImeTextSpanStyle {
    pub underline_color: u32,
    pub thickness: ChromeImeTextSpanThickness,
    pub underline_style: ChromeImeTextSpanUnderlineStyle,
    pub text_color: u32,
    pub background_color: u32,
    pub suggestion_highlight_color: u32,
    pub remove_on_finish_composing: bool,
    pub interim_char_selection: bool,
    pub should_hide_suggestion_menu: bool,
}

/// The style that draws no decoration at all.
pub open spec fn plain_span_style() -> ChromeImeTextSpanStyle {
    ChromeImeTextSpanStyle {
        underline_color: 0,
        thickness: ChromeImeTextSpanThickness::NoThickness,
        underline_style: ChromeImeTextSpanUnderlineStyle::NoUnderline,
        text_color: 0,
        background_color: 0,
        suggestion_highlight_color: 0,
        remove_on_finish_composing: false,
        interim_char_selection: false,
        should_hide_suggestion_menu: false,
    }
}

impl Default for ChromeImeTextSpanStyle {
    fn default() -> (s: Self)
        ensures
            s == plain_span_style(),
    {
        ChromeImeTextSpanStyle {
            underline_color: 0,
            thickness: ChromeImeTextSpanThickness::NoThickness,
            underline_style: ChromeImeTextSpanUnderlineStyle::NoUnderline,
            text_color: 0,
            background_color: 0,
            suggestion_highlight_color: 0,
            remove_on_finish_composing: false,
            interim_char_selection: false,
            should_hide_suggestion_menu: false,
        }
    }
}

#[derive(Debug, Clone, Copy, PartialEq, Eq, Structural)]
pub struct ChromeImeTextSpan {
    pub span_type: ChromeImeTextSpanType,
    pub start_offset: u32,
    pub end_offset: u32,
    pub chrome_style: Option<ChromeImeTextSpanStyle>,
}

impl ChromeImeTextSpan {
    /// A span that leaves its decoration to Chromium.
    pub fn new(span_type: ChromeImeTextSpanType, start_offset: u32, end_offset: u32) -> (s: Self)
        ensures
            s == (ChromeImeTextSpan { span_type, start_offset, end_offset, chrome_style: None }),
    {
        ChromeImeTextSpan { span_type, start_offset, end_offset, chrome_style: None }
    }

    /// The same span with an explicit style.
    pub fn with_chrome_style(self, chrome_style: ChromeImeTextSpanStyle) -> (s: Self)
        ensures
            s == (ChromeImeTextSpan { chrome_style: Some(chrome_style), ..self }),
    {
        let mut span = self;
        span.chrome_style = Some(chrome_style);
        span
    }

    /// A span drawn without any decoration.
    pub fn no_decoration(span_type: ChromeImeTextSpanType, start_offset: u32, end_offset: u32) -> (s: Self)
        ensures
            s == (ChromeImeTextSpan {
                span_type,
                start_offset,
                end_offset,
                chrome_style: Some(plain_span_style()),
            }),
    {
        ChromeImeTextSpan {
            span_type,
            start_offset,
            end_offset,
            chrome_style: Some(ChromeImeTextSpanStyle::default()),
        }
    }
}

#[derive(Debug, Clone, PartialEq, Eq)]
pub struct ChromeImeComposition {
    pub browsing_context_id: TabId,
    pub text: String,
    pub selection_start: i32,
    pub selection_end: i32,
    pub replacement_range: Option<ChromeImeTextRange>,
    pub spans: Vec<ChromeImeTextSpan>,
}

#[derive(Debug, Clone, PartialEq, Eq)]
pub struct ChromeImeCommitText {
    pub browsing_context_id: TabId,
    pub text: String,
    pub relative_caret_position: i32,
    pub replacement_range: Option<ChromeImeTextRange>,
    pub spans: Vec<ChromeImeTextSpan>,
}

#[derive(Debug, Clone, Copy, PartialEq, Eq, Structural)]
pub enum ChromeConfirmCompositionBehavior {
    DoNotKeepSelection,
    KeepSelection,
}

pub open spec fn confirm_behavior_code(b: ChromeConfirmCompositionBehavior) -> u8 {
    match b {
        ChromeConfirmCompositionBehavior::DoNotKeepSelection => codes::CONFIRM_COMPOSITION_DO_NOT_KEEP_SELECTION,
        ChromeConfirmCompositionBehavior::KeepSelection => codes::CONFIRM_COMPOSITION_KEEP_SELECTION,
    }
}

/// Wire code of a composition confirmation behavior.
pub fn confirm_behavior_to_ffi(behavior: ChromeConfirmCompositionBehavior) -> (code: u8)
    ensures
        code == confirm_behavior_code(behavior),
{
    match behavior {
        ChromeConfirmCompositionBehavior::DoNotKeepSelection => codes::CONFIRM_COMPOSITION_DO_NOT_KEEP_SELECTION,
        ChromeConfirmCompositionBehavior::KeepSelection => codes::CONFIRM_COMPOSITION_KEEP_SELECTION,
    }
}

#[derive(Debug, Clone, Copy, PartialEq, Eq, Structural)]
pub struct ChromeImeRect {
    pub x: i32,
    pub y: i32,
    pub width: i32,
    pub height: i32,
}

#[derive(Debug, Clone, PartialEq, Eq)]
pub struct ChromeImeCompositionBounds {
    pub range_start: i32,
    pub range_end: i32,
    pub character_bounds: Vec<ChromeImeRect>,
}

#[derive(Debug, Clone, Copy, PartialEq, Eq, Structural)]
pub struct ChromeTextSelectionBounds {
    pub range_start: i32,
    pub range_end: i32,
    pub caret_rect: ChromeImeRect,
    pub first_selection_rect: ChromeImeRect,
}

#[derive(Debug, Clone, PartialEq, Eq)]
pub struct ChromeImeBoundsUpdate {
    pub composition: Option<ChromeImeCompositionBounds>,
    pub selection: Option<ChromeTextSelectionBounds>,
}

/// A text span as the bridge receives it: every field a plain code or value.
#[derive(Debug, Clone, Copy, PartialEq, Eq, Default, Structural)]
pub struct BridgeImeTextSpan {
    pub span_type: u8,
    pub start_offset: u32,
    pub end_offset: u32,
    pub underline_color: u32,
    pub thickness: u8,
    pub underline_style: u8,
    pub text_color: u32,
    pub background_color: u32,
    pub suggestion_highlight_color: u32,
    pub remove_on_finish_composing: bool,
    pub interim_char_selection: bool,
    pub should_hide_suggestion_menu: bool,
}

pub open spec fn span_type_code(t: ChromeImeTextSpanType) -> u8 {
    match t {
        ChromeImeTextSpanType::Composition => codes::IME_SPAN_TYPE_COMPOSITION,
        ChromeImeTextSpanType::Suggestion => codes::IME_SPAN_TYPE_SUGGESTION,
        ChromeImeTextSpanType::MisspellingSuggestion => codes::IME_SPAN_TYPE_MISSPELLING_SUGGESTION,
        ChromeImeTextSpanType::Autocorrect => codes::IME_SPAN_TYPE_AUTOCORRECT,
        ChromeImeTextSpanType::GrammarSuggestion => codes::IME_SPAN_TYPE_GRAMMAR_SUGGESTION,
    }
}

pub open spec fn thickness_code(t: ChromeImeTextSpanThickness) -> u8 {
    match t {
        ChromeImeTextSpanThickness::NoThickness => codes::IME_SPAN_THICKNESS_NONE,
        ChromeImeTextSpanThickness::Thin => codes::IME_SPAN_THICKNESS_THIN,
        ChromeImeTextSpanThickness::Thick => codes::IME_SPAN_THICKNESS_THICK,
    }
}

pub open spec fn underline_style_code(s: ChromeImeTextSpanUnderlineStyle) -> u8 {
    match s {
        ChromeImeTextSpanUnderlineStyle::NoUnderline => codes::IME_SPAN_UNDERLINE_NONE,
        ChromeImeTextSpanUnderlineStyle::Solid => codes::IME_SPAN_UNDERLINE_SOLID,
        ChromeImeTextSpanUnderlineStyle::Dot => codes::IME_SPAN_UNDERLINE_DOT,
        ChromeImeTextSpanUnderlineStyle::Dash => codes::IME_SPAN_UNDERLINE_DASH,
        ChromeImeTextSpanUnderlineStyle::Squiggle => codes::IME_SPAN_UNDERLINE_SQUIGGLE,
    }
}

pub fn ime_text_span_type_to_ffi(value: ChromeImeTextSpanType) -> (code: u8)
    ensures
        code == span_type_code(value),
{
    match value {
        ChromeImeTextSpanType::Composition => codes::IME_SPAN_TYPE_COMPOSITION,
        ChromeImeTextSpanType::Suggestion => codes::IME_SPAN_TYPE_SUGGESTION,
        ChromeImeTextSpanType::MisspellingSuggestion => codes::IME_SPAN_TYPE_MISSPELLING_SUGGESTION,
        ChromeImeTextSpanType::Autocorrect => codes::IME_SPAN_TYPE_AUTOCORRECT,
        ChromeImeTextSpanType::GrammarSuggestion => codes::IME_SPAN_TYPE_GRAMMAR_SUGGESTION,
    }
}

pub fn ime_text_span_thickness_to_ffi(value: ChromeImeTextSpanThickness) -> (code: u8)
    ensures
        code == thickness_code(value),
{
    match value {
        ChromeImeTextSpanThickness::NoThickness => codes::IME_SPAN_THICKNESS_NONE,
        ChromeImeTextSpanThickness::Thin => codes::IME_SPAN_THICKNESS_THIN,
        ChromeImeTextSpanThickness::Thick => codes::IME_SPAN_THICKNESS_THICK,
    }
}

pub fn ime_text_span_underline_style_to_ffi(value: ChromeImeTextSpanUnderlineStyle) -> (code: u8)
    ensures
        code == underline_style_code(value),
{
    match value {
        ChromeImeTextSpanUnderlineStyle::NoUnderline => codes::IME_SPAN_UNDERLINE_NONE,
        ChromeImeTextSpanUnderlineStyle::Solid => codes::IME_SPAN_UNDERLINE_SOLID,
        ChromeImeTextSpanUnderlineStyle::Dot => codes::IME_SPAN_UNDERLINE_DOT,
        ChromeImeTextSpanUnderlineStyle::Dash => codes::IME_SPAN_UNDERLINE_DASH,
        ChromeImeTextSpanUnderlineStyle::Squiggle => codes::IME_SPAN_UNDERLINE_SQUIGGLE,
    }
}

/// The style a span is drawn with: its own, or no decoration.
pub open spec fn effective_style(span: ChromeImeTextSpan) -> ChromeImeTextSpanStyle {
    match span.chrome_style {
        Some(style) => style,
        None => plain_span_style(),
    }
}

pub fn chrome_ime_text_span_style_from_span(span: &ChromeImeTextSpan) -> (style: ChromeImeTextSpanStyle)
    ensures
        style == effective_style(*span),
{
    match span.chrome_style {
        Some(style) => style,
        None => ChromeImeTextSpanStyle::default(),
    }
}

/// The bridge form of one span.
pub open spec fn spec_bridge_span(span: ChromeImeTextSpan) -> BridgeImeTextSpan {
    let style = effective_style(span);
    BridgeImeTextSpan {
        span_type: span_type_code(span.span_type),
        start_offset: span.start_offset,
        end_offset: span.end_offset,
        underline_color: style.underline_color,
        thickness: thickness_code(style.thickness),
        underline_style: underline_style_code(style.underline_style),
        text_color: style.text_color,
        background_color: style.background_color,
        suggestion_highlight_color: style.suggestion_highlight_color,
        remove_on_finish_composing: style.remove_on_finish_composing,
        interim_char_selection: style.interim_char_selection,
        should_hide_suggestion_menu: style.should_hide_suggestion_menu,
    }
}

/// Encode spans for the bridge, one for one and in order.
pub fn to_ffi_ime_text_spans(spans: &[ChromeImeTextSpan]) -> (out: Vec<BridgeImeTextSpan>)
    ensures
        out@ == spans@.map_values(|s: ChromeImeTextSpan| spec_bridge_span(s)),
{
    let mut out: Vec<BridgeImeTextSpan> = Vec::new();
    let mut i: usize = 0;
    while i < spans.len()
        invariant
            i <= spans@.len(),
            out@ == spans@.subrange(0, i as int).map_values(|s: ChromeImeTextSpan| spec_bridge_span(s)),
        decreases spans@.len() - i,
    {
        let span = &spans[i];
        let style = chrome_ime_text_span_style_from_span(span);
        out.push(BridgeImeTextSpan {
            span_type: ime_text_span_type_to_ffi(span.span_type),
            start_offset: span.start_offset,
            end_offset: span.end_offset,
            underline_color: style.underline_color,
            thickness: ime_text_span_thickness_to_ffi(style.thickness),
            underline_style: ime_text_span_underline_style_to_ffi(style.underline_style),
            text_color: style.text_color,
            background_color: style.background_color,
            suggestion_highlight_color: style.suggestion_highlight_color,
            remove_on_finish_composing: style.remove_on_finish_composing,
            interim_char_selection: style.interim_char_selection,
            should_hide_suggestion_menu: style.should_hide_suggestion_menu,
        });
        proof {
            assert(spans@.subrange(0, i + 1) == spans@.subrange(0, i as int).push(spans@[i as int]));
        }
        i = i + 1;
    }
    proof {
        assert(spans@.subrange(0, spans@.len() as int) == spans@);
    }
    out
}

/// Encode an optional replacement range; `(-1, -1)` stands for "none".
pub fn ime_range_to_ffi(value: &Option<ChromeImeTextRange>) -> (r: (i32, i32))
    ensures
        r == (match *value {
            Some(range) => (range.start, range.end),
            None => (-1i32, -1i32),
        }),
{
    match value {
        Some(range) => (range.start, range.end),
        None => (-1, -1),
    }
}

} // verus!
