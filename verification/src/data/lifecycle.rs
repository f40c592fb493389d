//! Dialog and before-unload vocabulary reported by the backend.

use vstd::prelude::*;

use crate::codes;

verus! {

/// Why a before-unload confirmation was requested.
#[derive(Debug, Clone, Copy, PartialEq, Eq, Structural)]
pub enum ChromeBeforeUnloadReason {
    CloseBrowsingContext,
    Navigate,
    Reload,
    WindowClose,
    Unknown,
}

/// Kind of a JavaScript dialog.
#[derive(Debug, Clone, Copy, PartialEq, Eq, Structural)]
pub enum ChromeDialogType {
    Alert,
    Confirm,
    Prompt,
    BeforeUnload,
}

pub open spec fn before_unload_reason_code(r: ChromeBeforeUnloadReason) -> Option<u8> {
    match r {
        ChromeBeforeUnloadReason::CloseBrowsingContext => Some(codes::BEFORE_UNLOAD_REASON_CLOSE_TAB),
        ChromeBeforeUnloadReason::Navigate => Some(codes::BEFORE_UNLOAD_REASON_NAVIGATE),
        ChromeBeforeUnloadReason::Reload => Some(codes::BEFORE_UNLOAD_REASON_RELOAD),
        ChromeBeforeUnloadReason::WindowClose => Some(codes::BEFORE_UNLOAD_REASON_WINDOW_CLOSE),
        ChromeBeforeUnloadReason::Unknown => None,
    }
}

/// The value a wire code decodes to.
pub open spec fn beforeunload_reason_of(value: u8) -> ChromeBeforeUnloadReason {
    if value == codes::BEFORE_UNLOAD_REASON_CLOSE_TAB {
        ChromeBeforeUnloadReason::CloseBrowsingContext
    } else if value == codes::BEFORE_UNLOAD_REASON_NAVIGATE {
        ChromeBeforeUnloadReason::Navigate
    } else if value == codes::BEFORE_UNLOAD_REASON_RELOAD {
        ChromeBeforeUnloadReason::Reload
    } else if value == codes::BEFORE_UNLOAD_REASON_WINDOW_CLOSE {
        ChromeBeforeUnloadReason::WindowClose
    } else {
        ChromeBeforeUnloadReason::Unknown
    }
}

/// Decode a before-unload reason; unknown codes read as `Unknown`.
pub fn beforeunload_reason_from_ffi(value: u8) -> (r: ChromeBeforeUnloadReason)
    ensures
        r == beforeunload_reason_of(value),
        before_unload_reason_code(r) == Some(value) || (r == ChromeBeforeUnloadReason::Unknown
            && forall|x: ChromeBeforeUnloadReason| before_unload_reason_code(x) != Some(value)),
{
    match value {
        codes::BEFORE_UNLOAD_REASON_CLOSE_TAB => ChromeBeforeUnloadReason::CloseBrowsingContext,
        codes::BEFORE_UNLOAD_REASON_NAVIGATE => ChromeBeforeUnloadReason::Navigate,
        codes::BEFORE_UNLOAD_REASON_RELOAD => ChromeBeforeUnloadReason::Reload,
        codes::BEFORE_UNLOAD_REASON_WINDOW_CLOSE => ChromeBeforeUnloadReason::WindowClose,
        _ => ChromeBeforeUnloadReason::Unknown,
    }
}

pub open spec fn dialog_type_code(t: ChromeDialogType) -> u8 {
    match t {
        ChromeDialogType::Alert => codes::JAVASCRIPT_DIALOG_ALERT,
        ChromeDialogType::Confirm => codes::JAVASCRIPT_DIALOG_CONFIRM,
        ChromeDialogType::Prompt => codes::JAVASCRIPT_DIALOG_PROMPT,
        ChromeDialogType::BeforeUnload => codes::JAVASCRIPT_DIALOG_BEFORE_UNLOAD,
    }
}

/// The value a wire code decodes to.
pub open spec fn javascript_dialog_type_of(value: u8) -> ChromeDialogType {
    if value == codes::JAVASCRIPT_DIALOG_ALERT {
        ChromeDialogType::Alert
    } else if value == codes::JAVASCRIPT_DIALOG_CONFIRM {
        ChromeDialogType::Confirm
    } else if value == codes::JAVASCRIPT_DIALOG_PROMPT {
        ChromeDialogType::Prompt
    } else if value == codes::JAVASCRIPT_DIALOG_BEFORE_UNLOAD {
        ChromeDialogType::BeforeUnload
    } else {
        ChromeDialogType::Alert
    }
}

/// Decode a JavaScript dialog type; unknown codes read as `Alert`.
pub fn javascript_dialog_type_from_ffi(value: u8) -> (t: ChromeDialogType)
    ensures
        t == javascript_dialog_type_of(value),
        dialog_type_code(t) == value || (t == ChromeDialogType::Alert && forall|x: ChromeDialogType|
            dialog_type_code(x) != value),
{
    match value {
        codes::JAVASCRIPT_DIALOG_ALERT => ChromeDialogType::Alert,
        codes::JAVASCRIPT_DIALOG_CONFIRM => ChromeDialogType::Confirm,
        codes::JAVASCRIPT_DIALOG_PROMPT => ChromeDialogType::Prompt,
        codes::JAVASCRIPT_DIALOG_BEFORE_UNLOAD => ChromeDialogType::BeforeUnload,
        _ => ChromeDialogType::Alert,
    }
}

/// Decoding undoes encoding: every value with a wire code decodes back to itself.
pub proof fn lemma_lifecycle_codes_round_trip()
    ensures
        forall|x: ChromeBeforeUnloadReason| #[trigger] before_unload_reason_code(x) matches Some(c) ==> beforeunload_reason_of(c) == x,
        forall|x: ChromeDialogType| #[trigger] javascript_dialog_type_of(dialog_type_code(x)) == x,
{
}

} // verus!
