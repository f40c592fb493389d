//! Chrome-specific download lifecycle types.

use vstd::prelude::*;

use crate::codes;
use crate::data::ids::TabId;

verus! {

/// Identifier of a download tracked by the Chromium runtime.
#[derive(Debug, Clone, Copy, PartialEq, Eq, Hash, Structural)]
pub struct ChromeDownloadId(pub u64);

impl ChromeDownloadId {
    pub fn new(value: u64) -> (id: Self)
        ensures
            id.0 == value,
    {
        ChromeDownloadId(value)
    }

    pub fn get(self) -> (value: u64)
        ensures
            value == self.0,
    {
        self.0
    }
}

#[derive(Debug, Clone, Copy, PartialEq, Eq, Structural)]
pub enum ChromeDownloadPromptResult {
    Allowed,
    Denied,
    Aborted,
}

/// Why Chromium asks the host before a download proceeds.
#[derive(Debug, Clone, Copy, PartialEq, Eq, Structural)]
pub enum ChromeDownloadPromptReason {
    NoReason,
    Unexpected,
    SaveAs,
    Preference,
    NameTooLong,
    TargetConflict,
    TargetPathNotWriteable,
    TargetNoSpace,
    DlpBlocked,
    Unknown,
}

#[derive(Debug, Clone, Copy, PartialEq, Eq, Structural)]
pub enum ChromeDownloadState {
    InProgress,
    Paused,
    Completed,
    Cancelled,
    Interrupted,
    Unknown,
}

#[derive(Debug, Clone, Copy, PartialEq, Eq, Structural)]
pub enum ChromeDownloadOutcome {
    Succeeded,
    Cancelled,
    Interrupted,
    Unknown,
}

#[derive(Debug, Clone, PartialEq, Eq)]
pub struct ChromeDownloadSnapshot {
    pub download_id: ChromeDownloadId,
    pub source_tab_id: Option<TabId>,
    pub file_name: String,
    pub total_bytes: Option<u64>,
    pub target_path: Option<String>,
}

#[derive(Debug, Clone, PartialEq, Eq)]
pub struct ChromeDownloadProgress {
    pub download_id: ChromeDownloadId,
    pub source_tab_id: Option<TabId>,
    pub state: ChromeDownloadState,
    pub file_name: String,
    pub received_bytes: u64,
    pub total_bytes: Option<u64>,
    pub target_path: Option<String>,
    pub can_resume: bool,
    pub is_paused: bool,
}

#[derive(Debug, Clone, PartialEq, Eq)]
pub struct ChromeDownloadCompletion {
    pub download_id: ChromeDownloadId,
    pub source_tab_id: Option<TabId>,
    pub outcome: ChromeDownloadOutcome,
    pub file_name: String,
    pub received_bytes: u64,
    pub total_bytes: Option<u64>,
    pub target_path: Option<String>,
}

/// Wire code of a download prompt result.
pub open spec fn download_prompt_result_code(r: ChromeDownloadPromptResult) -> u8 {
    match r {
        ChromeDownloadPromptResult::Allowed => codes::DOWNLOAD_PROMPT_ALLOWED,
        ChromeDownloadPromptResult::Denied => codes::DOWNLOAD_PROMPT_DENIED,
        ChromeDownloadPromptResult::Aborted => codes::DOWNLOAD_PROMPT_ABORTED,
    }
}

/// The value a wire code decodes to.
pub open spec fn download_prompt_result_of(value: u8) -> ChromeDownloadPromptResult {
    if value == codes::DOWNLOAD_PROMPT_ALLOWED {
        ChromeDownloadPromptResult::Allowed
    } else if value == codes::DOWNLOAD_PROMPT_DENIED {
        ChromeDownloadPromptResult::Denied
    } else if value == codes::DOWNLOAD_PROMPT_ABORTED {
        ChromeDownloadPromptResult::Aborted
    } else {
        ChromeDownloadPromptResult::Aborted
    }
}

/// Decode a download prompt result; unknown codes read as `Aborted`.
pub fn download_prompt_result_from_ffi(value: u8) -> (r: ChromeDownloadPromptResult)
    ensures
        r == download_prompt_result_of(value),
        download_prompt_result_code(r) == value || (r == ChromeDownloadPromptResult::Aborted && forall|x: ChromeDownloadPromptResult| download_prompt_result_code(x) != value),
{
    match value {
        codes::DOWNLOAD_PROMPT_ALLOWED => ChromeDownloadPromptResult::Allowed,
        codes::DOWNLOAD_PROMPT_DENIED => ChromeDownloadPromptResult::Denied,
        codes::DOWNLOAD_PROMPT_ABORTED => ChromeDownloadPromptResult::Aborted,
        _ => ChromeDownloadPromptResult::Aborted,
    }
}

/// Wire code of a download prompt reason (`Unknown` has none of its own).
pub open spec fn download_prompt_reason_code(r: ChromeDownloadPromptReason) -> Option<u8> {
    match r {
        ChromeDownloadPromptReason::NoReason => Some(codes::DOWNLOAD_REASON_NONE),
        ChromeDownloadPromptReason::Unexpected => Some(codes::DOWNLOAD_REASON_UNEXPECTED),
        ChromeDownloadPromptReason::SaveAs => Some(codes::DOWNLOAD_REASON_SAVE_AS),
        ChromeDownloadPromptReason::Preference => Some(codes::DOWNLOAD_REASON_PREFERENCE),
        ChromeDownloadPromptReason::NameTooLong => Some(codes::DOWNLOAD_REASON_NAME_TOO_LONG),
        ChromeDownloadPromptReason::TargetConflict => Some(codes::DOWNLOAD_REASON_TARGET_CONFLICT),
        ChromeDownloadPromptReason::TargetPathNotWriteable => Some(codes::DOWNLOAD_REASON_TARGET_PATH_NOT_WRITEABLE),
        ChromeDownloadPromptReason::TargetNoSpace => Some(codes::DOWNLOAD_REASON_TARGET_NO_SPACE),
        ChromeDownloadPromptReason::DlpBlocked => Some(codes::DOWNLOAD_REASON_DLP_BLOCKED),
        ChromeDownloadPromptReason::Unknown => None,
    }
}

/// The value a wire code decodes to.
pub open spec fn download_prompt_reason_of(value: u8) -> ChromeDownloadPromptReason {
    if value == codes::DOWNLOAD_REASON_NONE {
        ChromeDownloadPromptReason::NoReason
    } else if value == codes::DOWNLOAD_REASON_UNEXPECTED {
        ChromeDownloadPromptReason::Unexpected
    } else if value == codes::DOWNLOAD_REASON_SAVE_AS {
        ChromeDownloadPromptReason::SaveAs
    } else if value == codes::DOWNLOAD_REASON_PREFERENCE {
        ChromeDownloadPromptReason::Preference
    } else if value == codes::DOWNLOAD_REASON_NAME_TOO_LONG {
        ChromeDownloadPromptReason::NameTooLong
    } else if value == codes::DOWNLOAD_REASON_TARGET_CONFLICT {
        ChromeDownloadPromptReason::TargetConflict
    } else if value == codes::DOWNLOAD_REASON_TARGET_PATH_NOT_WRITEABLE {
        ChromeDownloadPromptReason::TargetPathNotWriteable
    } else if value == codes::DOWNLOAD_REASON_TARGET_NO_SPACE {
        ChromeDownloadPromptReason::TargetNoSpace
    } else if value == codes::DOWNLOAD_REASON_DLP_BLOCKED {
        ChromeDownloadPromptReason::DlpBlocked
    } else {
        ChromeDownloadPromptReason::Unknown
    }
}

/// Decode a download prompt reason; unknown codes read as `Unknown`.
pub fn download_prompt_reason_from_ffi(value: u8) -> (r: ChromeDownloadPromptReason)
    ensures
        r == download_prompt_reason_of(value),
        download_prompt_reason_code(r) == Some(value) || (r == ChromeDownloadPromptReason::Unknown && forall|x: ChromeDownloadPromptReason| download_prompt_reason_code(x) != Some(value)),
{
    match value {
        codes::DOWNLOAD_REASON_NONE => ChromeDownloadPromptReason::NoReason,
        codes::DOWNLOAD_REASON_UNEXPECTED => ChromeDownloadPromptReason::Unexpected,
        codes::DOWNLOAD_REASON_SAVE_AS => ChromeDownloadPromptReason::SaveAs,
        codes::DOWNLOAD_REASON_PREFERENCE => ChromeDownloadPromptReason::Preference,
        codes::DOWNLOAD_REASON_NAME_TOO_LONG => ChromeDownloadPromptReason::NameTooLong,
        codes::DOWNLOAD_REASON_TARGET_CONFLICT => ChromeDownloadPromptReason::TargetConflict,
        codes::DOWNLOAD_REASON_TARGET_PATH_NOT_WRITEABLE => ChromeDownloadPromptReason::TargetPathNotWriteable,
        codes::DOWNLOAD_REASON_TARGET_NO_SPACE => ChromeDownloadPromptReason::TargetNoSpace,
        codes::DOWNLOAD_REASON_DLP_BLOCKED => ChromeDownloadPromptReason::DlpBlocked,
        _ => ChromeDownloadPromptReason::Unknown,
    }
}

/// Wire code of a download state (`Unknown` has none of its own).
pub open spec fn download_state_code(s: ChromeDownloadState) -> Option<u8> {
    match s {
        ChromeDownloadState::InProgress => Some(codes::DOWNLOAD_STATE_IN_PROGRESS),
        ChromeDownloadState::Paused => Some(codes::DOWNLOAD_STATE_PAUSED),
        ChromeDownloadState::Completed => Some(codes::DOWNLOAD_STATE_COMPLETED),
        ChromeDownloadState::Cancelled => Some(codes::DOWNLOAD_STATE_CANCELLED),
        ChromeDownloadState::Interrupted => Some(codes::DOWNLOAD_STATE_INTERRUPTED),
        ChromeDownloadState::Unknown => None,
    }
}

/// The value a wire code decodes to.
pub open spec fn download_state_of(value: u8) -> ChromeDownloadState {
    if value == codes::DOWNLOAD_STATE_IN_PROGRESS {
        ChromeDownloadState::InProgress
    } else if value == codes::DOWNLOAD_STATE_PAUSED {
        ChromeDownloadState::Paused
    } else if value == codes::DOWNLOAD_STATE_COMPLETED {
        ChromeDownloadState::Completed
    } else if value == codes::DOWNLOAD_STATE_CANCELLED {
        ChromeDownloadState::Cancelled
    } else if value == codes::DOWNLOAD_STATE_INTERRUPTED {
        ChromeDownloadState::Interrupted
    } else {
        ChromeDownloadState::Unknown
    }
}

/// Decode a download state; unknown codes read as `Unknown`.
pub fn download_state_from_ffi(value: u8) -> (s: ChromeDownloadState)
    ensures
        s == download_state_of(value),
        download_state_code(s) == Some(value) || (s == ChromeDownloadState::Unknown && forall|x: ChromeDownloadState| download_state_code(x) != Some(value)),
{
    match value {
        codes::DOWNLOAD_STATE_IN_PROGRESS => ChromeDownloadState::InProgress,
        codes::DOWNLOAD_STATE_PAUSED => ChromeDownloadState::Paused,
        codes::DOWNLOAD_STATE_COMPLETED => ChromeDownloadState::Completed,
        codes::DOWNLOAD_STATE_CANCELLED => ChromeDownloadState::Cancelled,
        codes::DOWNLOAD_STATE_INTERRUPTED => ChromeDownloadState::Interrupted,
        _ => ChromeDownloadState::Unknown,
    }
}

/// Wire code of a download outcome (`Unknown` has none of its own).
pub open spec fn download_outcome_code(o: ChromeDownloadOutcome) -> Option<u8> {
    match o {
        ChromeDownloadOutcome::Succeeded => Some(codes::DOWNLOAD_OUTCOME_SUCCEEDED),
        ChromeDownloadOutcome::Cancelled => Some(codes::DOWNLOAD_OUTCOME_CANCELLED),
        ChromeDownloadOutcome::Interrupted => Some(codes::DOWNLOAD_OUTCOME_INTERRUPTED),
        ChromeDownloadOutcome::Unknown => None,
    }
}

/// The value a wire code decodes to.
pub open spec fn download_outcome_of(value: u8) -> ChromeDownloadOutcome {
    if value == codes::DOWNLOAD_OUTCOME_SUCCEEDED {
        ChromeDownloadOutcome::Succeeded
    } else if value == codes::DOWNLOAD_OUTCOME_CANCELLED {
        ChromeDownloadOutcome::Cancelled
    } else if value == codes::DOWNLOAD_OUTCOME_INTERRUPTED {
        ChromeDownloadOutcome::Interrupted
    } else {
        ChromeDownloadOutcome::Unknown
    }
}

/// Decode a download outcome; unknown codes read as `Unknown`.
pub fn download_outcome_from_ffi(value: u8) -> (o: ChromeDownloadOutcome)
    ensures
        o == download_outcome_of(value),
        download_outcome_code(o) == Some(value) || (o == ChromeDownloadOutcome::Unknown && forall|x: ChromeDownloadOutcome| download_outcome_code(x) != Some(value)),
{
    match value {
        codes::DOWNLOAD_OUTCOME_SUCCEEDED => ChromeDownloadOutcome::Succeeded,
        codes::DOWNLOAD_OUTCOME_CANCELLED => ChromeDownloadOutcome::Cancelled,
        codes::DOWNLOAD_OUTCOME_INTERRUPTED => ChromeDownloadOutcome::Interrupted,
        _ => ChromeDownloadOutcome::Unknown,
    }
}

/// Decoding undoes encoding: every value with a wire code decodes back to itself.
pub proof fn lemma_download_codes_round_trip()
    ensures
        forall|x: ChromeDownloadPromptResult| #[trigger] download_prompt_result_of(download_prompt_result_code(x)) == x,
        forall|x: ChromeDownloadPromptReason| #[trigger] download_prompt_reason_code(x) matches Some(c) ==> download_prompt_reason_of(c) == x,
        forall|x: ChromeDownloadState| #[trigger] download_state_code(x) matches Some(c) ==> download_state_of(c) == x,
        forall|x: ChromeDownloadOutcome| #[trigger] download_outcome_code(x) matches Some(c) ==> download_outcome_of(c) == x,
{
}

} // verus!
