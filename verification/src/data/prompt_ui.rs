//! Prompt UI types: permission prompts, extension dialogs, print preview and download prompts.

use vstd::prelude::*;

use crate::codes;
use crate::data::download::{
    ChromeDownloadId, ChromeDownloadPromptReason, ChromeDownloadPromptResult,
};

verus! {

/// Permission categories exposed through prompt UI.
#[derive(Debug, Clone, Copy, PartialEq, Eq, Structural)]
pub enum PromptUiPermissionType {
    Geolocation,
    Notifications,
    AudioCapture,
    VideoCapture,
    Unknown,
}

/// Reason for a form resubmission prompt.
#[derive(Debug, Clone, Copy, PartialEq, Eq, Structural)]
pub enum PromptUiFormResubmissionReason {
    Reload,
    BackForward,
    Other,
    Unknown,
}

/// Stable id for a backend-managed prompt UI surface.
#[derive(Debug, Clone, Copy, PartialEq, Eq, Hash, Structural)]
pub struct PromptUiId(pub u64);

impl PromptUiId {
    pub fn new(value: u64) -> (id: Self)
        ensures
            id.0 == value,
    {
        PromptUiId(value)
    }

    pub fn get(self) -> (value: u64)
        ensures
            value == self.0,
    {
        self.0
    }
}

/// Prompt UI request kind.
#[derive(Debug, Clone, PartialEq, Eq)]
pub enum PromptUiKind {
    PermissionPrompt { permission: PromptUiPermissionType, permission_key: Option<String> },
    DownloadPrompt {
        download_id: ChromeDownloadId,
        file_name: String,
        total_bytes: Option<u64>,
        suggested_path: Option<String>,
        reason: ChromeDownloadPromptReason,
    },
    ExtensionInstallPrompt {
        extension_id: String,
        extension_name: String,
        permission_names: Vec<String>,
    },
    ExtensionUninstallPrompt {
        extension_id: String,
        extension_name: String,
        triggering_extension_name: Option<String>,
        can_report_abuse: bool,
    },
    PrintPreviewDialog,
    FormResubmissionPrompt { reason: PromptUiFormResubmissionReason, target_url: Option<String> },
    Unknown,
}

/// Prompt UI response payload.
#[derive(Debug, Clone, PartialEq, Eq)]
pub enum PromptUiResponse {
    PermissionPrompt { allow: bool },
    DownloadPrompt { allow: bool, destination_path: Option<String> },
    ExtensionInstallPrompt { proceed: bool },
    ExtensionUninstallPrompt { proceed: bool, report_abuse: bool },
    PrintPreviewDialog { proceed: bool },
    FormResubmissionPrompt { proceed: bool },
    Unknown,
}

/// Result of an extension install prompt.
#[derive(Debug, Clone, Copy, PartialEq, Eq, Structural)]
pub enum PromptUiExtensionInstallResult {
    Accepted,
    AcceptedWithWithheldPermissions,
    UserCanceled,
    Aborted,
}

/// Result of an extension uninstall prompt.
#[derive(Debug, Clone, Copy, PartialEq, Eq, Structural)]
pub enum PromptUiExtensionUninstallResult {
    Accepted,
    UserCanceled,
    Aborted,
    Failed,
}

/// Result of a permission-like prompt.
#[derive(Debug, Clone, Copy, PartialEq, Eq, Structural)]
pub enum PromptUiResolutionResult {
    Allowed,
    Denied,
    Aborted,
    Unknown,
}

/// Result of a non-permission dialog.
#[derive(Debug, Clone, Copy, PartialEq, Eq, Structural)]
pub enum PromptUiDialogResult {
    Proceeded,
    Canceled,
    Aborted,
    Unknown,
}

/// Prompt UI resolution payload.
#[derive(Debug, Clone, PartialEq, Eq)]
pub enum PromptUiResolution {
    PermissionPrompt {
        permission: PromptUiPermissionType,
        permission_key: Option<String>,
        result: PromptUiResolutionResult,
    },
    DownloadPrompt {
        download_id: ChromeDownloadId,
        destination_path: Option<String>,
        result: ChromeDownloadPromptResult,
    },
    ExtensionInstallPrompt {
        extension_id: String,
        result: PromptUiExtensionInstallResult,
        detail: Option<String>,
    },
    ExtensionUninstallPrompt {
        extension_id: String,
        result: PromptUiExtensionUninstallResult,
        detail: Option<String>,
        report_abuse: bool,
    },
    PrintPreviewDialog { result: PromptUiDialogResult },
    FormResubmissionPrompt {
        reason: PromptUiFormResubmissionReason,
        target_url: Option<String>,
        result: PromptUiResolutionResult,
    },
    Unknown,
}

/// Close reason for backend-managed prompt UI surfaces.
#[derive(Debug, Clone, Copy, PartialEq, Eq, Structural)]
pub enum PromptUiCloseReason {
    UserCanceled,
    HostForced,
    SystemDismissed,
    Unknown,
}

pub open spec fn permission_code(p: PromptUiPermissionType) -> Option<u8> {
    match p {
        PromptUiPermissionType::Geolocation => Some(codes::PROMPT_UI_PERMISSION_GEOLOCATION),
        PromptUiPermissionType::Notifications => Some(codes::PROMPT_UI_PERMISSION_NOTIFICATIONS),
        PromptUiPermissionType::AudioCapture => Some(codes::PROMPT_UI_PERMISSION_AUDIO_CAPTURE),
        PromptUiPermissionType::VideoCapture => Some(codes::PROMPT_UI_PERMISSION_VIDEO_CAPTURE),
        PromptUiPermissionType::Unknown => None,
    }
}

/// The value a wire code decodes to.
pub open spec fn prompt_ui_permission_of(value: u8) -> PromptUiPermissionType {
    if value == codes::PROMPT_UI_PERMISSION_GEOLOCATION {
        PromptUiPermissionType::Geolocation
    } else if value == codes::PROMPT_UI_PERMISSION_NOTIFICATIONS {
        PromptUiPermissionType::Notifications
    } else if value == codes::PROMPT_UI_PERMISSION_AUDIO_CAPTURE {
        PromptUiPermissionType::AudioCapture
    } else if value == codes::PROMPT_UI_PERMISSION_VIDEO_CAPTURE {
        PromptUiPermissionType::VideoCapture
    } else {
        PromptUiPermissionType::Unknown
    }
}

/// Decode a permission type; unknown codes read as `Unknown`.
pub fn prompt_ui_permission_from_ffi(value: u8) -> (p: PromptUiPermissionType)
    ensures
        p == prompt_ui_permission_of(value),
        permission_code(p) == Some(value) || (p == PromptUiPermissionType::Unknown && forall|
            x: PromptUiPermissionType,
        | permission_code(x) != Some(value)),
{
    match value {
        codes::PROMPT_UI_PERMISSION_GEOLOCATION => PromptUiPermissionType::Geolocation,
        codes::PROMPT_UI_PERMISSION_NOTIFICATIONS => PromptUiPermissionType::Notifications,
        codes::PROMPT_UI_PERMISSION_AUDIO_CAPTURE => PromptUiPermissionType::AudioCapture,
        codes::PROMPT_UI_PERMISSION_VIDEO_CAPTURE => PromptUiPermissionType::VideoCapture,
        _ => PromptUiPermissionType::Unknown,
    }
}

pub open spec fn form_resubmission_reason_code(r: PromptUiFormResubmissionReason) -> Option<u8> {
    match r {
        PromptUiFormResubmissionReason::Reload => Some(codes::FORM_RESUBMISSION_REASON_RELOAD),
        PromptUiFormResubmissionReason::BackForward => Some(codes::FORM_RESUBMISSION_REASON_BACK_FORWARD),
        PromptUiFormResubmissionReason::Other => Some(codes::FORM_RESUBMISSION_REASON_OTHER),
        PromptUiFormResubmissionReason::Unknown => None,
    }
}

/// The value a wire code decodes to.
pub open spec fn prompt_ui_form_resubmission_reason_of(value: u8) -> PromptUiFormResubmissionReason {
    if value == codes::FORM_RESUBMISSION_REASON_RELOAD {
        PromptUiFormResubmissionReason::Reload
    } else if value == codes::FORM_RESUBMISSION_REASON_BACK_FORWARD {
        PromptUiFormResubmissionReason::BackForward
    } else if value == codes::FORM_RESUBMISSION_REASON_OTHER {
        PromptUiFormResubmissionReason::Other
    } else {
        PromptUiFormResubmissionReason::Unknown
    }
}

/// Decode a form resubmission reason; unknown codes read as `Unknown`.
pub fn prompt_ui_form_resubmission_reason_from_ffi(value: u8) -> (r: PromptUiFormResubmissionReason)
    ensures
        r == prompt_ui_form_resubmission_reason_of(value),
        form_resubmission_reason_code(r) == Some(value) || (r
            == PromptUiFormResubmissionReason::Unknown && forall|x: PromptUiFormResubmissionReason|
            form_resubmission_reason_code(x) != Some(value)),
{
    match value {
        codes::FORM_RESUBMISSION_REASON_RELOAD => PromptUiFormResubmissionReason::Reload,
        codes::FORM_RESUBMISSION_REASON_BACK_FORWARD => PromptUiFormResubmissionReason::BackForward,
        codes::FORM_RESUBMISSION_REASON_OTHER => PromptUiFormResubmissionReason::Other,
        _ => PromptUiFormResubmissionReason::Unknown,
    }
}

pub open spec fn resolution_result_code(r: PromptUiResolutionResult) -> Option<u8> {
    match r {
        PromptUiResolutionResult::Allowed => Some(codes::PROMPT_UI_RESOLUTION_ALLOWED),
        PromptUiResolutionResult::Denied => Some(codes::PROMPT_UI_RESOLUTION_DENIED),
        PromptUiResolutionResult::Aborted => Some(codes::PROMPT_UI_RESOLUTION_ABORTED),
        PromptUiResolutionResult::Unknown => None,
    }
}

/// The value a wire code decodes to.
pub open spec fn prompt_ui_resolution_result_of(value: u8) -> PromptUiResolutionResult {
    if value == codes::PROMPT_UI_RESOLUTION_ALLOWED {
        PromptUiResolutionResult::Allowed
    } else if value == codes::PROMPT_UI_RESOLUTION_DENIED {
        PromptUiResolutionResult::Denied
    } else if value == codes::PROMPT_UI_RESOLUTION_ABORTED {
        PromptUiResolutionResult::Aborted
    } else {
        PromptUiResolutionResult::Unknown
    }
}

/// Decode a permission prompt result; unknown codes read as `Unknown`.
pub fn prompt_ui_resolution_result_from_ffi(value: u8) -> (r: PromptUiResolutionResult)
    ensures
        r == prompt_ui_resolution_result_of(value),
        resolution_result_code(r) == Some(value) || (r == PromptUiResolutionResult::Unknown
            && forall|x: PromptUiResolutionResult| resolution_result_code(x) != Some(value)),
{
    match value {
        codes::PROMPT_UI_RESOLUTION_ALLOWED => PromptUiResolutionResult::Allowed,
        codes::PROMPT_UI_RESOLUTION_DENIED => PromptUiResolutionResult::Denied,
        codes::PROMPT_UI_RESOLUTION_ABORTED => PromptUiResolutionResult::Aborted,
        _ => PromptUiResolutionResult::Unknown,
    }
}

pub open spec fn dialog_result_code(r: PromptUiDialogResult) -> Option<u8> {
    match r {
        PromptUiDialogResult::Proceeded => Some(codes::PROMPT_UI_DIALOG_PROCEEDED),
        PromptUiDialogResult::Canceled => Some(codes::PROMPT_UI_DIALOG_CANCELED),
        PromptUiDialogResult::Aborted => Some(codes::PROMPT_UI_DIALOG_ABORTED),
        PromptUiDialogResult::Unknown => None,
    }
}

/// The value a wire code decodes to.
pub open spec fn prompt_ui_dialog_result_of(value: u8) -> PromptUiDialogResult {
    if value == codes::PROMPT_UI_DIALOG_PROCEEDED {
        PromptUiDialogResult::Proceeded
    } else if value == codes::PROMPT_UI_DIALOG_CANCELED {
        PromptUiDialogResult::Canceled
    } else if value == codes::PROMPT_UI_DIALOG_ABORTED {
        PromptUiDialogResult::Aborted
    } else {
        PromptUiDialogResult::Unknown
    }
}

/// Decode a dialog result; unknown codes read as `Unknown`.
pub fn prompt_ui_dialog_result_from_ffi(value: u8) -> (r: PromptUiDialogResult)
    ensures
        r == prompt_ui_dialog_result_of(value),
        dialog_result_code(r) == Some(value) || (r == PromptUiDialogResult::Unknown && forall|
            x: PromptUiDialogResult,
        | dialog_result_code(x) != Some(value)),
{
    match value {
        codes::PROMPT_UI_DIALOG_PROCEEDED => PromptUiDialogResult::Proceeded,
        codes::PROMPT_UI_DIALOG_CANCELED => PromptUiDialogResult::Canceled,
        codes::PROMPT_UI_DIALOG_ABORTED => PromptUiDialogResult::Aborted,
        _ => PromptUiDialogResult::Unknown,
    }
}

pub open spec fn close_reason_code(r: PromptUiCloseReason) -> Option<u8> {
    match r {
        PromptUiCloseReason::UserCanceled => Some(codes::PROMPT_UI_CLOSE_USER_CANCELED),
        PromptUiCloseReason::HostForced => Some(codes::PROMPT_UI_CLOSE_HOST_FORCED),
        PromptUiCloseReason::SystemDismissed => Some(codes::PROMPT_UI_CLOSE_SYSTEM_DISMISSED),
        PromptUiCloseReason::Unknown => None,
    }
}

/// The value a wire code decodes to.
pub open spec fn prompt_ui_close_reason_of(value: u8) -> PromptUiCloseReason {
    if value == codes::PROMPT_UI_CLOSE_USER_CANCELED {
        PromptUiCloseReason::UserCanceled
    } else if value == codes::PROMPT_UI_CLOSE_HOST_FORCED {
        PromptUiCloseReason::HostForced
    } else if value == codes::PROMPT_UI_CLOSE_SYSTEM_DISMISSED {
        PromptUiCloseReason::SystemDismissed
    } else {
        PromptUiCloseReason::Unknown
    }
}

/// Decode a close reason; unknown codes read as `Unknown`.
pub fn prompt_ui_close_reason_from_ffi(value: u8) -> (r: PromptUiCloseReason)
    ensures
        r == prompt_ui_close_reason_of(value),
        close_reason_code(r) == Some(value) || (r == PromptUiCloseReason::Unknown && forall|
            x: PromptUiCloseReason,
        | close_reason_code(x) != Some(value)),
{
    match value {
        codes::PROMPT_UI_CLOSE_USER_CANCELED => PromptUiCloseReason::UserCanceled,
        codes::PROMPT_UI_CLOSE_HOST_FORCED => PromptUiCloseReason::HostForced,
        codes::PROMPT_UI_CLOSE_SYSTEM_DISMISSED => PromptUiCloseReason::SystemDismissed,
        _ => PromptUiCloseReason::Unknown,
    }
}

pub open spec fn extension_install_result_code(r: PromptUiExtensionInstallResult) -> u8 {
    match r {
        PromptUiExtensionInstallResult::Accepted => codes::EXTENSION_INSTALL_ACCEPTED,
        PromptUiExtensionInstallResult::AcceptedWithWithheldPermissions => codes::EXTENSION_INSTALL_ACCEPTED_WITH_WITHHELD_PERMISSIONS,
        PromptUiExtensionInstallResult::UserCanceled => codes::EXTENSION_INSTALL_USER_CANCELED,
        PromptUiExtensionInstallResult::Aborted => codes::EXTENSION_INSTALL_ABORTED,
    }
}

/// The value a wire code decodes to.
pub open spec fn prompt_ui_extension_install_result_of(value: u8) -> PromptUiExtensionInstallResult {
    if value == codes::EXTENSION_INSTALL_ACCEPTED {
        PromptUiExtensionInstallResult::Accepted
    } else if value == codes::EXTENSION_INSTALL_ACCEPTED_WITH_WITHHELD_PERMISSIONS {
        PromptUiExtensionInstallResult::AcceptedWithWithheldPermissions
    } else if value == codes::EXTENSION_INSTALL_USER_CANCELED {
        PromptUiExtensionInstallResult::UserCanceled
    } else if value == codes::EXTENSION_INSTALL_ABORTED {
        PromptUiExtensionInstallResult::Aborted
    } else {
        PromptUiExtensionInstallResult::Aborted
    }
}

/// Decode an extension install result; unknown codes read as `Aborted`.
pub fn prompt_ui_extension_install_result_from_ffi(value: u8) -> (r: PromptUiExtensionInstallResult)
    ensures
        r == prompt_ui_extension_install_result_of(value),
        extension_install_result_code(r) == value || (r
            == PromptUiExtensionInstallResult::Aborted && forall|x: PromptUiExtensionInstallResult|
            extension_install_result_code(x) != value),
{
    match value {
        codes::EXTENSION_INSTALL_ACCEPTED => PromptUiExtensionInstallResult::Accepted,
        codes::EXTENSION_INSTALL_ACCEPTED_WITH_WITHHELD_PERMISSIONS => PromptUiExtensionInstallResult::AcceptedWithWithheldPermissions,
        codes::EXTENSION_INSTALL_USER_CANCELED => PromptUiExtensionInstallResult::UserCanceled,
        codes::EXTENSION_INSTALL_ABORTED => PromptUiExtensionInstallResult::Aborted,
        _ => PromptUiExtensionInstallResult::Aborted,
    }
}

pub open spec fn extension_uninstall_result_code(r: PromptUiExtensionUninstallResult) -> u8 {
    match r {
        PromptUiExtensionUninstallResult::Accepted => codes::EXTENSION_UNINSTALL_ACCEPTED,
        PromptUiExtensionUninstallResult::UserCanceled => codes::EXTENSION_UNINSTALL_USER_CANCELED,
        PromptUiExtensionUninstallResult::Aborted => codes::EXTENSION_UNINSTALL_ABORTED,
        PromptUiExtensionUninstallResult::Failed => codes::EXTENSION_UNINSTALL_FAILED,
    }
}

/// The value a wire code decodes to.
pub open spec fn prompt_ui_extension_uninstall_result_of(value: u8) -> PromptUiExtensionUninstallResult {
    if value == codes::EXTENSION_UNINSTALL_ACCEPTED {
        PromptUiExtensionUninstallResult::Accepted
    } else if value == codes::EXTENSION_UNINSTALL_USER_CANCELED {
        PromptUiExtensionUninstallResult::UserCanceled
    } else if value == codes::EXTENSION_UNINSTALL_ABORTED {
        PromptUiExtensionUninstallResult::Aborted
    } else if value == codes::EXTENSION_UNINSTALL_FAILED {
        PromptUiExtensionUninstallResult::Failed
    } else {
        PromptUiExtensionUninstallResult::Aborted
    }
}

/// Decode an extension uninstall result; unknown codes read as `Aborted`.
pub fn prompt_ui_extension_uninstall_result_from_ffi(value: u8) -> (r: PromptUiExtensionUninstallResult)
    ensures
        r == prompt_ui_extension_uninstall_result_of(value),
        extension_uninstall_result_code(r) == value || (r
            == PromptUiExtensionUninstallResult::Aborted && forall|
            x: PromptUiExtensionUninstallResult,
        | extension_uninstall_result_code(x) != value),
{
    match value {
        codes::EXTENSION_UNINSTALL_ACCEPTED => PromptUiExtensionUninstallResult::Accepted,
        codes::EXTENSION_UNINSTALL_USER_CANCELED => PromptUiExtensionUninstallResult::UserCanceled,
        codes::EXTENSION_UNINSTALL_ABORTED => PromptUiExtensionUninstallResult::Aborted,
        codes::EXTENSION_UNINSTALL_FAILED => PromptUiExtensionUninstallResult::Failed,
        _ => PromptUiExtensionUninstallResult::Aborted,
    }
}

/// Decoding undoes encoding: every value with a wire code decodes back to itself.
pub proof fn lemma_prompt_ui_codes_round_trip()
    ensures
        forall|x: PromptUiPermissionType| #[trigger] permission_code(x) matches Some(c) ==> prompt_ui_permission_of(c) == x,
        forall|x: PromptUiFormResubmissionReason| #[trigger] form_resubmission_reason_code(x) matches Some(c) ==> prompt_ui_form_resubmission_reason_of(c) == x,
        forall|x: PromptUiResolutionResult| #[trigger] resolution_result_code(x) matches Some(c) ==> prompt_ui_resolution_result_of(c) == x,
        forall|x: PromptUiDialogResult| #[trigger] dialog_result_code(x) matches Some(c) ==> prompt_ui_dialog_result_of(c) == x,
        forall|x: PromptUiCloseReason| #[trigger] close_reason_code(x) matches Some(c) ==> prompt_ui_close_reason_of(c) == x,
        forall|x: PromptUiExtensionInstallResult| #[trigger] prompt_ui_extension_install_result_of(extension_install_result_code(x)) == x,
        forall|x: PromptUiExtensionUninstallResult| #[trigger] prompt_ui_extension_uninstall_result_of(extension_uninstall_result_code(x)) == x,
{
}

} // verus!
