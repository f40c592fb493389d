//! Bridge calls: what the client asks the bridge to do, with every argument
//! already checked and encoded, and how the bridge's answer is read.

use vstd::prelude::*;

use crate::bridge::BridgeError;
use crate::data::ime::BridgeImeTextSpan;

verus! {

/// A keyboard event in wire form; `tab_id` is 0 for an extension popup.
#[derive(Debug, Clone, PartialEq, Eq)]
pub struct BridgeKeyEvent {
    pub tab_id: u64,
    pub type_code: u8,
    pub modifiers: u32,
    pub windows_key_code: i32,
    pub native_key_code: i32,
    pub dom_code: Option<String>,
    pub dom_key: Option<String>,
    pub text: Option<String>,
    pub unmodified_text: Option<String>,
    pub auto_repeat: bool,
    pub is_keypad: bool,
    pub is_system_key: bool,
    pub location: i32,
}

/// One call into the bridge library, with its arguments in wire form.
///
/// `handle` is the address of the live bridge client; every string in a call
/// is free of NUL bytes.
#[derive(Debug, Clone, PartialEq, Eq)]
pub enum BridgeCall {
    Authenticate { handle: u64, token: String },
    ListProfiles { handle: u64 },
    ListExtensions { handle: u64, profile_id: String },
    RegisterCustomSchemeHandler { handle: u64, scheme: String, host: String },
    RespondCustomSchemeRequest {
        handle: u64,
        request_id: u64,
        result: u8,
        mime_type: String,
        content_security_policy: Option<String>,
        access_control_allow_origin: Option<String>,
        body: Vec<u8>,
    },
    ActivateExtensionAction { handle: u64, tab_id: u64, extension_id: String },
    CreateTab {
        handle: u64,
        request_id: u64,
        url: String,
        profile_id: String,
        has_policy: bool,
        ipc_policy: u8,
        allowed_origins: Vec<String>,
        extensions_policy: u8,
    },
    RequestCloseTab { handle: u64, tab_id: u64 },
    SetTabSize { handle: u64, tab_id: u64, width: u32, height: u32 },
    SetTabFocus { handle: u64, tab_id: u64, focused: bool },
    SetTabVisibility { handle: u64, tab_id: u64, visibility: u8 },
    EnableTabIpc { handle: u64, tab_id: u64, allowed_origins: Vec<String> },
    DisableTabIpc { handle: u64, tab_id: u64 },
    PostTabIpcMessage {
        handle: u64,
        tab_id: u64,
        channel: String,
        message_type: u8,
        request_id: u64,
        payload_kind: u8,
        payload_text: Option<String>,
        payload_binary: Vec<u8>,
        content_type: Option<String>,
        error_code: u8,
    },
    SetTabBackgroundPolicy { handle: u64, tab_id: u64, transparent: bool },
    ConfirmBeforeUnload { handle: u64, tab_id: u64, request_id: u64, proceed: bool },
    RespondJavaScriptDialog {
        handle: u64,
        tab_id: u64,
        request_id: u64,
        accept: bool,
        prompt_text: Option<String>,
    },
    RespondExtensionPopupJavaScriptDialog {
        handle: u64,
        popup_id: u64,
        request_id: u64,
        accept: bool,
        prompt_text: Option<String>,
    },
    Navigate { handle: u64, tab_id: u64, url: String },
    GoBack { handle: u64, tab_id: u64 },
    ExecuteEditAction { handle: u64, tab_id: u64, action: u8 },
    ExecuteExtensionPopupEditAction { handle: u64, popup_id: u64, action: u8 },
    GoForward { handle: u64, tab_id: u64 },
    Reload { handle: u64, tab_id: u64, ignore_cache: bool },
    PrintPreview { handle: u64, tab_id: u64 },
    OpenDevTools { handle: u64, tab_id: u64 },
    InspectElement { handle: u64, tab_id: u64, x: i32, y: i32 },
    GetTabDomHtml { handle: u64, tab_id: u64, request_id: u64 },
    FindInPage {
        handle: u64,
        tab_id: u64,
        request_id: u64,
        query: String,
        forward: bool,
        match_case: bool,
        new_session: bool,
        find_match: bool,
    },
    StopFinding { handle: u64, tab_id: u64, action: u8 },
    OpenDefaultPromptUi { handle: u64, profile_id: String, request_id: u64 },
    RespondPromptUi {
        handle: u64,
        profile_id: String,
        request_id: u64,
        kind: u8,
        proceed: bool,
        report_abuse: bool,
        destination_path: Option<String>,
    },
    RespondPromptUiForTab {
        handle: u64,
        tab_id: u64,
        request_id: u64,
        kind: u8,
        proceed: bool,
        report_abuse: bool,
        destination_path: Option<String>,
    },
    ClosePromptUi { handle: u64, profile_id: String, prompt_ui_id: u64 },
    PauseDownload { handle: u64, download_id: u64 },
    ResumeDownload { handle: u64, download_id: u64 },
    CancelDownload { handle: u64, download_id: u64 },
    RespondTabOpen {
        handle: u64,
        request_id: u64,
        response_kind: u8,
        target_tab_id: u64,
        activate: bool,
    },
    SendDragCancel { handle: u64, session_id: u64, tab_id: u64 },
    SendExternalDragLeave { handle: u64, tab_id: u64 },
    SendKeyEvent { handle: u64, event: BridgeKeyEvent, commands: Vec<String> },
    SendExtensionPopupKeyEvent {
        handle: u64,
        popup_id: u64,
        event: BridgeKeyEvent,
        commands: Vec<String>,
    },
    SetComposition {
        handle: u64,
        tab_id: u64,
        text: String,
        selection_start: i32,
        selection_end: i32,
        replacement_range_start: i32,
        replacement_range_end: i32,
        spans: Vec<BridgeImeTextSpan>,
    },
    CommitText {
        handle: u64,
        tab_id: u64,
        text: String,
        relative_caret_position: i32,
        replacement_range_start: i32,
        replacement_range_end: i32,
        spans: Vec<BridgeImeTextSpan>,
    },
    FinishComposingText { handle: u64, tab_id: u64, behavior: u8 },
    FinishExtensionPopupComposingText { handle: u64, popup_id: u64, behavior: u8 },
    SetExtensionPopupFocus { handle: u64, popup_id: u64, focused: bool },
    SetExtensionPopupSize { handle: u64, popup_id: u64, width: u32, height: u32 },
    SetExtensionPopupBackgroundPolicy { handle: u64, popup_id: u64, transparent: bool },
    CloseExtensionPopup { handle: u64, popup_id: u64 },
    ExecuteContextMenuCommand { handle: u64, menu_id: u64, command_id: i32, event_flags: i32 },
    AcceptChoiceMenuSelection { handle: u64, request_id: u64, indices: Vec<i32> },
    DismissChoiceMenu { handle: u64, request_id: u64 },
    DismissContextMenu { handle: u64, menu_id: u64 },
    RequestShutdown { handle: u64, request_id: u64 },
    ConfirmShutdown { handle: u64, request_id: u64, proceed: bool },
    ForceShutdown { handle: u64 },
}

/// The operation name the bridge reports a refusal under.
pub open spec fn operation_name(call: BridgeCall) -> &'static str {
    match call {
        BridgeCall::Authenticate { .. } => "authenticate",
        BridgeCall::ListProfiles { .. } => "list_profiles",
        BridgeCall::ListExtensions { .. } => "list_extensions",
        BridgeCall::RegisterCustomSchemeHandler { .. } => "register_custom_scheme_handler",
        BridgeCall::RespondCustomSchemeRequest { .. } => "respond_custom_scheme_request",
        BridgeCall::ActivateExtensionAction { .. } => "activate_extension_action",
        BridgeCall::CreateTab { .. } => "create_tab",
        BridgeCall::RequestCloseTab { .. } => "request_close_tab",
        BridgeCall::SetTabSize { .. } => "set_tab_size",
        BridgeCall::SetTabFocus { .. } => "set_tab_focus",
        BridgeCall::SetTabVisibility { .. } => "set_tab_visibility",
        BridgeCall::EnableTabIpc { .. } => "enable_tab_ipc",
        BridgeCall::DisableTabIpc { .. } => "disable_tab_ipc",
        BridgeCall::PostTabIpcMessage { .. } => "post_tab_ipc_message",
        BridgeCall::SetTabBackgroundPolicy { .. } => "set_tab_background_policy",
        BridgeCall::ConfirmBeforeUnload { .. } => "confirm_beforeunload",
        BridgeCall::RespondJavaScriptDialog { .. } => "respond_javascript_dialog",
        BridgeCall::RespondExtensionPopupJavaScriptDialog { .. } => "respond_extension_popup_javascript_dialog",
        BridgeCall::Navigate { .. } => "navigate",
        BridgeCall::GoBack { .. } => "go_back",
        BridgeCall::ExecuteEditAction { .. } => "execute_edit_action",
        BridgeCall::ExecuteExtensionPopupEditAction { .. } => "execute_extension_popup_edit_action",
        BridgeCall::GoForward { .. } => "go_forward",
        BridgeCall::Reload { .. } => "reload",
        BridgeCall::PrintPreview { .. } => "print_preview",
        BridgeCall::OpenDevTools { .. } => "open_dev_tools",
        BridgeCall::InspectElement { .. } => "inspect_element",
        BridgeCall::GetTabDomHtml { .. } => "get_tab_dom_html",
        BridgeCall::FindInPage { .. } => "find_in_page",
        BridgeCall::StopFinding { .. } => "stop_finding",
        BridgeCall::OpenDefaultPromptUi { .. } => "open_default_prompt_ui",
        BridgeCall::RespondPromptUi { .. } => "respond_prompt_ui",
        BridgeCall::RespondPromptUiForTab { .. } => "respond_prompt_ui_for_tab",
        BridgeCall::ClosePromptUi { .. } => "close_prompt_ui",
        BridgeCall::PauseDownload { .. } => "pause_download",
        BridgeCall::ResumeDownload { .. } => "resume_download",
        BridgeCall::CancelDownload { .. } => "cancel_download",
        BridgeCall::RespondTabOpen { .. } => "respond_tab_open",
        BridgeCall::SendDragCancel { .. } => "send_drag_cancel",
        BridgeCall::SendExternalDragLeave { .. } => "send_external_drag_leave",
        BridgeCall::SendKeyEvent { .. } => "send_key_event",
        BridgeCall::SendExtensionPopupKeyEvent { .. } => "send_extension_popup_key_event_raw",
        BridgeCall::SetComposition { .. } => "set_composition",
        BridgeCall::CommitText { .. } => "commit_text",
        BridgeCall::FinishComposingText { .. } => "finish_composing_text",
        BridgeCall::FinishExtensionPopupComposingText { .. } => "finish_extension_popup_composing_text",
        BridgeCall::SetExtensionPopupFocus { .. } => "set_extension_popup_focus",
        BridgeCall::SetExtensionPopupSize { .. } => "set_extension_popup_size",
        BridgeCall::SetExtensionPopupBackgroundPolicy { .. } => "set_extension_popup_background_policy",
        BridgeCall::CloseExtensionPopup { .. } => "close_extension_popup",
        BridgeCall::ExecuteContextMenuCommand { .. } => "execute_context_menu_command",
        BridgeCall::AcceptChoiceMenuSelection { .. } => "accept_choice_menu_selection",
        BridgeCall::DismissChoiceMenu { .. } => "dismiss_choice_menu",
        BridgeCall::DismissContextMenu { .. } => "dismiss_context_menu",
        BridgeCall::RequestShutdown { .. } => "request_shutdown",
        BridgeCall::ConfirmShutdown { .. } => "confirm_shutdown",
        BridgeCall::ForceShutdown { .. } => "force_shutdown",
    }
}

impl BridgeCall {
    /// The operation name of this call.
    pub fn operation(&self) -> (op: &'static str)
        ensures
            op == operation_name(*self),
    {
        match self {
            BridgeCall::Authenticate { .. } => "authenticate",
            BridgeCall::ListProfiles { .. } => "list_profiles",
            BridgeCall::ListExtensions { .. } => "list_extensions",
            BridgeCall::RegisterCustomSchemeHandler { .. } => "register_custom_scheme_handler",
            BridgeCall::RespondCustomSchemeRequest { .. } => "respond_custom_scheme_request",
            BridgeCall::ActivateExtensionAction { .. } => "activate_extension_action",
            BridgeCall::CreateTab { .. } => "create_tab",
            BridgeCall::RequestCloseTab { .. } => "request_close_tab",
            BridgeCall::SetTabSize { .. } => "set_tab_size",
            BridgeCall::SetTabFocus { .. } => "set_tab_focus",
            BridgeCall::SetTabVisibility { .. } => "set_tab_visibility",
            BridgeCall::EnableTabIpc { .. } => "enable_tab_ipc",
            BridgeCall::DisableTabIpc { .. } => "disable_tab_ipc",
            BridgeCall::PostTabIpcMessage { .. } => "post_tab_ipc_message",
            BridgeCall::SetTabBackgroundPolicy { .. } => "set_tab_background_policy",
            BridgeCall::ConfirmBeforeUnload { .. } => "confirm_beforeunload",
            BridgeCall::RespondJavaScriptDialog { .. } => "respond_javascript_dialog",
            BridgeCall::RespondExtensionPopupJavaScriptDialog { .. } => "respond_extension_popup_javascript_dialog",
            BridgeCall::Navigate { .. } => "navigate",
            BridgeCall::GoBack { .. } => "go_back",
            BridgeCall::ExecuteEditAction { .. } => "execute_edit_action",
            BridgeCall::ExecuteExtensionPopupEditAction { .. } => "execute_extension_popup_edit_action",
        BridgeCall::ExecuteEditAction { .. } => "execute_edit_action",
        BridgeCall::ExecuteExtensionPopupEditAction { .. } => "execute_extension_popup_edit_action",
            BridgeCall::GoForward { .. } => "go_forward",
            BridgeCall::Reload { .. } => "reload",
            BridgeCall::PrintPreview { .. } => "print_preview",
            BridgeCall::OpenDevTools { .. } => "open_dev_tools",
            BridgeCall::InspectElement { .. } => "inspect_element",
            BridgeCall::GetTabDomHtml { .. } => "get_tab_dom_html",
            BridgeCall::FindInPage { .. } => "find_in_page",
            BridgeCall::StopFinding { .. } => "stop_finding",
            BridgeCall::OpenDefaultPromptUi { .. } => "open_default_prompt_ui",
            BridgeCall::RespondPromptUi { .. } => "respond_prompt_ui",
            BridgeCall::RespondPromptUiForTab { .. } => "respond_prompt_ui_for_tab",
            BridgeCall::ClosePromptUi { .. } => "close_prompt_ui",
            BridgeCall::PauseDownload { .. } => "pause_download",
            BridgeCall::ResumeDownload { .. } => "resume_download",
            BridgeCall::CancelDownload { .. } => "cancel_download",
            BridgeCall::RespondTabOpen { .. } => "respond_tab_open",
            BridgeCall::SendDragCancel { .. } => "send_drag_cancel",
            BridgeCall::SendExternalDragLeave { .. } => "send_external_drag_leave",
            BridgeCall::SendKeyEvent { .. } => "send_key_event",
            BridgeCall::SendExtensionPopupKeyEvent { .. } => "send_extension_popup_key_event_raw",
            BridgeCall::SetComposition { .. } => "set_composition",
            BridgeCall::CommitText { .. } => "commit_text",
            BridgeCall::FinishComposingText { .. } => "finish_composing_text",
            BridgeCall::FinishExtensionPopupComposingText { .. } => "finish_extension_popup_composing_text",
            BridgeCall::SetExtensionPopupFocus { .. } => "set_extension_popup_focus",
            BridgeCall::SetExtensionPopupSize { .. } => "set_extension_popup_size",
            BridgeCall::SetExtensionPopupBackgroundPolicy { .. } => "set_extension_popup_background_policy",
            BridgeCall::CloseExtensionPopup { .. } => "close_extension_popup",
            BridgeCall::ExecuteContextMenuCommand { .. } => "execute_context_menu_command",
            BridgeCall::AcceptChoiceMenuSelection { .. } => "accept_choice_menu_selection",
            BridgeCall::DismissChoiceMenu { .. } => "dismiss_choice_menu",
            BridgeCall::DismissContextMenu { .. } => "dismiss_context_menu",
            BridgeCall::RequestShutdown { .. } => "request_shutdown",
            BridgeCall::ConfirmShutdown { .. } => "confirm_shutdown",
            BridgeCall::ForceShutdown { .. } => "force_shutdown",
        }
    }
}

/// A refused operation is reported under its name.
pub fn bridge_ok(operation: &'static str, success: bool) -> (r: Result<(), BridgeError>)
    ensures
        r == (if success {
            Ok(())
        } else {
            Err(BridgeError::OperationFailed { operation })
        }),
{
    if success {
        Ok(())
    } else {
        Err(BridgeError::OperationFailed { operation })
    }
}

/// A rejected session token is an authentication failure.
pub fn authentication_result(success: bool) -> (r: Result<(), BridgeError>)
    ensures
        r == (if success {
            Ok(())
        } else {
            Err(BridgeError::AuthenticationFailed)
        }),
{
    if success {
        Ok(())
    } else {
        Err(BridgeError::AuthenticationFailed)
    }
}

/// What the client reports once the bridge has answered `call`.
pub open spec fn spec_call_outcome(call: BridgeCall, answer: Result<bool, BridgeError>) -> Result<
    (),
    BridgeError,
> {
    match answer {
        Err(e) => Err(e),
        Ok(true) => Ok(()),
        Ok(false) => if call is Authenticate {
            Err(BridgeError::AuthenticationFailed)
        } else {
            Err(BridgeError::OperationFailed { operation: operation_name(call) })
        },
    }
}

/// A call the bridge accepted succeeds; one it could not be reached for fails
/// with that error; one it rejected fails, as an authentication failure for a
/// session token and as a failure of the call's own operation otherwise.
pub proof fn lemma_call_outcome(call: BridgeCall, answer: Result<bool, BridgeError>)
    ensures
        answer == Ok::<bool, BridgeError>(true) ==> spec_call_outcome(call, answer) == Ok::<(), BridgeError>(()),
        answer matches Err(e) ==> spec_call_outcome(call, answer) == Err::<(), BridgeError>(e),
        answer == Ok::<bool, BridgeError>(false) && call is Authenticate ==> spec_call_outcome(call, answer)
            == Err::<(), BridgeError>(BridgeError::AuthenticationFailed),
        answer == Ok::<bool, BridgeError>(false) && !(call is Authenticate) ==> spec_call_outcome(call, answer)
            == Err::<(), BridgeError>(BridgeError::OperationFailed { operation: operation_name(call) }),
{
}

/// Read the bridge's answer to `call`: `answer` is `Err` when the bridge could
/// not be reached, else whether the bridge accepted the call.
pub fn finish_call(call: &BridgeCall, answer: Result<bool, BridgeError>) -> (r: Result<
    (),
    BridgeError,
>)
    ensures
        r == spec_call_outcome(*call, answer),
{
    match answer {
        Err(e) => Err(e),
        Ok(success) => match call {
            BridgeCall::Authenticate { .. } => authentication_result(success),
            _ => bridge_ok(call.operation(), success),
        },
    }
}

} // verus!
