//! Chrome-specific commands and the bridge call each one is carried out by.

use vstd::prelude::*;

use crate::bridge::BridgeError;
use crate::bridge::call::BridgeCall;
use crate::codes;
use crate::bridge::client::{
    accept_choice_menu_selection_planned,
    activate_extension_action_planned,
    any_has_nul,
    cancel_download_planned,
    close_extension_popup_planned,
    close_prompt_ui_planned,
    commit_text_planned,
    confirm_beforeunload_planned,
    confirm_shutdown_planned,
    create_tab_planned,
    disable_tab_ipc_planned,
    dismiss_choice_menu_planned,
    dismiss_context_menu_planned,
    enable_tab_ipc_planned,
    execute_context_menu_command_planned,
    execute_edit_action_planned,
    execute_extension_popup_edit_action_planned,
    find_in_page_planned,
    finish_composing_text_planned,
    finish_extension_popup_composing_text_planned,
    force_shutdown_planned,
    get_tab_dom_html_planned,
    go_back_planned,
    go_forward_planned,
    has_nul,
    input_error,
    inspect_element_planned,
    key_event_encoded,
    key_event_has_nul,
    list_extensions_planned,
    navigate_planned,
    on_ready,
    open_default_prompt_ui_planned,
    open_dev_tools_planned,
    opt_has_nul,
    opt_text,
    pause_download_planned,
    payload_bytes,
    payload_kind_code,
    payload_text,
    post_tab_ipc_message_planned,
    print_preview_planned,
    prompt_destination,
    prompt_response_kind,
    prompt_response_proceed,
    prompt_response_report_abuse,
    reload_planned,
    request_close_tab_planned,
    request_shutdown_planned,
    respond_custom_scheme_request_planned,
    respond_prompt_ui_for_tab_planned,
    respond_prompt_ui_planned,
    respond_tab_open_planned,
    resume_download_planned,
    send_drag_cancel_planned,
    send_extension_popup_key_event_raw_planned,
    send_external_drag_leave_planned,
    send_key_event_raw_planned,
    set_composition_planned,
    set_extension_popup_background_policy_planned,
    set_extension_popup_focus_planned,
    set_extension_popup_size_planned,
    set_tab_background_policy_planned,
    set_tab_focus_planned,
    set_tab_size_planned,
    set_tab_visibility_planned,
    spec_range,
    stop_finding_planned,
    texts_view,
    IpcClient,
};
use crate::data::background::ChromeBackgroundPolicy;
use crate::data::browsing_context_open::ChromeBrowsingContextOpenResponse;
use crate::data::custom_scheme::{
    custom_scheme_result_code,
    ChromeCustomSchemeResponse,
};
use crate::data::download::ChromeDownloadId;
use crate::data::edit::{
    edit_action_code,
    ChromeEditAction,
};
use crate::data::find::{
    stop_find_action_code,
    ChromeFindInPageOptions,
    ChromeStopFindAction,
};
use crate::data::ids::{
    PopupId,
    TabId,
};
use crate::data::ime::{
    confirm_behavior_code,
    spec_bridge_span,
    ChromeConfirmCompositionBehavior,
    ChromeImeCommitText,
    ChromeImeComposition,
    ChromeImeTextSpan,
};
use crate::data::input::ChromeKeyEvent;
use crate::data::ipc::{
    message_type_code,
    optional_error_code,
    TabIpcConfig,
    TabIpcMessage,
};
use crate::data::prompt_ui::{
    PromptUiId,
    PromptUiResponse,
};
use crate::data::visibility::{
    tab_visibility_code,
    ChromeTabVisibility,
};

verus! {

/// A command for the Chromium backend, in its Chrome-specific vocabulary.
#[derive(Debug, Clone, PartialEq)]
pub enum ChromeCommand {
    RequestShutdown { request_id: u64 },
    ConfirmShutdown { request_id: u64, proceed: bool },
    ForceShutdown,
    ConfirmBeforeUnload { browsing_context_id: TabId, request_id: u64, proceed: bool },
    CreateTab { request_id: u64, initial_url: Option<String>, profile_id: String },
    ConfirmPermission { browsing_context_id: TabId, request_id: u64, allow: bool },
    ListProfiles,
    ListExtensions { profile_id: String },
    RequestCloseTab { browsing_context_id: TabId },
    SetTabSize { browsing_context_id: TabId, width: u32, height: u32 },
    SetTabBackgroundPolicy { browsing_context_id: TabId, policy: ChromeBackgroundPolicy },
    Navigate { browsing_context_id: TabId, url: String },
    GoBack { browsing_context_id: TabId },
    ExecuteEditAction { browsing_context_id: TabId, action: ChromeEditAction },
    ExecuteExtensionPopupEditAction { popup_id: PopupId, action: ChromeEditAction },
    GoForward { browsing_context_id: TabId },
    Reload { browsing_context_id: TabId, ignore_cache: bool },
    PrintPreview { browsing_context_id: TabId },
    OpenDevTools { browsing_context_id: TabId },
    InspectElement { browsing_context_id: TabId, x: i32, y: i32 },
    GetTabDomHtml { browsing_context_id: TabId, request_id: u64 },
    FindInPage { browsing_context_id: TabId, request_id: u64, options: ChromeFindInPageOptions },
    StopFinding { browsing_context_id: TabId, action: ChromeStopFindAction },
    SetTabFocus { browsing_context_id: TabId, focused: bool },
    SetTabVisibility { browsing_context_id: TabId, visibility: ChromeTabVisibility },
    EnableTabIpc { browsing_context_id: TabId, config: TabIpcConfig },
    DisableTabIpc { browsing_context_id: TabId },
    PostTabIpcMessage { browsing_context_id: TabId, message: TabIpcMessage },
    SendKeyEvent { browsing_context_id: TabId, event: ChromeKeyEvent, commands: Vec<String> },
    SendDragCancel { session_id: u64, browsing_context_id: TabId },
    SendExternalDragLeave { browsing_context_id: TabId },
    SetImeComposition { composition: ChromeImeComposition },
    CommitImeText { commit: ChromeImeCommitText },
    FinishComposingText { browsing_context_id: TabId, behavior: ChromeConfirmCompositionBehavior },
    ExecuteContextMenuCommand { menu_id: u64, command_id: i32, event_flags: i32 },
    AcceptChoiceMenuSelection { request_id: u64, indices: Vec<i32> },
    DismissChoiceMenu { request_id: u64 },
    DismissContextMenu { menu_id: u64 },
    PauseDownload { download_id: ChromeDownloadId },
    ResumeDownload { download_id: ChromeDownloadId },
    CancelDownload { download_id: ChromeDownloadId },
    RespondCustomSchemeRequest { response: ChromeCustomSchemeResponse },
    ActivateExtensionAction { browsing_context_id: TabId, extension_id: String },
    CloseExtensionPopup { popup_id: PopupId },
    SetExtensionPopupSize { popup_id: PopupId, width: u32, height: u32 },
    SetExtensionPopupBackgroundPolicy { popup_id: PopupId, policy: ChromeBackgroundPolicy },
    SetExtensionPopupFocus { popup_id: PopupId, focused: bool },
    SendExtensionPopupKeyEvent { popup_id: PopupId, event: ChromeKeyEvent, commands: Vec<String> },
    FinishExtensionPopupComposingText { popup_id: PopupId, behavior: ChromeConfirmCompositionBehavior },
    OpenDefaultPromptUi { profile_id: String, request_id: u64 },
    RespondPromptUi { profile_id: String, request_id: u64, response: PromptUiResponse },
    ClosePromptUi { profile_id: String, prompt_ui_id: PromptUiId },
    RespondTabOpen { request_id: u64, response: ChromeBrowsingContextOpenResponse },
}

/// The URL a new tab opens: the one asked for, else `about:blank`.
pub open spec fn default_tab_url(initial_url: Option<String>) -> Seq<char> {
    match initial_url {
        Some(url) => url@,
        None => "about:blank"@,
    }
}

/// The bridge call that carries out `command` on a client whose handle is
/// `client_handle`, as the client's planner for that call states it.
pub open spec fn command_planned(client_handle: u64, command: ChromeCommand, r: Result<BridgeCall, BridgeError>) -> bool {
    match command {
        ChromeCommand::RequestShutdown { request_id } => request_shutdown_planned(client_handle, request_id, r),
        ChromeCommand::ConfirmShutdown { request_id, proceed } => confirm_shutdown_planned(client_handle, request_id, proceed, r),
        ChromeCommand::ForceShutdown => force_shutdown_planned(client_handle, r),
        ChromeCommand::ConfirmBeforeUnload { browsing_context_id, request_id, proceed } => confirm_beforeunload_planned(client_handle, browsing_context_id, request_id, proceed, r),
        ChromeCommand::CreateTab { request_id, initial_url, profile_id } => create_tab_planned(
            client_handle,
            request_id,
            default_tab_url(initial_url),
            profile_id@,
            None,
            r,
        ),
        ChromeCommand::ConfirmPermission { browsing_context_id, request_id, allow } => respond_prompt_ui_for_tab_planned(
            client_handle,
            browsing_context_id,
            request_id,
            PromptUiResponse::PermissionPrompt { allow },
            r,
        ),
        ChromeCommand::ListProfiles => r == on_ready(client_handle, BridgeCall::ListProfiles { handle: client_handle }),
        ChromeCommand::ListExtensions { profile_id } => list_extensions_planned(client_handle, profile_id@, r),
        ChromeCommand::RequestCloseTab { browsing_context_id } => request_close_tab_planned(client_handle, browsing_context_id, r),
        ChromeCommand::SetTabSize { browsing_context_id, width, height } => set_tab_size_planned(client_handle, browsing_context_id, width, height, r),
        ChromeCommand::SetTabBackgroundPolicy { browsing_context_id, policy } => set_tab_background_policy_planned(client_handle, browsing_context_id, policy, r),
        ChromeCommand::Navigate { browsing_context_id, url } => navigate_planned(client_handle, browsing_context_id, url@, r),
        ChromeCommand::GoBack { browsing_context_id } => go_back_planned(client_handle, browsing_context_id, r),
        ChromeCommand::ExecuteEditAction { browsing_context_id, action } => execute_edit_action_planned(client_handle, browsing_context_id, action, r),
        ChromeCommand::ExecuteExtensionPopupEditAction { popup_id, action } => execute_extension_popup_edit_action_planned(client_handle, popup_id, action, r),
        ChromeCommand::GoForward { browsing_context_id } => go_forward_planned(client_handle, browsing_context_id, r),
        ChromeCommand::Reload { browsing_context_id, ignore_cache } => reload_planned(client_handle, browsing_context_id, ignore_cache, r),
        ChromeCommand::PrintPreview { browsing_context_id } => print_preview_planned(client_handle, browsing_context_id, r),
        ChromeCommand::OpenDevTools { browsing_context_id } => open_dev_tools_planned(client_handle, browsing_context_id, r),
        ChromeCommand::InspectElement { browsing_context_id, x, y } => inspect_element_planned(client_handle, browsing_context_id, x, y, r),
        ChromeCommand::GetTabDomHtml { browsing_context_id, request_id } => get_tab_dom_html_planned(client_handle, browsing_context_id, request_id, r),
        ChromeCommand::FindInPage { browsing_context_id, request_id, options } => find_in_page_planned(client_handle, browsing_context_id, request_id, options, r),
        ChromeCommand::StopFinding { browsing_context_id, action } => stop_finding_planned(client_handle, browsing_context_id, action, r),
        ChromeCommand::SetTabFocus { browsing_context_id, focused } => set_tab_focus_planned(client_handle, browsing_context_id, focused, r),
        ChromeCommand::SetTabVisibility { browsing_context_id, visibility } => set_tab_visibility_planned(client_handle, browsing_context_id, visibility, r),
        ChromeCommand::EnableTabIpc { browsing_context_id, config } => enable_tab_ipc_planned(client_handle, browsing_context_id, config, r),
        ChromeCommand::DisableTabIpc { browsing_context_id } => disable_tab_ipc_planned(client_handle, browsing_context_id, r),
        ChromeCommand::PostTabIpcMessage { browsing_context_id, message } => post_tab_ipc_message_planned(client_handle, browsing_context_id, message, r),
        ChromeCommand::SendKeyEvent { browsing_context_id, event, commands } => send_key_event_raw_planned(client_handle, browsing_context_id, event, commands@, r),
        ChromeCommand::SendDragCancel { session_id, browsing_context_id } => send_drag_cancel_planned(client_handle, session_id, browsing_context_id, r),
        ChromeCommand::SendExternalDragLeave { browsing_context_id } => send_external_drag_leave_planned(client_handle, browsing_context_id, r),
        ChromeCommand::SetImeComposition { composition } => set_composition_planned(client_handle, composition, r),
        ChromeCommand::CommitImeText { commit } => commit_text_planned(client_handle, commit, r),
        ChromeCommand::FinishComposingText { browsing_context_id, behavior } => finish_composing_text_planned(client_handle, browsing_context_id, behavior, r),
        ChromeCommand::ExecuteContextMenuCommand { menu_id, command_id, event_flags } => execute_context_menu_command_planned(client_handle, menu_id, command_id, event_flags, r),
        ChromeCommand::AcceptChoiceMenuSelection { request_id, indices } => accept_choice_menu_selection_planned(client_handle, request_id, indices@, r),
        ChromeCommand::DismissChoiceMenu { request_id } => dismiss_choice_menu_planned(client_handle, request_id, r),
        ChromeCommand::DismissContextMenu { menu_id } => dismiss_context_menu_planned(client_handle, menu_id, r),
        ChromeCommand::PauseDownload { download_id } => pause_download_planned(client_handle, download_id, r),
        ChromeCommand::ResumeDownload { download_id } => resume_download_planned(client_handle, download_id, r),
        ChromeCommand::CancelDownload { download_id } => cancel_download_planned(client_handle, download_id, r),
        ChromeCommand::RespondCustomSchemeRequest { response } => respond_custom_scheme_request_planned(client_handle, response, r),
        ChromeCommand::ActivateExtensionAction { browsing_context_id, extension_id } => activate_extension_action_planned(client_handle, browsing_context_id, extension_id@, r),
        ChromeCommand::CloseExtensionPopup { popup_id } => close_extension_popup_planned(client_handle, popup_id, r),
        ChromeCommand::SetExtensionPopupSize { popup_id, width, height } => set_extension_popup_size_planned(client_handle, popup_id, width, height, r),
        ChromeCommand::SetExtensionPopupBackgroundPolicy { popup_id, policy } => set_extension_popup_background_policy_planned(client_handle, popup_id, policy, r),
        ChromeCommand::SetExtensionPopupFocus { popup_id, focused } => set_extension_popup_focus_planned(client_handle, popup_id, focused, r),
        ChromeCommand::SendExtensionPopupKeyEvent { popup_id, event, commands } => send_extension_popup_key_event_raw_planned(client_handle, popup_id, event, commands@, r),
        ChromeCommand::FinishExtensionPopupComposingText { popup_id, behavior } => finish_extension_popup_composing_text_planned(client_handle, popup_id, behavior, r),
        ChromeCommand::OpenDefaultPromptUi { profile_id, request_id } => open_default_prompt_ui_planned(client_handle, profile_id@, request_id, r),
        ChromeCommand::RespondPromptUi { profile_id, request_id, response } => respond_prompt_ui_planned(client_handle, profile_id@, request_id, response, r),
        ChromeCommand::ClosePromptUi { profile_id, prompt_ui_id } => close_prompt_ui_planned(client_handle, profile_id@, prompt_ui_id, r),
        ChromeCommand::RespondTabOpen { request_id, response } => respond_tab_open_planned(client_handle, request_id, response, r),
    }
}

/// What each command asks of the bridge: a client without a live handle
/// refuses every command; otherwise each command becomes the bridge call of
/// the same meaning, carrying the command's own tab, popup, request and
/// values (a back command goes back, a forward one forward, sizes keep width
/// and height in place). A tab created without a URL opens `about:blank`, and
/// a permission answer is a permission-prompt response with the same answer.
#[verifier::rlimit(50)]
pub proof fn lemma_commands_become_their_calls(h: u64, command: ChromeCommand, r: Result<BridgeCall, BridgeError>)
    requires
        command_planned(h, command, r),
    ensures
        match command {
        ChromeCommand::RequestShutdown { request_id } => if h == 0 {
            r == Err::<BridgeCall, BridgeError>(BridgeError::InvalidState)
        } else {
            r == Ok::<BridgeCall, BridgeError>(BridgeCall::RequestShutdown { handle: h, request_id: request_id })
        },
        ChromeCommand::ConfirmShutdown { request_id, proceed } => if h == 0 {
            r == Err::<BridgeCall, BridgeError>(BridgeError::InvalidState)
        } else {
            r == Ok::<BridgeCall, BridgeError>(BridgeCall::ConfirmShutdown { handle: h, request_id: request_id, proceed: proceed })
        },
        ChromeCommand::ForceShutdown => if h == 0 {
            r == Err::<BridgeCall, BridgeError>(BridgeError::InvalidState)
        } else {
            r == Ok::<BridgeCall, BridgeError>(BridgeCall::ForceShutdown { handle: h })
        },
        ChromeCommand::ConfirmBeforeUnload { browsing_context_id, request_id, proceed } => if h == 0 {
            r == Err::<BridgeCall, BridgeError>(BridgeError::InvalidState)
        } else {
            r == Ok::<BridgeCall, BridgeError>(BridgeCall::ConfirmBeforeUnload { handle: h, tab_id: browsing_context_id.0, request_id: request_id, proceed: proceed })
        },
        ChromeCommand::CreateTab { request_id, initial_url, profile_id } => {
            &&& h == 0 ==> r == Err::<BridgeCall, BridgeError>(BridgeError::InvalidState)
            &&& r matches Ok(call) ==> call matches BridgeCall::CreateTab {
                handle,
                request_id: rid,
                url,
                profile_id: profile,
                has_policy,
                ..
            } && handle == h && rid == request_id && profile@ == profile_id@ && !has_policy
                && url@ == match initial_url {
                Some(u) => u@,
                None => "about:blank"@,
            }
        },
        ChromeCommand::ConfirmPermission { browsing_context_id, request_id, allow } => if h == 0 {
            r == Err::<BridgeCall, BridgeError>(BridgeError::InvalidState)
        } else {
            r == Ok::<BridgeCall, BridgeError>(
                BridgeCall::RespondPromptUiForTab {
                    handle: h,
                    tab_id: browsing_context_id.0,
                    request_id,
                    kind: codes::PROMPT_UI_KIND_PERMISSION_PROMPT,
                    proceed: allow,
                    report_abuse: false,
                    destination_path: None,
                },
            )
        },
        ChromeCommand::ListExtensions { profile_id } => (h == 0 ==> r == Err::<BridgeCall, BridgeError>(BridgeError::InvalidState)) && (r matches Ok(call) ==> call is ListExtensions),
        ChromeCommand::RequestCloseTab { browsing_context_id } => if h == 0 {
            r == Err::<BridgeCall, BridgeError>(BridgeError::InvalidState)
        } else {
            r == Ok::<BridgeCall, BridgeError>(BridgeCall::RequestCloseTab { handle: h, tab_id: browsing_context_id.0 })
        },
        ChromeCommand::SetTabSize { browsing_context_id, width, height } => if h == 0 {
            r == Err::<BridgeCall, BridgeError>(BridgeError::InvalidState)
        } else {
            r == Ok::<BridgeCall, BridgeError>(BridgeCall::SetTabSize { handle: h, tab_id: browsing_context_id.0, width: width, height: height })
        },
        ChromeCommand::SetTabBackgroundPolicy { browsing_context_id, policy } => if h == 0 {
            r == Err::<BridgeCall, BridgeError>(BridgeError::InvalidState)
        } else {
            r == Ok::<BridgeCall, BridgeError>(BridgeCall::SetTabBackgroundPolicy { handle: h, tab_id: browsing_context_id.0, transparent: policy == ChromeBackgroundPolicy::Transparent })
        },
        ChromeCommand::Navigate { browsing_context_id, url } => (h == 0 ==> r == Err::<BridgeCall, BridgeError>(BridgeError::InvalidState)) && (r matches Ok(call) ==> call is Navigate),
        ChromeCommand::GoBack { browsing_context_id } => if h == 0 {
            r == Err::<BridgeCall, BridgeError>(BridgeError::InvalidState)
        } else {
            r == Ok::<BridgeCall, BridgeError>(BridgeCall::GoBack { handle: h, tab_id: browsing_context_id.0 })
        },
        ChromeCommand::ExecuteEditAction { browsing_context_id, action } => if h == 0 {
            r == Err::<BridgeCall, BridgeError>(BridgeError::InvalidState)
        } else {
            r == Ok::<BridgeCall, BridgeError>(BridgeCall::ExecuteEditAction { handle: h, tab_id: browsing_context_id.0, action: edit_action_code(action) })
        },
        ChromeCommand::ExecuteExtensionPopupEditAction { popup_id, action } => if h == 0 {
            r == Err::<BridgeCall, BridgeError>(BridgeError::InvalidState)
        } else {
            r == Ok::<BridgeCall, BridgeError>(BridgeCall::ExecuteExtensionPopupEditAction { handle: h, popup_id: popup_id.0, action: edit_action_code(action) })
        },
        ChromeCommand::GoForward { browsing_context_id } => if h == 0 {
            r == Err::<BridgeCall, BridgeError>(BridgeError::InvalidState)
        } else {
            r == Ok::<BridgeCall, BridgeError>(BridgeCall::GoForward { handle: h, tab_id: browsing_context_id.0 })
        },
        ChromeCommand::Reload { browsing_context_id, ignore_cache } => if h == 0 {
            r == Err::<BridgeCall, BridgeError>(BridgeError::InvalidState)
        } else {
            r == Ok::<BridgeCall, BridgeError>(BridgeCall::Reload { handle: h, tab_id: browsing_context_id.0, ignore_cache: ignore_cache })
        },
        ChromeCommand::PrintPreview { browsing_context_id } => if h == 0 {
            r == Err::<BridgeCall, BridgeError>(BridgeError::InvalidState)
        } else {
            r == Ok::<BridgeCall, BridgeError>(BridgeCall::PrintPreview { handle: h, tab_id: browsing_context_id.0 })
        },
        ChromeCommand::OpenDevTools { browsing_context_id } => if h == 0 {
            r == Err::<BridgeCall, BridgeError>(BridgeError::InvalidState)
        } else {
            r == Ok::<BridgeCall, BridgeError>(BridgeCall::OpenDevTools { handle: h, tab_id: browsing_context_id.0 })
        },
        ChromeCommand::InspectElement { browsing_context_id, x, y } => if h == 0 {
            r == Err::<BridgeCall, BridgeError>(BridgeError::InvalidState)
        } else {
            r == Ok::<BridgeCall, BridgeError>(BridgeCall::InspectElement { handle: h, tab_id: browsing_context_id.0, x: x, y: y })
        },
        ChromeCommand::GetTabDomHtml { browsing_context_id, request_id } => if h == 0 {
            r == Err::<BridgeCall, BridgeError>(BridgeError::InvalidState)
        } else {
            r == Ok::<BridgeCall, BridgeError>(BridgeCall::GetTabDomHtml { handle: h, tab_id: browsing_context_id.0, request_id: request_id })
        },
        ChromeCommand::FindInPage { browsing_context_id, request_id, options } => (h == 0 ==> r == Err::<BridgeCall, BridgeError>(BridgeError::InvalidState)) && (r matches Ok(call) ==> call is FindInPage),
        ChromeCommand::StopFinding { browsing_context_id, action } => if h == 0 {
            r == Err::<BridgeCall, BridgeError>(BridgeError::InvalidState)
        } else {
            r == Ok::<BridgeCall, BridgeError>(BridgeCall::StopFinding { handle: h, tab_id: browsing_context_id.0, action: stop_find_action_code(action) })
        },
        ChromeCommand::SetTabFocus { browsing_context_id, focused } => if h == 0 {
            r == Err::<BridgeCall, BridgeError>(BridgeError::InvalidState)
        } else {
            r == Ok::<BridgeCall, BridgeError>(BridgeCall::SetTabFocus { handle: h, tab_id: browsing_context_id.0, focused: focused })
        },
        ChromeCommand::SetTabVisibility { browsing_context_id, visibility } => if h == 0 {
            r == Err::<BridgeCall, BridgeError>(BridgeError::InvalidState)
        } else {
            r == Ok::<BridgeCall, BridgeError>(BridgeCall::SetTabVisibility { handle: h, tab_id: browsing_context_id.0, visibility: tab_visibility_code(visibility) })
        },
        ChromeCommand::EnableTabIpc { browsing_context_id, config } => (h == 0 ==> r == Err::<BridgeCall, BridgeError>(BridgeError::InvalidState)) && (r matches Ok(call) ==> call is EnableTabIpc),
        ChromeCommand::DisableTabIpc { browsing_context_id } => if h == 0 {
            r == Err::<BridgeCall, BridgeError>(BridgeError::InvalidState)
        } else {
            r == Ok::<BridgeCall, BridgeError>(BridgeCall::DisableTabIpc { handle: h, tab_id: browsing_context_id.0 })
        },
        ChromeCommand::PostTabIpcMessage { browsing_context_id, message } => (h == 0 ==> r == Err::<BridgeCall, BridgeError>(BridgeError::InvalidState)) && (r matches Ok(call) ==> call is PostTabIpcMessage),
        ChromeCommand::SendKeyEvent { browsing_context_id, event, commands } => (h == 0 ==> r == Err::<BridgeCall, BridgeError>(BridgeError::InvalidState)) && (r matches Ok(call) ==> call is SendKeyEvent),
        ChromeCommand::SendDragCancel { session_id, browsing_context_id } => if h == 0 {
            r == Err::<BridgeCall, BridgeError>(BridgeError::InvalidState)
        } else {
            r == Ok::<BridgeCall, BridgeError>(BridgeCall::SendDragCancel { handle: h, session_id: session_id, tab_id: browsing_context_id.0 })
        },
        ChromeCommand::SendExternalDragLeave { browsing_context_id } => if h == 0 {
            r == Err::<BridgeCall, BridgeError>(BridgeError::InvalidState)
        } else {
            r == Ok::<BridgeCall, BridgeError>(BridgeCall::SendExternalDragLeave { handle: h, tab_id: browsing_context_id.0 })
        },
        ChromeCommand::SetImeComposition { composition } => (h == 0 ==> r == Err::<BridgeCall, BridgeError>(BridgeError::InvalidState)) && (r matches Ok(call) ==> call is SetComposition),
        ChromeCommand::CommitImeText { commit } => (h == 0 ==> r == Err::<BridgeCall, BridgeError>(BridgeError::InvalidState)) && (r matches Ok(call) ==> call is CommitText),
        ChromeCommand::FinishComposingText { browsing_context_id, behavior } => if h == 0 {
            r == Err::<BridgeCall, BridgeError>(BridgeError::InvalidState)
        } else {
            r == Ok::<BridgeCall, BridgeError>(BridgeCall::FinishComposingText { handle: h, tab_id: browsing_context_id.0, behavior: confirm_behavior_code(behavior) })
        },
        ChromeCommand::ExecuteContextMenuCommand { menu_id, command_id, event_flags } => if h == 0 {
            r == Err::<BridgeCall, BridgeError>(BridgeError::InvalidState)
        } else {
            r == Ok::<BridgeCall, BridgeError>(BridgeCall::ExecuteContextMenuCommand { handle: h, menu_id: menu_id, command_id: command_id, event_flags: event_flags })
        },
        ChromeCommand::AcceptChoiceMenuSelection { request_id, indices } => (h == 0 ==> r == Err::<BridgeCall, BridgeError>(BridgeError::InvalidState)) && (r matches Ok(call) ==> call is AcceptChoiceMenuSelection),
        ChromeCommand::DismissChoiceMenu { request_id } => if h == 0 {
            r == Err::<BridgeCall, BridgeError>(BridgeError::InvalidState)
        } else {
            r == Ok::<BridgeCall, BridgeError>(BridgeCall::DismissChoiceMenu { handle: h, request_id: request_id })
        },
        ChromeCommand::DismissContextMenu { menu_id } => if h == 0 {
            r == Err::<BridgeCall, BridgeError>(BridgeError::InvalidState)
        } else {
            r == Ok::<BridgeCall, BridgeError>(BridgeCall::DismissContextMenu { handle: h, menu_id: menu_id })
        },
        ChromeCommand::PauseDownload { download_id } => if h == 0 {
            r == Err::<BridgeCall, BridgeError>(BridgeError::InvalidState)
        } else {
            r == Ok::<BridgeCall, BridgeError>(BridgeCall::PauseDownload { handle: h, download_id: download_id.0 })
        },
        ChromeCommand::ResumeDownload { download_id } => if h == 0 {
            r == Err::<BridgeCall, BridgeError>(BridgeError::InvalidState)
        } else {
            r == Ok::<BridgeCall, BridgeError>(BridgeCall::ResumeDownload { handle: h, download_id: download_id.0 })
        },
        ChromeCommand::CancelDownload { download_id } => if h == 0 {
            r == Err::<BridgeCall, BridgeError>(BridgeError::InvalidState)
        } else {
            r == Ok::<BridgeCall, BridgeError>(BridgeCall::CancelDownload { handle: h, download_id: download_id.0 })
        },
        ChromeCommand::RespondCustomSchemeRequest { response } => (h == 0 ==> r == Err::<BridgeCall, BridgeError>(BridgeError::InvalidState)) && (r matches Ok(call) ==> call is RespondCustomSchemeRequest),
        ChromeCommand::ActivateExtensionAction { browsing_context_id, extension_id } => (h == 0 ==> r == Err::<BridgeCall, BridgeError>(BridgeError::InvalidState)) && (r matches Ok(call) ==> call is ActivateExtensionAction),
        ChromeCommand::CloseExtensionPopup { popup_id } => if h == 0 {
            r == Err::<BridgeCall, BridgeError>(BridgeError::InvalidState)
        } else {
            r == Ok::<BridgeCall, BridgeError>(BridgeCall::CloseExtensionPopup { handle: h, popup_id: popup_id.0 })
        },
        ChromeCommand::SetExtensionPopupSize { popup_id, width, height } => if h == 0 {
            r == Err::<BridgeCall, BridgeError>(BridgeError::InvalidState)
        } else {
            r == Ok::<BridgeCall, BridgeError>(BridgeCall::SetExtensionPopupSize { handle: h, popup_id: popup_id.0, width: width, height: height })
        },
        ChromeCommand::SetExtensionPopupBackgroundPolicy { popup_id, policy } => if h == 0 {
            r == Err::<BridgeCall, BridgeError>(BridgeError::InvalidState)
        } else {
            r == Ok::<BridgeCall, BridgeError>(BridgeCall::SetExtensionPopupBackgroundPolicy { handle: h, popup_id: popup_id.0, transparent: policy == ChromeBackgroundPolicy::Transparent })
        },
        ChromeCommand::SetExtensionPopupFocus { popup_id, focused } => if h == 0 {
            r == Err::<BridgeCall, BridgeError>(BridgeError::InvalidState)
        } else {
            r == Ok::<BridgeCall, BridgeError>(BridgeCall::SetExtensionPopupFocus { handle: h, popup_id: popup_id.0, focused: focused })
        },
        ChromeCommand::SendExtensionPopupKeyEvent { popup_id, event, commands } => (h == 0 ==> r == Err::<BridgeCall, BridgeError>(BridgeError::InvalidState)) && (r matches Ok(call) ==> call is SendExtensionPopupKeyEvent),
        ChromeCommand::FinishExtensionPopupComposingText { popup_id, behavior } => if h == 0 {
            r == Err::<BridgeCall, BridgeError>(BridgeError::InvalidState)
        } else {
            r == Ok::<BridgeCall, BridgeError>(BridgeCall::FinishExtensionPopupComposingText { handle: h, popup_id: popup_id.0, behavior: confirm_behavior_code(behavior) })
        },
        ChromeCommand::OpenDefaultPromptUi { profile_id, request_id } => (h == 0 ==> r == Err::<BridgeCall, BridgeError>(BridgeError::InvalidState)) && (r matches Ok(call) ==> call is OpenDefaultPromptUi),
        ChromeCommand::RespondPromptUi { profile_id, request_id, response } => (h == 0 ==> r == Err::<BridgeCall, BridgeError>(BridgeError::InvalidState)) && (r matches Ok(call) ==> call is RespondPromptUi),
        ChromeCommand::ClosePromptUi { profile_id, prompt_ui_id } => (h == 0 ==> r == Err::<BridgeCall, BridgeError>(BridgeError::InvalidState)) && (r matches Ok(call) ==> call is ClosePromptUi),
        ChromeCommand::RespondTabOpen { request_id, response } => (h == 0 ==> r == Err::<BridgeCall, BridgeError>(BridgeError::InvalidState)) && (r matches Ok(call) ==> call is RespondTabOpen),
        ChromeCommand::ListProfiles => if h == 0 {
            r == Err::<BridgeCall, BridgeError>(BridgeError::InvalidState)
        } else {
            r == Ok::<BridgeCall, BridgeError>(BridgeCall::ListProfiles { handle: h })
        },
        },
{
    match command {
        ChromeCommand::ConfirmPermission { .. } => {
            if h != 0 {
                assert(r is Ok);
            }
        },
        _ => {},
    }
}

/// Commands that carry texts, lists or structured values hand them to the
/// bridge as given: each is refused exactly when the client has no live handle
/// (`InvalidState`) or a text cannot cross the bridge (`InvalidInput`), and
/// otherwise becomes the call of the same meaning with the command's own
/// values in their own places.
#[verifier::rlimit(50)]
pub proof fn lemma_commands_send_their_values(h: u64, command: ChromeCommand, r: Result<BridgeCall, BridgeError>)
    requires
        command_planned(h, command, r),
    ensures
        match command {
        ChromeCommand::ListExtensions { profile_id } => {
            &&& (r is Ok <==> h != 0 && !has_nul(profile_id@))
            &&& (r matches Err(e) ==> e == input_error(h))
            &&& (r matches Ok(call) ==> (call matches BridgeCall::ListExtensions { handle, profile_id: p } && handle == h && p@ == profile_id@))
        },
        ChromeCommand::Navigate { browsing_context_id, url } => {
            &&& (r is Ok <==> h != 0 && !has_nul(url@))
            &&& (r matches Err(e) ==> e == input_error(h))
            &&& (r matches Ok(call) ==> (call matches BridgeCall::Navigate { handle, tab_id, url: u } && handle == h && tab_id == browsing_context_id.0 && u@ == url@))
        },
        ChromeCommand::FindInPage { browsing_context_id, request_id, options } => {
            &&& (r is Ok <==> h != 0 && !has_nul(options.query@))
            &&& (r matches Err(e) ==> e == input_error(h))
            &&& (r matches Ok(call) ==> (call matches BridgeCall::FindInPage { handle, tab_id, request_id: rid, query, forward, match_case, new_session, find_match } && handle == h && tab_id == browsing_context_id.0 && rid == request_id && query@ == options.query@ && forward == options.forward && match_case == options.match_case && new_session == options.new_session && find_match == options.find_match))
        },
        ChromeCommand::EnableTabIpc { browsing_context_id, config } => {
            &&& (r is Ok <==> h != 0 && !any_has_nul(config.allowed_origins@))
            &&& (r matches Err(e) ==> e == input_error(h))
            &&& (r matches Ok(call) ==> (call matches BridgeCall::EnableTabIpc { handle, tab_id, allowed_origins } && handle == h && tab_id == browsing_context_id.0 && texts_view(allowed_origins@) == texts_view(config.allowed_origins@)))
        },
        ChromeCommand::PostTabIpcMessage { browsing_context_id, message } => {
            &&& (r is Ok <==> h != 0 && !has_nul(message.channel@) && !opt_has_nul(opt_text(message.content_type)) && !opt_has_nul(payload_text(message.payload)))
            &&& (r matches Err(e) ==> e == input_error(h))
            &&& (r matches Ok(call) ==> (call matches BridgeCall::PostTabIpcMessage { handle, tab_id, channel, message_type, request_id, payload_kind, payload_text: text, payload_binary, content_type, error_code } && handle == h && tab_id == browsing_context_id.0 && channel@ == message.channel@ && message_type == message_type_code(message.message_type) && request_id == message.request_id && payload_kind == payload_kind_code(message.payload) && opt_text(text) == payload_text(message.payload) && payload_binary@ == payload_bytes(message.payload) && opt_text(content_type) == opt_text(message.content_type) && error_code == optional_error_code(message.error_code)))
        },
        ChromeCommand::SendKeyEvent { browsing_context_id, event, commands } => {
            &&& (r is Ok <==> h != 0 && !key_event_has_nul(event) && !any_has_nul(commands@))
            &&& (r matches Err(e) ==> e == input_error(h))
            &&& (r matches Ok(call) ==> (call matches BridgeCall::SendKeyEvent { handle, event: encoded, commands: copied } && handle == h && key_event_encoded(browsing_context_id.0, event, encoded) && texts_view(copied@) == texts_view(commands@)))
        },
        ChromeCommand::SetImeComposition { composition } => {
            &&& (r is Ok <==> h != 0 && !has_nul(composition.text@))
            &&& (r matches Err(e) ==> e == input_error(h))
            &&& (r matches Ok(call) ==> (call matches BridgeCall::SetComposition { handle, tab_id, text, selection_start, selection_end, replacement_range_start, replacement_range_end, spans } && handle == h && tab_id == composition.browsing_context_id.0 && text@ == composition.text@ && selection_start == composition.selection_start && selection_end == composition.selection_end && (replacement_range_start, replacement_range_end) == spec_range(composition.replacement_range) && spans@ == composition.spans@.map_values(|span: ChromeImeTextSpan| spec_bridge_span(span))))
        },
        ChromeCommand::CommitImeText { commit } => {
            &&& (r is Ok <==> h != 0 && !has_nul(commit.text@))
            &&& (r matches Err(e) ==> e == input_error(h))
            &&& (r matches Ok(call) ==> (call matches BridgeCall::CommitText { handle, tab_id, text, relative_caret_position, replacement_range_start, replacement_range_end, spans } && handle == h && tab_id == commit.browsing_context_id.0 && text@ == commit.text@ && relative_caret_position == commit.relative_caret_position && (replacement_range_start, replacement_range_end) == spec_range(commit.replacement_range) && spans@ == commit.spans@.map_values(|span: ChromeImeTextSpan| spec_bridge_span(span))))
        },
        ChromeCommand::AcceptChoiceMenuSelection { request_id, indices } => {
            &&& (r is Ok <==> h != 0)
            &&& (r matches Err(e) ==> e == BridgeError::InvalidState)
            &&& (r matches Ok(call) ==> (call matches BridgeCall::AcceptChoiceMenuSelection { handle, request_id: rid, indices: chosen } && handle == h && rid == request_id && chosen@ == indices@))
        },
        ChromeCommand::RespondCustomSchemeRequest { response } => {
            &&& (r is Ok <==> h != 0 && !has_nul(response.mime_type@) && !opt_has_nul(opt_text(response.content_security_policy)) && !opt_has_nul(opt_text(response.access_control_allow_origin)))
            &&& (r matches Err(e) ==> e == input_error(h))
            &&& (r matches Ok(call) ==> (call matches BridgeCall::RespondCustomSchemeRequest { handle, request_id, result, mime_type, content_security_policy, access_control_allow_origin, body } && handle == h && request_id == response.request_id && result == custom_scheme_result_code(response.result) && mime_type@ == response.mime_type@ && opt_text(content_security_policy) == opt_text(response.content_security_policy) && opt_text(access_control_allow_origin) == opt_text(response.access_control_allow_origin) && body@ == response.body@))
        },
        ChromeCommand::ActivateExtensionAction { browsing_context_id, extension_id } => {
            &&& (r is Ok <==> h != 0 && !has_nul(extension_id@))
            &&& (r matches Err(e) ==> e == input_error(h))
            &&& (r matches Ok(call) ==> (call matches BridgeCall::ActivateExtensionAction { handle, tab_id, extension_id: id } && handle == h && tab_id == browsing_context_id.0 && id@ == extension_id@))
        },
        ChromeCommand::SendExtensionPopupKeyEvent { popup_id, event, commands } => {
            &&& (r is Ok <==> h != 0 && !key_event_has_nul(event) && !any_has_nul(commands@))
            &&& (r matches Err(e) ==> e == input_error(h))
            &&& (r matches Ok(call) ==> (call matches BridgeCall::SendExtensionPopupKeyEvent { handle, popup_id: p, event: encoded, commands: copied } && handle == h && p == popup_id.0 && key_event_encoded(0, event, encoded) && texts_view(copied@) == texts_view(commands@)))
        },
        ChromeCommand::OpenDefaultPromptUi { profile_id, request_id } => {
            &&& (r is Ok <==> h != 0 && !has_nul(profile_id@))
            &&& (r matches Err(e) ==> e == input_error(h))
            &&& (r matches Ok(call) ==> (call matches BridgeCall::OpenDefaultPromptUi { handle, profile_id: p, request_id: rid } && handle == h && p@ == profile_id@ && rid == request_id))
        },
        ChromeCommand::RespondPromptUi { profile_id, request_id, response } => {
            &&& (r is Ok <==> h != 0 && !has_nul(profile_id@) && !opt_has_nul(prompt_destination(response)))
            &&& (r matches Err(e) ==> e == input_error(h))
            &&& (r matches Ok(call) ==> (call matches BridgeCall::RespondPromptUi { handle, profile_id: p, request_id: rid, kind, proceed, report_abuse, destination_path } && handle == h && p@ == profile_id@ && rid == request_id && kind == prompt_response_kind(response) && proceed == prompt_response_proceed(response) && report_abuse == prompt_response_report_abuse(response) && opt_text(destination_path) == prompt_destination(response)))
        },
        ChromeCommand::ClosePromptUi { profile_id, prompt_ui_id } => {
            &&& (r is Ok <==> h != 0 && !has_nul(profile_id@))
            &&& (r matches Err(e) ==> e == input_error(h))
            &&& (r matches Ok(call) ==> (call matches BridgeCall::ClosePromptUi { handle, profile_id: p, prompt_ui_id: id } && handle == h && p@ == profile_id@ && id == prompt_ui_id.0))
        },
            _ => true,
        },
{
}

/// Plan the bridge call that carries out a command. A tab created without a
/// URL opens `about:blank`; a permission answer is a permission-prompt
/// response for the tab.
pub fn plan_command(client: &mut IpcClient, command: &ChromeCommand) -> (r: Result<BridgeCall, BridgeError>)
    ensures
        *final(client) == *old(client),
        command_planned(old(client).handle_value(), *command, r),
{
    match command {
        ChromeCommand::RequestShutdown { request_id } => client.request_shutdown(*request_id),
        ChromeCommand::ConfirmShutdown { request_id, proceed } => client.confirm_shutdown(*request_id, *proceed),
        ChromeCommand::ForceShutdown => client.force_shutdown(),
        ChromeCommand::ConfirmBeforeUnload { browsing_context_id, request_id, proceed } => client.confirm_beforeunload(*browsing_context_id, *request_id, *proceed),
        ChromeCommand::CreateTab { request_id, initial_url, profile_id } => match initial_url {
            Some(url) => client.create_tab(*request_id, url.as_str(), profile_id.as_str(), None),
            None => client.create_tab(*request_id, "about:blank", profile_id.as_str(), None),
        },
        ChromeCommand::ConfirmPermission { browsing_context_id, request_id, allow } => client.respond_prompt_ui_for_tab(
            *browsing_context_id,
            *request_id,
            &PromptUiResponse::PermissionPrompt { allow: *allow },
        ),
        ChromeCommand::ListProfiles => client.list_profiles(),
        ChromeCommand::ListExtensions { profile_id } => client.list_extensions(profile_id.as_str()),
        ChromeCommand::RequestCloseTab { browsing_context_id } => client.request_close_tab(*browsing_context_id),
        ChromeCommand::SetTabSize { browsing_context_id, width, height } => client.set_tab_size(*browsing_context_id, *width, *height),
        ChromeCommand::SetTabBackgroundPolicy { browsing_context_id, policy } => client.set_tab_background_policy(*browsing_context_id, *policy),
        ChromeCommand::Navigate { browsing_context_id, url } => client.navigate(*browsing_context_id, url.as_str()),
        ChromeCommand::GoBack { browsing_context_id } => client.go_back(*browsing_context_id),
        ChromeCommand::ExecuteEditAction { browsing_context_id, action } => client.execute_edit_action(*browsing_context_id, *action),
        ChromeCommand::ExecuteExtensionPopupEditAction { popup_id, action } => client.execute_extension_popup_edit_action(*popup_id, *action),
        ChromeCommand::GoForward { browsing_context_id } => client.go_forward(*browsing_context_id),
        ChromeCommand::Reload { browsing_context_id, ignore_cache } => client.reload(*browsing_context_id, *ignore_cache),
        ChromeCommand::PrintPreview { browsing_context_id } => client.print_preview(*browsing_context_id),
        ChromeCommand::OpenDevTools { browsing_context_id } => client.open_dev_tools(*browsing_context_id),
        ChromeCommand::InspectElement { browsing_context_id, x, y } => client.inspect_element(*browsing_context_id, *x, *y),
        ChromeCommand::GetTabDomHtml { browsing_context_id, request_id } => client.get_tab_dom_html(*browsing_context_id, *request_id),
        ChromeCommand::FindInPage { browsing_context_id, request_id, options } => client.find_in_page(*browsing_context_id, *request_id, options),
        ChromeCommand::StopFinding { browsing_context_id, action } => client.stop_finding(*browsing_context_id, *action),
        ChromeCommand::SetTabFocus { browsing_context_id, focused } => client.set_tab_focus(*browsing_context_id, *focused),
        ChromeCommand::SetTabVisibility { browsing_context_id, visibility } => client.set_tab_visibility(*browsing_context_id, *visibility),
        ChromeCommand::EnableTabIpc { browsing_context_id, config } => client.enable_tab_ipc(*browsing_context_id, config),
        ChromeCommand::DisableTabIpc { browsing_context_id } => client.disable_tab_ipc(*browsing_context_id),
        ChromeCommand::PostTabIpcMessage { browsing_context_id, message } => client.post_tab_ipc_message(*browsing_context_id, message),
        ChromeCommand::SendKeyEvent { browsing_context_id, event, commands } => client.send_key_event_raw(*browsing_context_id, event, commands),
        ChromeCommand::SendDragCancel { session_id, browsing_context_id } => client.send_drag_cancel(*session_id, *browsing_context_id),
        ChromeCommand::SendExternalDragLeave { browsing_context_id } => client.send_external_drag_leave(*browsing_context_id),
        ChromeCommand::SetImeComposition { composition } => client.set_composition(composition),
        ChromeCommand::CommitImeText { commit } => client.commit_text(commit),
        ChromeCommand::FinishComposingText { browsing_context_id, behavior } => client.finish_composing_text(*browsing_context_id, *behavior),
        ChromeCommand::ExecuteContextMenuCommand { menu_id, command_id, event_flags } => client.execute_context_menu_command(*menu_id, *command_id, *event_flags),
        ChromeCommand::AcceptChoiceMenuSelection { request_id, indices } => client.accept_choice_menu_selection(*request_id, indices.as_slice()),
        ChromeCommand::DismissChoiceMenu { request_id } => client.dismiss_choice_menu(*request_id),
        ChromeCommand::DismissContextMenu { menu_id } => client.dismiss_context_menu(*menu_id),
        ChromeCommand::PauseDownload { download_id } => client.pause_download(*download_id),
        ChromeCommand::ResumeDownload { download_id } => client.resume_download(*download_id),
        ChromeCommand::CancelDownload { download_id } => client.cancel_download(*download_id),
        ChromeCommand::RespondCustomSchemeRequest { response } => client.respond_custom_scheme_request(response),
        ChromeCommand::ActivateExtensionAction { browsing_context_id, extension_id } => client.activate_extension_action(*browsing_context_id, extension_id.as_str()),
        ChromeCommand::CloseExtensionPopup { popup_id } => client.close_extension_popup(*popup_id),
        ChromeCommand::SetExtensionPopupSize { popup_id, width, height } => client.set_extension_popup_size(*popup_id, *width, *height),
        ChromeCommand::SetExtensionPopupBackgroundPolicy { popup_id, policy } => client.set_extension_popup_background_policy(*popup_id, *policy),
        ChromeCommand::SetExtensionPopupFocus { popup_id, focused } => client.set_extension_popup_focus(*popup_id, *focused),
        ChromeCommand::SendExtensionPopupKeyEvent { popup_id, event, commands } => client.send_extension_popup_key_event_raw(*popup_id, event, commands),
        ChromeCommand::FinishExtensionPopupComposingText { popup_id, behavior } => client.finish_extension_popup_composing_text(*popup_id, *behavior),
        ChromeCommand::OpenDefaultPromptUi { profile_id, request_id } => client.open_default_prompt_ui(profile_id.as_str(), *request_id),
        ChromeCommand::RespondPromptUi { profile_id, request_id, response } => client.respond_prompt_ui(profile_id.as_str(), *request_id, response),
        ChromeCommand::ClosePromptUi { profile_id, prompt_ui_id } => client.close_prompt_ui(profile_id.as_str(), *prompt_ui_id),
        ChromeCommand::RespondTabOpen { request_id, response } => client.respond_tab_open(*request_id, response),
    }
}

} // verus!
