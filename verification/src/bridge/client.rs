//! The bridge client: the checks and encodings that precede every bridge
//! call, the reading of the bridge's wait status, and the channel switch the
//! bridge writes before Chromium starts.

use vstd::prelude::*;
use vstd::string::*;
use vstd::utf8::*;

use crate::bridge::call::{BridgeCall, BridgeKeyEvent};
use crate::bridge::event::IpcEvent;
use crate::bridge::map::{
    event_parsed, names_windows_surface, parse_event, parse_extension_list, spec_extension_info,
    BridgeEvent, BridgeExtensionInfo,
};
use crate::data::extension::ChromeExtensionInfo;
use crate::data::profile::ChromeProfileInfo;
use crate::bridge::BridgeError;
use crate::codes;
use crate::data::background::{is_transparent, ChromeBackgroundPolicy};
use crate::data::browsing_context_open::ChromeBrowsingContextOpenResponse;
use crate::data::custom_scheme::{
    custom_scheme_result_code, custom_scheme_result_to_ffi, ChromeCustomSchemeResponse,
};
use crate::data::download::ChromeDownloadId;
use crate::data::edit::{edit_action_code, edit_action_to_ffi, ChromeEditAction};
use crate::data::find::{stop_find_action_code, ChromeFindInPageOptions, ChromeStopFindAction};
use crate::data::ids::{PopupId, TabId};
use crate::data::ime::{
    confirm_behavior_code, confirm_behavior_to_ffi, ime_range_to_ffi, spec_bridge_span,
    to_ffi_ime_text_spans, ChromeConfirmCompositionBehavior, ChromeImeCommitText,
    ChromeImeComposition, ChromeImeTextRange, ChromeImeTextSpan,
};
use crate::data::input::{key_event_type_code, key_event_type_to_ffi, ChromeKeyEvent};
use crate::data::ipc::{
    ipc_error_code_to_ffi, ipc_message_type_to_ffi, message_type_code, optional_error_code,
    TabIpcConfig, TabIpcMessage, TabIpcPayload,
};
use crate::data::policy::{ChromeBrowsingContextPolicy, ChromeCapabilityPolicy, ChromeIpcPolicy};
use crate::data::prompt_ui::{PromptUiId, PromptUiResponse};
use crate::data::visibility::{tab_visibility_code, visibility_to_ffi, ChromeTabVisibility};

verus! {

/// Outcome of waiting for the next bridge event.
#[derive(Debug, Clone, Copy, PartialEq, Eq, Structural)]
pub enum EventWaitResult {
    EventAvailable,
    TimedOut,
    Disconnected,
    Closed,
}

/// Whether the bytes of a text hold a NUL, which a C string cannot carry.
pub open spec fn has_nul(text: Seq<char>) -> bool {
    encode_utf8(text).contains(0u8)
}

/// The views of an optional text.
pub open spec fn opt_text(text: Option<String>) -> Option<Seq<char>> {
    match text {
        Some(s) => Some(s@),
        None => None,
    }
}

/// Whether an optional text holds a NUL.
pub open spec fn opt_has_nul(text: Option<Seq<char>>) -> bool {
    match text {
        Some(s) => has_nul(s),
        None => false,
    }
}

/// Check that a text can be handed to the bridge as a C string.
pub fn ensure_c_string(text: &str) -> (r: Result<(), BridgeError>)
    ensures
        r == (if has_nul(text@) {
            Err(BridgeError::InvalidInput)
        } else {
            Ok(())
        }),
{
    let bytes = text.as_bytes();
    let mut i: usize = 0;
    while i < bytes.len()
        invariant
            0 <= i <= bytes@.len(),
            bytes@ == encode_utf8(text@),
            forall|j: int| 0 <= j < i ==> bytes@[j] != 0u8,
        decreases bytes@.len() - i,
    {
        if bytes[i] == 0u8 {
            assert(encode_utf8(text@)[i as int] == 0u8);
            return Err(BridgeError::InvalidInput);
        }
        i = i + 1;
    }
    Ok(())
}

/// Copy a text for the bridge, refusing one with a NUL byte.
pub fn c_string(text: &str) -> (r: Result<String, BridgeError>)
    ensures
        match r {
            Ok(s) => !has_nul(text@) && s@ == text@,
            Err(e) => has_nul(text@) && e == BridgeError::InvalidInput,
        },
{
    ensure_c_string(text)?;
    Ok(text.to_owned())
}

/// Copy an optional text for the bridge, refusing one with a NUL byte.
pub fn optional_c_string(text: &Option<String>) -> (r: Result<Option<String>, BridgeError>)
    ensures
        match r {
            Ok(s) => !opt_has_nul(opt_text(*text)) && opt_text(s) == opt_text(*text),
            Err(e) => opt_has_nul(opt_text(*text)) && e == BridgeError::InvalidInput,
        },
{
    match text {
        Some(value) => {
            let copied = c_string(value.as_str())?;
            Ok(Some(copied))
        },
        None => Ok(None),
    }
}

/// Whether any text of a list holds a NUL.
pub open spec fn any_has_nul(texts: Seq<String>) -> bool {
    exists|i: int| 0 <= i < texts.len() && #[trigger] has_nul(texts[i]@)
}

/// Copy a list of texts for the bridge, refusing it when one holds a NUL byte.
pub fn c_string_list(texts: &Vec<String>) -> (r: Result<Vec<String>, BridgeError>)
    ensures
        match r {
            Ok(out) => !any_has_nul(texts@) && out@.len() == texts@.len() && forall|i: int|
                0 <= i < texts@.len() ==> #[trigger] out@[i]@ == texts@[i]@,
            Err(e) => any_has_nul(texts@) && e == BridgeError::InvalidInput,
        },
{
    let mut out: Vec<String> = Vec::new();
    let mut i: usize = 0;
    while i < texts.len()
        invariant
            0 <= i <= texts@.len(),
            out@.len() == i,
            forall|j: int| 0 <= j < i ==> #[trigger] out@[j]@ == texts@[j]@,
            forall|j: int| 0 <= j < i ==> !#[trigger] has_nul(texts@[j]@),
        decreases texts@.len() - i,
    {
        let copied = c_string(texts[i].as_str());
        match copied {
            Ok(s) => {
                out.push(s);
            },
            Err(e) => {
                return Err(e);
            },
        }
        i = i + 1;
    }
    Ok(out)
}

/// Whether `n` is the position of the first NUL byte of `buf`.
pub open spec fn is_first_nul(buf: Seq<u8>, n: int) -> bool {
    &&& 0 <= n < buf.len()
    &&& buf[n] == 0u8
    &&& forall|j: int| 0 <= j < n ==> buf[j] != 0u8
}

/// Calls `core::str::from_utf8`, which accepts exactly the valid UTF-8 byte
/// sequences and then yields a string with those bytes.
#[verifier::external_body]
fn str_from_utf8(bytes: &[u8]) -> (r: Option<&str>)
    ensures
        r is Some <==> valid_utf8(bytes@),
        r matches Some(s) ==> s.spec_bytes() == bytes@,
{
    core::str::from_utf8(bytes).ok()
}

/// Read the channel switch that the bridge wrote, NUL-terminated, into `buf`:
/// the text before the first NUL, which must be valid UTF-8 and not empty.
pub fn parse_channel_switch_arg(buf: &[u8]) -> (r: Result<String, BridgeError>)
    ensures
        r is Ok <==> exists|n: int|
            #[trigger] is_first_nul(buf@, n) && n > 0 && valid_utf8(buf@.subrange(0, n)),
        r matches Ok(s) ==> exists|n: int|
            #[trigger] is_first_nul(buf@, n) && encode_utf8(s@) == buf@.subrange(0, n),
        r matches Err(e) ==> e == BridgeError::InvalidChannelArgument,
{
    let mut n: usize = 0;
    while n < buf.len() && buf[n] != 0u8
        invariant
            0 <= n <= buf@.len(),
            forall|j: int| 0 <= j < n ==> buf@[j] != 0u8,
        decreases buf@.len() - n,
    {
        n = n + 1;
    }
    if n == buf.len() {
        assert forall|m: int| !is_first_nul(buf@, m) by {
            if is_first_nul(buf@, m) {
                assert(buf@[m] != 0u8);
            }
        }
        return Err(BridgeError::InvalidChannelArgument);
    }
    assert(is_first_nul(buf@, n as int));
    assert forall|m: int| #[trigger] is_first_nul(buf@, m) implies m == n by {
        if m < n {
            assert(buf@[m] != 0u8);
        } else if m > n {
            assert(buf@[n as int] != 0u8);
        }
    }
    let prefix = vstd::slice::slice_subrange(buf, 0, n);
    match str_from_utf8(prefix) {
        Some(text) => {
            if n == 0 {
                Err(BridgeError::InvalidChannelArgument)
            } else {
                let owned = text.to_owned();
                Ok(owned)
            }
        },
        None => Err(BridgeError::InvalidChannelArgument),
    }
}

/// The timeout handed to the bridge's wait: milliseconds saturated to `i64`,
/// or `-1` to wait without a deadline.
pub open spec fn spec_wait_timeout(timeout_millis: Option<u128>) -> i64 {
    match timeout_millis {
        None => -1i64,
        Some(ms) => if ms > i64::MAX as u128 {
            i64::MAX
        } else {
            ms as i64
        },
    }
}

/// Encode a wait timeout for the bridge.
pub fn wait_timeout_to_ffi(timeout_millis: Option<u128>) -> (t: i64)
    ensures
        t == spec_wait_timeout(timeout_millis),
{
    match timeout_millis {
        None => -1,
        Some(ms) => if ms > i64::MAX as u128 {
            i64::MAX
        } else {
            ms as i64
        },
    }
}

/// The wait outcome named by a bridge status code.
pub open spec fn spec_wait_result(status: i32) -> Option<EventWaitResult> {
    if status == codes::WAIT_STATUS_EVENT_AVAILABLE {
        Some(EventWaitResult::EventAvailable)
    } else if status == codes::WAIT_STATUS_TIMED_OUT {
        Some(EventWaitResult::TimedOut)
    } else if status == codes::WAIT_STATUS_DISCONNECTED {
        Some(EventWaitResult::Disconnected)
    } else if status == codes::WAIT_STATUS_CLOSED {
        Some(EventWaitResult::Closed)
    } else {
        None
    }
}

/// Read a wait status returned by the bridge; an unknown status is an invalid event.
pub fn event_wait_result_from_status(status: i32) -> (r: Result<EventWaitResult, BridgeError>)
    ensures
        r == (match spec_wait_result(status) {
            Some(w) => Ok(w),
            None => Err(BridgeError::InvalidEvent),
        }),
{
    if status == codes::WAIT_STATUS_EVENT_AVAILABLE {
        Ok(EventWaitResult::EventAvailable)
    } else if status == codes::WAIT_STATUS_TIMED_OUT {
        Ok(EventWaitResult::TimedOut)
    } else if status == codes::WAIT_STATUS_DISCONNECTED {
        Ok(EventWaitResult::Disconnected)
    } else if status == codes::WAIT_STATUS_CLOSED {
        Ok(EventWaitResult::Closed)
    } else {
        Err(BridgeError::InvalidEvent)
    }
}

/// The error of a refused call: no handle, else an argument the bridge cannot carry.
pub open spec fn input_error(handle: u64) -> BridgeError {
    if handle == 0 {
        BridgeError::InvalidState
    } else {
        BridgeError::InvalidInput
    }
}

/// The view of an optional borrowed text.
pub open spec fn opt_str(text: Option<&str>) -> Option<Seq<char>> {
    match text {
        Some(s) => Some(s@),
        None => None,
    }
}

/// Copy an optional borrowed text for the bridge, refusing one with a NUL byte.
pub fn optional_c_str(text: Option<&str>) -> (r: Result<Option<String>, BridgeError>)
    ensures
        match r {
            Ok(s) => !opt_has_nul(opt_str(text)) && opt_text(s) == opt_str(text),
            Err(e) => opt_has_nul(opt_str(text)) && e == BridgeError::InvalidInput,
        },
{
    match text {
        Some(value) => {
            let copied = c_string(value)?;
            Ok(Some(copied))
        },
        None => Ok(None),
    }
}

/// The views of a list of texts.
pub open spec fn texts_view(texts: Seq<String>) -> Seq<Seq<char>> {
    texts.map_values(|t: String| t@)
}

/// The origins a tab policy allows to use IPC (none unless IPC is allowed).
pub open spec fn policy_origins(policy: Option<&ChromeBrowsingContextPolicy>) -> Seq<String> {
    match policy {
        Some(p) => match p.ipc {
            ChromeIpcPolicy::Allow { allowed_origins } => allowed_origins@,
            ChromeIpcPolicy::Deny => Seq::empty(),
        },
        None => Seq::empty(),
    }
}

/// Wire code of the IPC policy of an optional tab policy (deny when absent).
pub open spec fn policy_ipc_code(policy: Option<&ChromeBrowsingContextPolicy>) -> u8 {
    match policy {
        Some(p) => match p.ipc {
            ChromeIpcPolicy::Allow { .. } => codes::IPC_POLICY_ALLOW,
            ChromeIpcPolicy::Deny => codes::IPC_POLICY_DENY,
        },
        None => codes::IPC_POLICY_DENY,
    }
}

/// Wire code of the extension policy of an optional tab policy (allow when absent).
pub open spec fn policy_extensions_code(policy: Option<&ChromeBrowsingContextPolicy>) -> u8 {
    match policy {
        Some(p) => match p.extensions {
            ChromeCapabilityPolicy::Allow => codes::CAPABILITY_POLICY_ALLOW,
            ChromeCapabilityPolicy::Deny => codes::CAPABILITY_POLICY_DENY,
        },
        None => codes::CAPABILITY_POLICY_ALLOW,
    }
}

/// The text of a text payload.
pub open spec fn payload_text(payload: TabIpcPayload) -> Option<Seq<char>> {
    match payload {
        TabIpcPayload::Text(text) => Some(text@),
        TabIpcPayload::Binary(_) => None,
    }
}

/// The bytes of a binary payload (none for text).
pub open spec fn payload_bytes(payload: TabIpcPayload) -> Seq<u8> {
    match payload {
        TabIpcPayload::Text(_) => Seq::empty(),
        TabIpcPayload::Binary(bytes) => bytes@,
    }
}

/// Wire code of the kind of a payload.
pub open spec fn payload_kind_code(payload: TabIpcPayload) -> u8 {
    match payload {
        TabIpcPayload::Text(_) => codes::IPC_PAYLOAD_TEXT,
        TabIpcPayload::Binary(_) => codes::IPC_PAYLOAD_BINARY,
    }
}

/// Wire code of the prompt kind a response answers.
pub open spec fn prompt_response_kind(response: PromptUiResponse) -> u8 {
    match response {
        PromptUiResponse::PermissionPrompt { .. } => codes::PROMPT_UI_KIND_PERMISSION_PROMPT,
        PromptUiResponse::DownloadPrompt { .. } => codes::PROMPT_UI_KIND_DOWNLOAD_PROMPT,
        PromptUiResponse::ExtensionInstallPrompt { .. } => codes::PROMPT_UI_KIND_EXTENSION_INSTALL_PROMPT,
        PromptUiResponse::ExtensionUninstallPrompt { .. } => codes::PROMPT_UI_KIND_EXTENSION_UNINSTALL_PROMPT,
        PromptUiResponse::PrintPreviewDialog { .. } => codes::PROMPT_UI_KIND_PRINT_PREVIEW_DIALOG,
        PromptUiResponse::FormResubmissionPrompt { .. } => codes::PROMPT_UI_KIND_FORM_RESUBMISSION_PROMPT,
        PromptUiResponse::Unknown => codes::PROMPT_UI_KIND_UNKNOWN,
    }
}

/// Whether a response lets the prompted action go ahead.
pub open spec fn prompt_response_proceed(response: PromptUiResponse) -> bool {
    match response {
        PromptUiResponse::PermissionPrompt { allow } => allow,
        PromptUiResponse::DownloadPrompt { allow, .. } => allow,
        PromptUiResponse::ExtensionInstallPrompt { proceed } => proceed,
        PromptUiResponse::ExtensionUninstallPrompt { proceed, .. } => proceed,
        PromptUiResponse::PrintPreviewDialog { proceed } => proceed,
        PromptUiResponse::FormResubmissionPrompt { proceed } => proceed,
        PromptUiResponse::Unknown => false,
    }
}

/// Whether a response asks to report the extension for abuse.
pub open spec fn prompt_response_report_abuse(response: PromptUiResponse) -> bool {
    match response {
        PromptUiResponse::ExtensionUninstallPrompt { report_abuse, .. } => report_abuse,
        _ => false,
    }
}

/// The download destination a response names.
pub open spec fn prompt_destination(response: PromptUiResponse) -> Option<Seq<char>> {
    match response {
        PromptUiResponse::DownloadPrompt { destination_path, .. } => opt_text(destination_path),
        _ => None,
    }
}

/// Encode a prompt response: its kind, whether to proceed, the download
/// destination, and whether to report abuse.
pub fn prompt_ui_response_parts(response: &PromptUiResponse) -> (r: Result<
    (u8, bool, Option<String>, bool),
    BridgeError,
>)
    ensures
        r is Ok <==> !opt_has_nul(prompt_destination(*response)),
        r matches Err(e) ==> e == BridgeError::InvalidInput,
        r matches Ok(parts) ==> parts.0 == prompt_response_kind(*response) && parts.1
            == prompt_response_proceed(*response) && opt_text(parts.2) == prompt_destination(
            *response,
        ) && parts.3 == prompt_response_report_abuse(*response),
{
    match response {
        PromptUiResponse::PermissionPrompt { allow } => Ok(
            (codes::PROMPT_UI_KIND_PERMISSION_PROMPT, *allow, None, false),
        ),
        PromptUiResponse::DownloadPrompt { allow, destination_path } => {
            let path = optional_c_string(destination_path)?;
            Ok((codes::PROMPT_UI_KIND_DOWNLOAD_PROMPT, *allow, path, false))
        },
        PromptUiResponse::ExtensionInstallPrompt { proceed } => Ok(
            (codes::PROMPT_UI_KIND_EXTENSION_INSTALL_PROMPT, *proceed, None, false),
        ),
        PromptUiResponse::ExtensionUninstallPrompt { proceed, report_abuse } => Ok(
            (codes::PROMPT_UI_KIND_EXTENSION_UNINSTALL_PROMPT, *proceed, None, *report_abuse),
        ),
        PromptUiResponse::PrintPreviewDialog { proceed } => Ok(
            (codes::PROMPT_UI_KIND_PRINT_PREVIEW_DIALOG, *proceed, None, false),
        ),
        PromptUiResponse::FormResubmissionPrompt { proceed } => Ok(
            (codes::PROMPT_UI_KIND_FORM_RESUBMISSION_PROMPT, *proceed, None, false),
        ),
        PromptUiResponse::Unknown => Ok((codes::PROMPT_UI_KIND_UNKNOWN, false, None, false)),
    }
}

/// The bridge call answering a tab-open request.
pub open spec fn spec_tab_open_call(
    handle: u64,
    request_id: u64,
    response: ChromeBrowsingContextOpenResponse,
) -> BridgeCall {
    match response {
        ChromeBrowsingContextOpenResponse::AllowNewContext { activate } => BridgeCall::RespondTabOpen {
            handle,
            request_id,
            response_kind: codes::TAB_OPEN_RESPONSE_ALLOW_NEW_CONTEXT,
            target_tab_id: 0,
            activate,
        },
        ChromeBrowsingContextOpenResponse::AllowExistingContext { tab_id, activate } => BridgeCall::RespondTabOpen {
            handle,
            request_id,
            response_kind: codes::TAB_OPEN_RESPONSE_ALLOW_EXISTING_CONTEXT,
            target_tab_id: tab_id.0,
            activate,
        },
        ChromeBrowsingContextOpenResponse::Deny => BridgeCall::RespondTabOpen {
            handle,
            request_id,
            response_kind: codes::TAB_OPEN_RESPONSE_DENY,
            target_tab_id: 0,
            activate: false,
        },
    }
}


/// Whether a keyboard event holds a text the bridge cannot carry.
pub open spec fn key_event_has_nul(event: ChromeKeyEvent) -> bool {
    opt_has_nul(opt_text(event.dom_code)) || opt_has_nul(opt_text(event.dom_key)) || opt_has_nul(
        opt_text(event.text),
    ) || opt_has_nul(opt_text(event.unmodified_text))
}

/// The wire form of a keyboard event: codes encoded, texts kept.
pub open spec fn key_event_encoded(tab_id: u64, event: ChromeKeyEvent, out: BridgeKeyEvent) -> bool {
    &&& out.tab_id == tab_id
    &&& out.type_code == key_event_type_code(event.type_)
    &&& out.modifiers == event.modifiers
    &&& out.windows_key_code == event.windows_key_code
    &&& out.native_key_code == event.native_key_code
    &&& opt_text(out.dom_code) == opt_text(event.dom_code)
    &&& opt_text(out.dom_key) == opt_text(event.dom_key)
    &&& opt_text(out.text) == opt_text(event.text)
    &&& opt_text(out.unmodified_text) == opt_text(event.unmodified_text)
    &&& out.auto_repeat == event.auto_repeat
    &&& out.is_keypad == event.is_keypad
    &&& out.is_system_key == event.is_system_key
    &&& out.location == event.location
}

/// Encode a keyboard event for the bridge.
pub fn key_event_to_ffi(tab_id: u64, event: &ChromeKeyEvent) -> (r: Result<BridgeKeyEvent, BridgeError>)
    ensures
        r is Ok <==> !key_event_has_nul(*event),
        r matches Err(e) ==> e == BridgeError::InvalidInput,
        r matches Ok(out) ==> key_event_encoded(tab_id, *event, out),
{
    let dom_code = optional_c_string(&event.dom_code)?;
    let dom_key = optional_c_string(&event.dom_key)?;
    let text = optional_c_string(&event.text)?;
    let unmodified_text = optional_c_string(&event.unmodified_text)?;
    Ok(
        BridgeKeyEvent {
            tab_id,
            type_code: key_event_type_to_ffi(event.type_),
            modifiers: event.modifiers,
            windows_key_code: event.windows_key_code,
            native_key_code: event.native_key_code,
            dom_code,
            dom_key,
            text,
            unmodified_text,
            auto_repeat: event.auto_repeat,
            is_keypad: event.is_keypad,
            is_system_key: event.is_system_key,
            location: event.location,
        },
    )
}

/// The wire form of a composition's replacement range.
pub open spec fn spec_range(range: Option<ChromeImeTextRange>) -> (i32, i32) {
    match range {
        Some(r) => (r.start, r.end),
        None => (-1i32, -1i32),
    }
}


/// A profile as the bridge lists it.
#[derive(Debug, Clone, Default, PartialEq, Eq)]
pub struct BridgeProfile {
    pub profile_id: String,
    pub profile_path: String,
    pub display_name: String,
    pub is_default: bool,
}

pub open spec fn spec_profile(p: BridgeProfile) -> ChromeProfileInfo {
    ChromeProfileInfo {
        profile_id: p.profile_id,
        profile_path: p.profile_path,
        display_name: p.display_name,
        is_default: p.is_default,
    }
}

/// Read the bridge's answer to a profile listing: the profiles in order, or
/// the refusal of the listing.
pub fn finish_profile_list(success: bool, list: Vec<BridgeProfile>) -> (r: Result<
    Vec<ChromeProfileInfo>,
    BridgeError,
>)
    ensures
        !success ==> r == Err::<Vec<ChromeProfileInfo>, BridgeError>(
            BridgeError::OperationFailed { operation: "list_profiles" },
        ),
        success ==> (r matches Ok(profiles) && profiles@ == list@.map_values(
            |p: BridgeProfile| spec_profile(p),
        )),
{
    if !success {
        return Err(BridgeError::OperationFailed { operation: "list_profiles" });
    }
    let ghost orig = list@;
    let mut rest = list;
    let mut out: Vec<ChromeProfileInfo> = Vec::new();
    while rest.len() > 0
        invariant
            out@ + rest@.map_values(|p: BridgeProfile| spec_profile(p)) == orig.map_values(
                |p: BridgeProfile| spec_profile(p),
            ),
        decreases rest@.len(),
    {
        let ghost before = rest@;
        let profile = rest.remove(0);
        let BridgeProfile { profile_id, profile_path, display_name, is_default } = profile;
        out.push(ChromeProfileInfo { profile_id, profile_path, display_name, is_default });
        proof {
            assert(before =~= seq![profile] + rest@);
            assert(before.map_values(|p: BridgeProfile| spec_profile(p)) =~= seq![spec_profile(profile)]
                + rest@.map_values(|p: BridgeProfile| spec_profile(p)));
        }
    }
    proof {
        assert(out@ =~= orig.map_values(|p: BridgeProfile| spec_profile(p)));
    }
    Ok(out)
}

/// Read the bridge's answer to an extension listing: the extensions in
/// order, or the refusal of the listing.
pub fn finish_extension_list(success: bool, list: Vec<BridgeExtensionInfo>) -> (r: Result<
    Vec<ChromeExtensionInfo>,
    BridgeError,
>)
    ensures
        !success ==> r == Err::<Vec<ChromeExtensionInfo>, BridgeError>(
            BridgeError::OperationFailed { operation: "list_extensions" },
        ),
        success ==> (r matches Ok(extensions) && extensions@ == list@.map_values(
            |info: BridgeExtensionInfo| spec_extension_info(info),
        )),
{
    if !success {
        return Err(BridgeError::OperationFailed { operation: "list_extensions" });
    }
    Ok(parse_extension_list(list))
}

/// What waiting for an event takes: nothing, when the outcome is already
/// known, or one bridge wait on `handle` with a timeout in bridge form.
#[derive(Debug, Clone, Copy, PartialEq, Eq, Structural)]
pub enum EventWait {
    Done(EventWaitResult),
    Wait { handle: u64, timeout_ms: i64 },
}

/// What `IpcClient::list_extensions` returns on a client whose handle is `client_handle`.
pub open spec fn list_extensions_planned(client_handle: u64, profile_id: Seq<char>, r: Result<BridgeCall, BridgeError>) -> bool {
    &&& (r is Ok <==> client_handle != 0 && !has_nul(profile_id))
    &&& (r matches Err(e) ==> e == input_error(client_handle))
    &&& (r matches Ok(call) ==> (call matches BridgeCall::ListExtensions { handle, profile_id: p } && handle == client_handle && p@ == profile_id))
}

/// What `IpcClient::send_key_event_raw` returns on a client whose handle is `client_handle`.
pub open spec fn send_key_event_raw_planned(client_handle: u64, browsing_context_id: TabId, event: ChromeKeyEvent, commands: Seq<String>, r: Result<BridgeCall, BridgeError>) -> bool {
    &&& (r is Ok <==> client_handle != 0 && !key_event_has_nul(event) && !any_has_nul(commands))
    &&& (r matches Err(e) ==> e == input_error(client_handle))
    &&& (r matches Ok(call) ==> (call matches BridgeCall::SendKeyEvent { handle, event: encoded, commands: copied } && handle == client_handle && key_event_encoded(browsing_context_id.0, event, encoded) && texts_view(copied@) == texts_view(commands)))
}

/// What `IpcClient::send_extension_popup_key_event_raw` returns on a client whose handle is `client_handle`.
pub open spec fn send_extension_popup_key_event_raw_planned(client_handle: u64, popup_id: PopupId, event: ChromeKeyEvent, commands: Seq<String>, r: Result<BridgeCall, BridgeError>) -> bool {
    &&& (r is Ok <==> client_handle != 0 && !key_event_has_nul(event) && !any_has_nul(commands))
    &&& (r matches Err(e) ==> e == input_error(client_handle))
    &&& (r matches Ok(call) ==> (call matches BridgeCall::SendExtensionPopupKeyEvent { handle, popup_id: p, event: encoded, commands: copied } && handle == client_handle && p == popup_id.0 && key_event_encoded(0, event, encoded) && texts_view(copied@) == texts_view(commands)))
}

/// What `IpcClient::set_composition` returns on a client whose handle is `client_handle`.
pub open spec fn set_composition_planned(client_handle: u64, composition: ChromeImeComposition, r: Result<BridgeCall, BridgeError>) -> bool {
    &&& (r is Ok <==> client_handle != 0 && !has_nul(composition.text@))
    &&& (r matches Err(e) ==> e == input_error(client_handle))
    &&& (r matches Ok(call) ==> (call matches BridgeCall::SetComposition { handle, tab_id, text, selection_start, selection_end, replacement_range_start, replacement_range_end, spans } && handle == client_handle && tab_id == composition.browsing_context_id.0 && text@ == composition.text@ && selection_start == composition.selection_start && selection_end == composition.selection_end && (replacement_range_start, replacement_range_end) == spec_range(composition.replacement_range) && spans@ == composition.spans@.map_values(|span: ChromeImeTextSpan| spec_bridge_span(span))))
}

/// What `IpcClient::commit_text` returns on a client whose handle is `client_handle`.
pub open spec fn commit_text_planned(client_handle: u64, commit: ChromeImeCommitText, r: Result<BridgeCall, BridgeError>) -> bool {
    &&& (r is Ok <==> client_handle != 0 && !has_nul(commit.text@))
    &&& (r matches Err(e) ==> e == input_error(client_handle))
    &&& (r matches Ok(call) ==> (call matches BridgeCall::CommitText { handle, tab_id, text, relative_caret_position, replacement_range_start, replacement_range_end, spans } && handle == client_handle && tab_id == commit.browsing_context_id.0 && text@ == commit.text@ && relative_caret_position == commit.relative_caret_position && (replacement_range_start, replacement_range_end) == spec_range(commit.replacement_range) && spans@ == commit.spans@.map_values(|span: ChromeImeTextSpan| spec_bridge_span(span))))
}

/// What `IpcClient::register_custom_scheme_handler` returns on a client whose handle is `client_handle`.
pub open spec fn register_custom_scheme_handler_planned(client_handle: u64, scheme: Seq<char>, host: Seq<char>, r: Result<BridgeCall, BridgeError>) -> bool {
    &&& (r is Ok <==> client_handle != 0 && !has_nul(scheme) && !has_nul(host))
    &&& (r matches Err(e) ==> e == input_error(client_handle))
    &&& (r matches Ok(call) ==> (call matches BridgeCall::RegisterCustomSchemeHandler { handle, scheme: s, host: h } && handle == client_handle && s@ == scheme && h@ == host))
}

/// What `IpcClient::respond_custom_scheme_request` returns on a client whose handle is `client_handle`.
pub open spec fn respond_custom_scheme_request_planned(client_handle: u64, response: ChromeCustomSchemeResponse, r: Result<BridgeCall, BridgeError>) -> bool {
    &&& (r is Ok <==> client_handle != 0 && !has_nul(response.mime_type@) && !opt_has_nul(opt_text(response.content_security_policy)) && !opt_has_nul(opt_text(response.access_control_allow_origin)))
    &&& (r matches Err(e) ==> e == input_error(client_handle))
    &&& (r matches Ok(call) ==> (call matches BridgeCall::RespondCustomSchemeRequest { handle, request_id, result, mime_type, content_security_policy, access_control_allow_origin, body } && handle == client_handle && request_id == response.request_id && result == custom_scheme_result_code(response.result) && mime_type@ == response.mime_type@ && opt_text(content_security_policy) == opt_text(response.content_security_policy) && opt_text(access_control_allow_origin) == opt_text(response.access_control_allow_origin) && body@ == response.body@))
}

/// What `IpcClient::activate_extension_action` returns on a client whose handle is `client_handle`.
pub open spec fn activate_extension_action_planned(client_handle: u64, browsing_context_id: TabId, extension_id: Seq<char>, r: Result<BridgeCall, BridgeError>) -> bool {
    &&& (r is Ok <==> client_handle != 0 && !has_nul(extension_id))
    &&& (r matches Err(e) ==> e == input_error(client_handle))
    &&& (r matches Ok(call) ==> (call matches BridgeCall::ActivateExtensionAction { handle, tab_id, extension_id: id } && handle == client_handle && tab_id == browsing_context_id.0 && id@ == extension_id))
}

/// What `IpcClient::create_tab` returns on a client whose handle is `client_handle`.
pub open spec fn create_tab_planned(client_handle: u64, request_id: u64, initial_url: Seq<char>, profile_id: Seq<char>, policy: Option<&ChromeBrowsingContextPolicy>, r: Result<BridgeCall, BridgeError>) -> bool {
    &&& (r is Ok <==> client_handle != 0 && !has_nul(initial_url) && !has_nul(profile_id) && !any_has_nul(policy_origins(policy)))
    &&& (r matches Err(e) ==> e == input_error(client_handle))
    &&& (r matches Ok(call) ==> (call matches BridgeCall::CreateTab { handle, request_id: rid, url, profile_id: profile, has_policy, ipc_policy, allowed_origins, extensions_policy } && handle == client_handle && rid == request_id && url@ == initial_url && profile@ == profile_id && has_policy == policy.is_some() && ipc_policy == policy_ipc_code(policy) && extensions_policy == policy_extensions_code(policy) && texts_view(allowed_origins@) == texts_view(policy_origins(policy))))
}

/// What `IpcClient::enable_tab_ipc` returns on a client whose handle is `client_handle`.
pub open spec fn enable_tab_ipc_planned(client_handle: u64, browsing_context_id: TabId, config: TabIpcConfig, r: Result<BridgeCall, BridgeError>) -> bool {
    &&& (r is Ok <==> client_handle != 0 && !any_has_nul(config.allowed_origins@))
    &&& (r matches Err(e) ==> e == input_error(client_handle))
    &&& (r matches Ok(call) ==> (call matches BridgeCall::EnableTabIpc { handle, tab_id, allowed_origins } && handle == client_handle && tab_id == browsing_context_id.0 && texts_view(allowed_origins@) == texts_view(config.allowed_origins@)))
}

/// What `IpcClient::post_tab_ipc_message` returns on a client whose handle is `client_handle`.
pub open spec fn post_tab_ipc_message_planned(client_handle: u64, browsing_context_id: TabId, message: TabIpcMessage, r: Result<BridgeCall, BridgeError>) -> bool {
    &&& (r is Ok <==> client_handle != 0 && !has_nul(message.channel@) && !opt_has_nul(opt_text(message.content_type)) && !opt_has_nul(payload_text(message.payload)))
    &&& (r matches Err(e) ==> e == input_error(client_handle))
    &&& (r matches Ok(call) ==> (call matches BridgeCall::PostTabIpcMessage { handle, tab_id, channel, message_type, request_id, payload_kind, payload_text: text, payload_binary, content_type, error_code } && handle == client_handle && tab_id == browsing_context_id.0 && channel@ == message.channel@ && message_type == message_type_code(message.message_type) && request_id == message.request_id && payload_kind == payload_kind_code(message.payload) && opt_text(text) == payload_text(message.payload) && payload_binary@ == payload_bytes(message.payload) && opt_text(content_type) == opt_text(message.content_type) && error_code == optional_error_code(message.error_code)))
}

/// What `IpcClient::respond_javascript_dialog` returns on a client whose handle is `client_handle`.
pub open spec fn respond_javascript_dialog_planned(client_handle: u64, browsing_context_id: TabId, request_id: u64, accept: bool, prompt_text: Option<&str>, r: Result<BridgeCall, BridgeError>) -> bool {
    &&& (r is Ok <==> client_handle != 0 && !opt_has_nul(opt_str(prompt_text)))
    &&& (r matches Err(e) ==> e == input_error(client_handle))
    &&& (r matches Ok(call) ==> (call matches BridgeCall::RespondJavaScriptDialog { handle, tab_id, request_id: rid, accept: a, prompt_text: text } && handle == client_handle && tab_id == browsing_context_id.0 && rid == request_id && a == accept && opt_text(text) == opt_str(prompt_text)))
}

/// What `IpcClient::respond_extension_popup_javascript_dialog` returns on a client whose handle is `client_handle`.
pub open spec fn respond_extension_popup_javascript_dialog_planned(client_handle: u64, popup_id: PopupId, request_id: u64, accept: bool, prompt_text: Option<&str>, r: Result<BridgeCall, BridgeError>) -> bool {
    &&& (r is Ok <==> client_handle != 0 && !opt_has_nul(opt_str(prompt_text)))
    &&& (r matches Err(e) ==> e == input_error(client_handle))
    &&& (r matches Ok(call) ==> (call matches BridgeCall::RespondExtensionPopupJavaScriptDialog { handle, popup_id: p, request_id: rid, accept: a, prompt_text: text } && handle == client_handle && p == popup_id.0 && rid == request_id && a == accept && opt_text(text) == opt_str(prompt_text)))
}

/// What `IpcClient::navigate` returns on a client whose handle is `client_handle`.
pub open spec fn navigate_planned(client_handle: u64, browsing_context_id: TabId, url: Seq<char>, r: Result<BridgeCall, BridgeError>) -> bool {
    &&& (r is Ok <==> client_handle != 0 && !has_nul(url))
    &&& (r matches Err(e) ==> e == input_error(client_handle))
    &&& (r matches Ok(call) ==> (call matches BridgeCall::Navigate { handle, tab_id, url: u } && handle == client_handle && tab_id == browsing_context_id.0 && u@ == url))
}

/// What `IpcClient::find_in_page` returns on a client whose handle is `client_handle`.
pub open spec fn find_in_page_planned(client_handle: u64, browsing_context_id: TabId, request_id: u64, options: ChromeFindInPageOptions, r: Result<BridgeCall, BridgeError>) -> bool {
    &&& (r is Ok <==> client_handle != 0 && !has_nul(options.query@))
    &&& (r matches Err(e) ==> e == input_error(client_handle))
    &&& (r matches Ok(call) ==> (call matches BridgeCall::FindInPage { handle, tab_id, request_id: rid, query, forward, match_case, new_session, find_match } && handle == client_handle && tab_id == browsing_context_id.0 && rid == request_id && query@ == options.query@ && forward == options.forward && match_case == options.match_case && new_session == options.new_session && find_match == options.find_match))
}

/// What `IpcClient::open_default_prompt_ui` returns on a client whose handle is `client_handle`.
pub open spec fn open_default_prompt_ui_planned(client_handle: u64, profile_id: Seq<char>, request_id: u64, r: Result<BridgeCall, BridgeError>) -> bool {
    &&& (r is Ok <==> client_handle != 0 && !has_nul(profile_id))
    &&& (r matches Err(e) ==> e == input_error(client_handle))
    &&& (r matches Ok(call) ==> (call matches BridgeCall::OpenDefaultPromptUi { handle, profile_id: p, request_id: rid } && handle == client_handle && p@ == profile_id && rid == request_id))
}

/// What `IpcClient::respond_prompt_ui` returns on a client whose handle is `client_handle`.
pub open spec fn respond_prompt_ui_planned(client_handle: u64, profile_id: Seq<char>, request_id: u64, response: PromptUiResponse, r: Result<BridgeCall, BridgeError>) -> bool {
    &&& (r is Ok <==> client_handle != 0 && !has_nul(profile_id) && !opt_has_nul(prompt_destination(response)))
    &&& (r matches Err(e) ==> e == input_error(client_handle))
    &&& (r matches Ok(call) ==> (call matches BridgeCall::RespondPromptUi { handle, profile_id: p, request_id: rid, kind, proceed, report_abuse, destination_path } && handle == client_handle && p@ == profile_id && rid == request_id && kind == prompt_response_kind(response) && proceed == prompt_response_proceed(response) && report_abuse == prompt_response_report_abuse(response) && opt_text(destination_path) == prompt_destination(response)))
}

/// What `IpcClient::respond_prompt_ui_for_tab` returns on a client whose handle is `client_handle`.
pub open spec fn respond_prompt_ui_for_tab_planned(client_handle: u64, browsing_context_id: TabId, request_id: u64, response: PromptUiResponse, r: Result<BridgeCall, BridgeError>) -> bool {
    &&& (r is Ok <==> client_handle != 0 && !opt_has_nul(prompt_destination(response)))
    &&& (r matches Err(e) ==> e == input_error(client_handle))
    &&& (r matches Ok(call) ==> (call matches BridgeCall::RespondPromptUiForTab { handle, tab_id, request_id: rid, kind, proceed, report_abuse, destination_path } && handle == client_handle && tab_id == browsing_context_id.0 && rid == request_id && kind == prompt_response_kind(response) && proceed == prompt_response_proceed(response) && report_abuse == prompt_response_report_abuse(response) && opt_text(destination_path) == prompt_destination(response)))
}

/// What `IpcClient::close_prompt_ui` returns on a client whose handle is `client_handle`.
pub open spec fn close_prompt_ui_planned(client_handle: u64, profile_id: Seq<char>, prompt_ui_id: PromptUiId, r: Result<BridgeCall, BridgeError>) -> bool {
    &&& (r is Ok <==> client_handle != 0 && !has_nul(profile_id))
    &&& (r matches Err(e) ==> e == input_error(client_handle))
    &&& (r matches Ok(call) ==> (call matches BridgeCall::ClosePromptUi { handle, profile_id: p, prompt_ui_id: id } && handle == client_handle && p@ == profile_id && id == prompt_ui_id.0))
}

/// What `IpcClient::respond_tab_open` returns on a client whose handle is `client_handle`.
pub open spec fn respond_tab_open_planned(client_handle: u64, request_id: u64, response: ChromeBrowsingContextOpenResponse, r: Result<BridgeCall, BridgeError>) -> bool {
    &&& (r == on_ready(client_handle, spec_tab_open_call(client_handle, request_id, response)))
}

/// What `IpcClient::accept_choice_menu_selection` returns on a client whose handle is `client_handle`.
pub open spec fn accept_choice_menu_selection_planned(client_handle: u64, request_id: u64, indices: Seq<i32>, r: Result<BridgeCall, BridgeError>) -> bool {
    &&& (r is Ok <==> client_handle != 0)
    &&& (r matches Err(e) ==> e == BridgeError::InvalidState)
    &&& (r matches Ok(call) ==> (call matches BridgeCall::AcceptChoiceMenuSelection { handle, request_id: rid, indices: chosen } && handle == client_handle && rid == request_id && chosen@ == indices))
}

/// What `IpcClient::request_close_tab` returns on a client whose handle is `client_handle`.
pub open spec fn request_close_tab_planned(client_handle: u64, browsing_context_id: TabId, r: Result<BridgeCall, BridgeError>) -> bool {
    &&& (r == on_ready(client_handle, BridgeCall::RequestCloseTab { handle: client_handle, tab_id: browsing_context_id.0 }))
}

/// What `IpcClient::set_tab_size` returns on a client whose handle is `client_handle`.
pub open spec fn set_tab_size_planned(client_handle: u64, browsing_context_id: TabId, width: u32, height: u32, r: Result<BridgeCall, BridgeError>) -> bool {
    &&& (r == on_ready(client_handle, BridgeCall::SetTabSize { handle: client_handle, tab_id: browsing_context_id.0, width: width, height: height }))
}

/// What `IpcClient::set_tab_focus` returns on a client whose handle is `client_handle`.
pub open spec fn set_tab_focus_planned(client_handle: u64, browsing_context_id: TabId, focused: bool, r: Result<BridgeCall, BridgeError>) -> bool {
    &&& (r == on_ready(client_handle, BridgeCall::SetTabFocus { handle: client_handle, tab_id: browsing_context_id.0, focused: focused }))
}

/// What `IpcClient::set_tab_visibility` returns on a client whose handle is `client_handle`.
pub open spec fn set_tab_visibility_planned(client_handle: u64, browsing_context_id: TabId, visibility: ChromeTabVisibility, r: Result<BridgeCall, BridgeError>) -> bool {
    &&& (r == on_ready(client_handle, BridgeCall::SetTabVisibility { handle: client_handle, tab_id: browsing_context_id.0, visibility: tab_visibility_code(visibility) }))
}

/// What `IpcClient::disable_tab_ipc` returns on a client whose handle is `client_handle`.
pub open spec fn disable_tab_ipc_planned(client_handle: u64, browsing_context_id: TabId, r: Result<BridgeCall, BridgeError>) -> bool {
    &&& (r == on_ready(client_handle, BridgeCall::DisableTabIpc { handle: client_handle, tab_id: browsing_context_id.0 }))
}

/// What `IpcClient::set_tab_background_policy` returns on a client whose handle is `client_handle`.
pub open spec fn set_tab_background_policy_planned(client_handle: u64, browsing_context_id: TabId, policy: ChromeBackgroundPolicy, r: Result<BridgeCall, BridgeError>) -> bool {
    &&& (r == on_ready(client_handle, BridgeCall::SetTabBackgroundPolicy { handle: client_handle, tab_id: browsing_context_id.0, transparent: policy == ChromeBackgroundPolicy::Transparent }))
}

/// What `IpcClient::confirm_beforeunload` returns on a client whose handle is `client_handle`.
pub open spec fn confirm_beforeunload_planned(client_handle: u64, browsing_context_id: TabId, request_id: u64, proceed: bool, r: Result<BridgeCall, BridgeError>) -> bool {
    &&& (r == on_ready(client_handle, BridgeCall::ConfirmBeforeUnload { handle: client_handle, tab_id: browsing_context_id.0, request_id: request_id, proceed: proceed }))
}

/// What `IpcClient::execute_edit_action` returns on a client whose handle is `client_handle`.
pub open spec fn execute_edit_action_planned(client_handle: u64, browsing_context_id: TabId, action: ChromeEditAction, r: Result<BridgeCall, BridgeError>) -> bool {
    &&& (r == on_ready(client_handle, BridgeCall::ExecuteEditAction { handle: client_handle, tab_id: browsing_context_id.0, action: edit_action_code(action) }))
}

/// What `IpcClient::execute_extension_popup_edit_action` returns on a client whose handle is `client_handle`.
pub open spec fn execute_extension_popup_edit_action_planned(client_handle: u64, popup_id: PopupId, action: ChromeEditAction, r: Result<BridgeCall, BridgeError>) -> bool {
    &&& (r == on_ready(client_handle, BridgeCall::ExecuteExtensionPopupEditAction { handle: client_handle, popup_id: popup_id.0, action: edit_action_code(action) }))
}

/// What `IpcClient::go_back` returns on a client whose handle is `client_handle`.
pub open spec fn go_back_planned(client_handle: u64, browsing_context_id: TabId, r: Result<BridgeCall, BridgeError>) -> bool {
    &&& (r == on_ready(client_handle, BridgeCall::GoBack { handle: client_handle, tab_id: browsing_context_id.0 }))
}

/// What `IpcClient::go_forward` returns on a client whose handle is `client_handle`.
pub open spec fn go_forward_planned(client_handle: u64, browsing_context_id: TabId, r: Result<BridgeCall, BridgeError>) -> bool {
    &&& (r == on_ready(client_handle, BridgeCall::GoForward { handle: client_handle, tab_id: browsing_context_id.0 }))
}

/// What `IpcClient::reload` returns on a client whose handle is `client_handle`.
pub open spec fn reload_planned(client_handle: u64, browsing_context_id: TabId, ignore_cache: bool, r: Result<BridgeCall, BridgeError>) -> bool {
    &&& (r == on_ready(client_handle, BridgeCall::Reload { handle: client_handle, tab_id: browsing_context_id.0, ignore_cache: ignore_cache }))
}

/// What `IpcClient::print_preview` returns on a client whose handle is `client_handle`.
pub open spec fn print_preview_planned(client_handle: u64, browsing_context_id: TabId, r: Result<BridgeCall, BridgeError>) -> bool {
    &&& (r == on_ready(client_handle, BridgeCall::PrintPreview { handle: client_handle, tab_id: browsing_context_id.0 }))
}

/// What `IpcClient::open_dev_tools` returns on a client whose handle is `client_handle`.
pub open spec fn open_dev_tools_planned(client_handle: u64, browsing_context_id: TabId, r: Result<BridgeCall, BridgeError>) -> bool {
    &&& (r == on_ready(client_handle, BridgeCall::OpenDevTools { handle: client_handle, tab_id: browsing_context_id.0 }))
}

/// What `IpcClient::inspect_element` returns on a client whose handle is `client_handle`.
pub open spec fn inspect_element_planned(client_handle: u64, browsing_context_id: TabId, x: i32, y: i32, r: Result<BridgeCall, BridgeError>) -> bool {
    &&& (r == on_ready(client_handle, BridgeCall::InspectElement { handle: client_handle, tab_id: browsing_context_id.0, x: x, y: y }))
}

/// What `IpcClient::get_tab_dom_html` returns on a client whose handle is `client_handle`.
pub open spec fn get_tab_dom_html_planned(client_handle: u64, browsing_context_id: TabId, request_id: u64, r: Result<BridgeCall, BridgeError>) -> bool {
    &&& (r == on_ready(client_handle, BridgeCall::GetTabDomHtml { handle: client_handle, tab_id: browsing_context_id.0, request_id: request_id }))
}

/// What `IpcClient::stop_finding` returns on a client whose handle is `client_handle`.
pub open spec fn stop_finding_planned(client_handle: u64, browsing_context_id: TabId, action: ChromeStopFindAction, r: Result<BridgeCall, BridgeError>) -> bool {
    &&& (r == on_ready(client_handle, BridgeCall::StopFinding { handle: client_handle, tab_id: browsing_context_id.0, action: stop_find_action_code(action) }))
}

/// What `IpcClient::pause_download` returns on a client whose handle is `client_handle`.
pub open spec fn pause_download_planned(client_handle: u64, download_id: ChromeDownloadId, r: Result<BridgeCall, BridgeError>) -> bool {
    &&& (r == on_ready(client_handle, BridgeCall::PauseDownload { handle: client_handle, download_id: download_id.0 }))
}

/// What `IpcClient::resume_download` returns on a client whose handle is `client_handle`.
pub open spec fn resume_download_planned(client_handle: u64, download_id: ChromeDownloadId, r: Result<BridgeCall, BridgeError>) -> bool {
    &&& (r == on_ready(client_handle, BridgeCall::ResumeDownload { handle: client_handle, download_id: download_id.0 }))
}

/// What `IpcClient::cancel_download` returns on a client whose handle is `client_handle`.
pub open spec fn cancel_download_planned(client_handle: u64, download_id: ChromeDownloadId, r: Result<BridgeCall, BridgeError>) -> bool {
    &&& (r == on_ready(client_handle, BridgeCall::CancelDownload { handle: client_handle, download_id: download_id.0 }))
}

/// What `IpcClient::send_drag_cancel` returns on a client whose handle is `client_handle`.
pub open spec fn send_drag_cancel_planned(client_handle: u64, session_id: u64, browsing_context_id: TabId, r: Result<BridgeCall, BridgeError>) -> bool {
    &&& (r == on_ready(client_handle, BridgeCall::SendDragCancel { handle: client_handle, session_id: session_id, tab_id: browsing_context_id.0 }))
}

/// What `IpcClient::send_external_drag_leave` returns on a client whose handle is `client_handle`.
pub open spec fn send_external_drag_leave_planned(client_handle: u64, browsing_context_id: TabId, r: Result<BridgeCall, BridgeError>) -> bool {
    &&& (r == on_ready(client_handle, BridgeCall::SendExternalDragLeave { handle: client_handle, tab_id: browsing_context_id.0 }))
}

/// What `IpcClient::finish_composing_text` returns on a client whose handle is `client_handle`.
pub open spec fn finish_composing_text_planned(client_handle: u64, browsing_context_id: TabId, behavior: ChromeConfirmCompositionBehavior, r: Result<BridgeCall, BridgeError>) -> bool {
    &&& (r == on_ready(client_handle, BridgeCall::FinishComposingText { handle: client_handle, tab_id: browsing_context_id.0, behavior: confirm_behavior_code(behavior) }))
}

/// What `IpcClient::finish_extension_popup_composing_text` returns on a client whose handle is `client_handle`.
pub open spec fn finish_extension_popup_composing_text_planned(client_handle: u64, popup_id: PopupId, behavior: ChromeConfirmCompositionBehavior, r: Result<BridgeCall, BridgeError>) -> bool {
    &&& (r == on_ready(client_handle, BridgeCall::FinishExtensionPopupComposingText { handle: client_handle, popup_id: popup_id.0, behavior: confirm_behavior_code(behavior) }))
}

/// What `IpcClient::set_extension_popup_focus` returns on a client whose handle is `client_handle`.
pub open spec fn set_extension_popup_focus_planned(client_handle: u64, popup_id: PopupId, focused: bool, r: Result<BridgeCall, BridgeError>) -> bool {
    &&& (r == on_ready(client_handle, BridgeCall::SetExtensionPopupFocus { handle: client_handle, popup_id: popup_id.0, focused: focused }))
}

/// What `IpcClient::set_extension_popup_size` returns on a client whose handle is `client_handle`.
pub open spec fn set_extension_popup_size_planned(client_handle: u64, popup_id: PopupId, width: u32, height: u32, r: Result<BridgeCall, BridgeError>) -> bool {
    &&& (r == on_ready(client_handle, BridgeCall::SetExtensionPopupSize { handle: client_handle, popup_id: popup_id.0, width: width, height: height }))
}

/// What `IpcClient::set_extension_popup_background_policy` returns on a client whose handle is `client_handle`.
pub open spec fn set_extension_popup_background_policy_planned(client_handle: u64, popup_id: PopupId, policy: ChromeBackgroundPolicy, r: Result<BridgeCall, BridgeError>) -> bool {
    &&& (r == on_ready(client_handle, BridgeCall::SetExtensionPopupBackgroundPolicy { handle: client_handle, popup_id: popup_id.0, transparent: policy == ChromeBackgroundPolicy::Transparent }))
}

/// What `IpcClient::close_extension_popup` returns on a client whose handle is `client_handle`.
pub open spec fn close_extension_popup_planned(client_handle: u64, popup_id: PopupId, r: Result<BridgeCall, BridgeError>) -> bool {
    &&& (r == on_ready(client_handle, BridgeCall::CloseExtensionPopup { handle: client_handle, popup_id: popup_id.0 }))
}

/// What `IpcClient::execute_context_menu_command` returns on a client whose handle is `client_handle`.
pub open spec fn execute_context_menu_command_planned(client_handle: u64, menu_id: u64, command_id: i32, event_flags: i32, r: Result<BridgeCall, BridgeError>) -> bool {
    &&& (r == on_ready(client_handle, BridgeCall::ExecuteContextMenuCommand { handle: client_handle, menu_id: menu_id, command_id: command_id, event_flags: event_flags }))
}

/// What `IpcClient::dismiss_choice_menu` returns on a client whose handle is `client_handle`.
pub open spec fn dismiss_choice_menu_planned(client_handle: u64, request_id: u64, r: Result<BridgeCall, BridgeError>) -> bool {
    &&& (r == on_ready(client_handle, BridgeCall::DismissChoiceMenu { handle: client_handle, request_id: request_id }))
}

/// What `IpcClient::dismiss_context_menu` returns on a client whose handle is `client_handle`.
pub open spec fn dismiss_context_menu_planned(client_handle: u64, menu_id: u64, r: Result<BridgeCall, BridgeError>) -> bool {
    &&& (r == on_ready(client_handle, BridgeCall::DismissContextMenu { handle: client_handle, menu_id: menu_id }))
}

/// What `IpcClient::request_shutdown` returns on a client whose handle is `client_handle`.
pub open spec fn request_shutdown_planned(client_handle: u64, request_id: u64, r: Result<BridgeCall, BridgeError>) -> bool {
    &&& (r == on_ready(client_handle, BridgeCall::RequestShutdown { handle: client_handle, request_id: request_id }))
}

/// What `IpcClient::confirm_shutdown` returns on a client whose handle is `client_handle`.
pub open spec fn confirm_shutdown_planned(client_handle: u64, request_id: u64, proceed: bool, r: Result<BridgeCall, BridgeError>) -> bool {
    &&& (r == on_ready(client_handle, BridgeCall::ConfirmShutdown { handle: client_handle, request_id: request_id, proceed: proceed }))
}

/// What `IpcClient::force_shutdown` returns on a client whose handle is `client_handle`.
pub open spec fn force_shutdown_planned(client_handle: u64, r: Result<BridgeCall, BridgeError>) -> bool {
    &&& (r == on_ready(client_handle, BridgeCall::ForceShutdown { handle: client_handle }))
}

/// A keyboard event keeps its own codes and texts on the wire: the key codes,
/// modifiers, location and flags are the event's, each in its own place.
pub proof fn lemma_key_event_keeps_its_fields(tab_id: u64, event: ChromeKeyEvent, out: BridgeKeyEvent)
    requires
        key_event_encoded(tab_id, event, out),
    ensures
        out.tab_id == tab_id,
        out.windows_key_code == event.windows_key_code,
        out.native_key_code == event.native_key_code,
        out.modifiers == event.modifiers,
        out.location == event.location,
        out.auto_repeat == event.auto_repeat,
        out.is_keypad == event.is_keypad,
        out.is_system_key == event.is_system_key,
        opt_text(out.dom_code) == opt_text(event.dom_code),
        opt_text(out.dom_key) == opt_text(event.dom_key),
        opt_text(out.text) == opt_text(event.text),
        opt_text(out.unmodified_text) == opt_text(event.unmodified_text),
{
}

/// An IME span keeps its offsets on the wire.
pub proof fn lemma_span_keeps_offsets(span: ChromeImeTextSpan)
    ensures
        spec_bridge_span(span).start_offset == span.start_offset,
        spec_bridge_span(span).end_offset == span.end_offset,
{
}

/// A composition is sent for its own tab with its text, its selection start
/// and end in place, its replacement range (or -1, -1 without one), and one
/// span per span, offsets kept.
pub proof fn lemma_composition_keeps_its_fields(h: u64, composition: ChromeImeComposition, r: Result<BridgeCall, BridgeError>)
    requires
        set_composition_planned(h, composition, r),
    ensures
        r matches Ok(call) ==> {
            &&& call matches BridgeCall::SetComposition {
                handle,
                tab_id,
                text,
                selection_start,
                selection_end,
                replacement_range_start,
                replacement_range_end,
                spans,
            }
            &&& handle == h
            &&& tab_id == composition.browsing_context_id.0
            &&& text@ == composition.text@
            &&& selection_start == composition.selection_start
            &&& selection_end == composition.selection_end
            &&& match composition.replacement_range {
                Some(range) => replacement_range_start == range.start && replacement_range_end == range.end,
                None => replacement_range_start == -1 && replacement_range_end == -1,
            }
            &&& spans.len() == composition.spans.len()
            &&& forall|i: int|
                0 <= i < spans.len() ==> (#[trigger] spans@[i]).start_offset == composition.spans@[i].start_offset
                    && spans@[i].end_offset == composition.spans@[i].end_offset
        },
{
}

/// Committed text is sent for its own tab with its text, its caret position,
/// its replacement range (or -1, -1 without one), and one span per span,
/// offsets kept.
pub proof fn lemma_commit_keeps_its_fields(h: u64, commit: ChromeImeCommitText, r: Result<BridgeCall, BridgeError>)
    requires
        commit_text_planned(h, commit, r),
    ensures
        r matches Ok(call) ==> {
            &&& call matches BridgeCall::CommitText {
                handle,
                tab_id,
                text,
                relative_caret_position,
                replacement_range_start,
                replacement_range_end,
                spans,
            }
            &&& handle == h
            &&& tab_id == commit.browsing_context_id.0
            &&& text@ == commit.text@
            &&& relative_caret_position == commit.relative_caret_position
            &&& match commit.replacement_range {
                Some(range) => replacement_range_start == range.start && replacement_range_end == range.end,
                None => replacement_range_start == -1 && replacement_range_end == -1,
            }
            &&& spans.len() == commit.spans.len()
            &&& forall|i: int|
                0 <= i < spans.len() ==> (#[trigger] spans@[i]).start_offset == commit.spans@[i].start_offset
                    && spans@[i].end_offset == commit.spans@[i].end_offset
        },
{
}

/// A prompt answer is sent as what it says: its kind, and for every answer
/// that carries an allow or proceed flag exactly that flag; the abuse report
/// only for an uninstall answer, the destination only for a download answer.
pub proof fn lemma_prompt_answer_sent_as_given(
    h: u64,
    profile_id: Seq<char>,
    request_id: u64,
    response: PromptUiResponse,
    r: Result<BridgeCall, BridgeError>,
)
    requires
        respond_prompt_ui_planned(h, profile_id, request_id, response, r),
    ensures
        h != 0 && !has_nul(profile_id) && !opt_has_nul(prompt_destination(response)) ==> r is Ok,
        r matches Ok(call) ==> {
            &&& call matches BridgeCall::RespondPromptUi { kind, proceed, report_abuse, destination_path, .. }
            &&& match response {
                PromptUiResponse::PermissionPrompt { allow } => kind == codes::PROMPT_UI_KIND_PERMISSION_PROMPT
                    && proceed == allow && !report_abuse && destination_path is None,
                PromptUiResponse::DownloadPrompt { allow, destination_path: path } => kind
                    == codes::PROMPT_UI_KIND_DOWNLOAD_PROMPT && proceed == allow && !report_abuse
                    && opt_text(destination_path) == opt_text(path),
                PromptUiResponse::ExtensionInstallPrompt { proceed: p } => kind
                    == codes::PROMPT_UI_KIND_EXTENSION_INSTALL_PROMPT && proceed == p && !report_abuse
                    && destination_path is None,
                PromptUiResponse::ExtensionUninstallPrompt { proceed: p, report_abuse: report } => kind
                    == codes::PROMPT_UI_KIND_EXTENSION_UNINSTALL_PROMPT && proceed == p && report_abuse
                    == report && destination_path is None,
                PromptUiResponse::PrintPreviewDialog { proceed: p } => kind
                    == codes::PROMPT_UI_KIND_PRINT_PREVIEW_DIALOG && proceed == p && !report_abuse
                    && destination_path is None,
                PromptUiResponse::FormResubmissionPrompt { proceed: p } => kind
                    == codes::PROMPT_UI_KIND_FORM_RESUBMISSION_PROMPT && proceed == p && !report_abuse
                    && destination_path is None,
                PromptUiResponse::Unknown => kind == codes::PROMPT_UI_KIND_UNKNOWN && !proceed
                    && !report_abuse && destination_path is None,
            }
        },
{
}

/// A prompt answer for a tab is sent as what it says, as for a profile.
pub proof fn lemma_tab_prompt_answer_sent_as_given(
    h: u64,
    browsing_context_id: TabId,
    request_id: u64,
    response: PromptUiResponse,
    r: Result<BridgeCall, BridgeError>,
)
    requires
        respond_prompt_ui_for_tab_planned(h, browsing_context_id, request_id, response, r),
    ensures
        h != 0 && !opt_has_nul(prompt_destination(response)) ==> r is Ok,
        r matches Ok(call) ==> {
            &&& call matches BridgeCall::RespondPromptUiForTab { kind, proceed, report_abuse, destination_path, .. }
            &&& match response {
                PromptUiResponse::PermissionPrompt { allow } => kind == codes::PROMPT_UI_KIND_PERMISSION_PROMPT
                    && proceed == allow && !report_abuse && destination_path is None,
                PromptUiResponse::DownloadPrompt { allow, destination_path: path } => kind
                    == codes::PROMPT_UI_KIND_DOWNLOAD_PROMPT && proceed == allow && !report_abuse
                    && opt_text(destination_path) == opt_text(path),
                PromptUiResponse::ExtensionInstallPrompt { proceed: p } => kind
                    == codes::PROMPT_UI_KIND_EXTENSION_INSTALL_PROMPT && proceed == p && !report_abuse
                    && destination_path is None,
                PromptUiResponse::ExtensionUninstallPrompt { proceed: p, report_abuse: report } => kind
                    == codes::PROMPT_UI_KIND_EXTENSION_UNINSTALL_PROMPT && proceed == p && report_abuse
                    == report && destination_path is None,
                PromptUiResponse::PrintPreviewDialog { proceed: p } => kind
                    == codes::PROMPT_UI_KIND_PRINT_PREVIEW_DIALOG && proceed == p && !report_abuse
                    && destination_path is None,
                PromptUiResponse::FormResubmissionPrompt { proceed: p } => kind
                    == codes::PROMPT_UI_KIND_FORM_RESUBMISSION_PROMPT && proceed == p && !report_abuse
                    && destination_path is None,
                PromptUiResponse::Unknown => kind == codes::PROMPT_UI_KIND_UNKNOWN && !proceed
                    && !report_abuse && destination_path is None,
            }
        },
{
}

/// Client of the bridge: the address of a live bridge client, or 0.
#[derive(Debug)]
pub struct IpcClient {
    handle: u64,
}

/// A call on a client: refused when the client has no live handle.
pub open spec fn on_ready(handle: u64, call: BridgeCall) -> Result<BridgeCall, BridgeError> {
    if handle == 0 {
        Err(BridgeError::InvalidState)
    } else {
        Ok(call)
    }
}

impl IpcClient {
    /// The address of the bridge client, 0 when there is none.
    pub closed spec fn handle_value(self) -> u64 {
        self.handle
    }

    /// Wrap the address of a connected bridge client (0 for none).
    pub fn from_handle(handle: u64) -> (c: Self)
        ensures
            c.handle_value() == handle,
    {
        IpcClient { handle }
    }

    /// The address of the bridge client.
    pub fn handle(&self) -> (h: u64)
        ensures
            h == self.handle_value(),
    {
        self.handle
    }

    /// A client without a live handle refuses every call.
    pub fn ensure_ready(&self) -> (r: Result<(), BridgeError>)
        ensures
            r == (if self.handle_value() == 0 {
                Err(BridgeError::InvalidState)
            } else {
                Ok(())
            }),
    {
        if self.handle == 0 {
            Err(BridgeError::InvalidState)
        } else {
            Ok(())
        }
    }

    /// Decode the event the bridge handed over when polled, if any; a client
    /// without a handle has nothing to poll.
    pub fn poll_event(&mut self, polled: Option<BridgeEvent>) -> (r: Option<Result<IpcEvent, BridgeError>>)
        requires
            polled matches Some(e) ==> !names_windows_surface(e),
        ensures
            *final(self) == *old(self),
            r is Some <==> old(self).handle_value() != 0 && polled is Some,
            r matches Some(parsed) ==> (polled matches Some(e) && event_parsed(e, parsed)),
    {
        if self.handle == 0 {
            return None;
        }
        match polled {
            Some(event) => Some(parse_event(event)),
            None => None,
        }
    }

    /// Plan a wait for the next event; a client without a handle is closed.
    pub fn wait_for_event(&self, timeout_millis: Option<u128>) -> (w: EventWait)
        ensures
            w == (if self.handle_value() == 0 {
                EventWait::Done(EventWaitResult::Closed)
            } else {
                EventWait::Wait {
                    handle: self.handle_value(),
                    timeout_ms: spec_wait_timeout(timeout_millis),
                }
            }),
    {
        if self.handle == 0 {
            EventWait::Done(EventWaitResult::Closed)
        } else {
            EventWait::Wait { handle: self.handle, timeout_ms: wait_timeout_to_ffi(timeout_millis) }
        }
    }

    /// Ask for the browser profiles.
    pub fn list_profiles(&mut self) -> (r: Result<BridgeCall, BridgeError>)
        ensures
            *final(self) == *old(self),
            r == on_ready(old(self).handle_value(), BridgeCall::ListProfiles { handle: old(self).handle_value() }),
    {
        self.ensure_ready()?;
        Ok(BridgeCall::ListProfiles { handle: self.handle })
    }

    /// Ask for the extensions of a profile.
    pub fn list_extensions(&mut self, profile_id: &str) -> (r: Result<BridgeCall, BridgeError>)
        ensures
            *final(self) == *old(self),
            list_extensions_planned(old(self).handle_value(), profile_id@, r),
    {
        self.ensure_ready()?;
        let profile = c_string(profile_id)?;
        Ok(BridgeCall::ListExtensions { handle: self.handle, profile_id: profile })
    }

    /// Send a keyboard event, with its editing commands, to the page.
    pub fn send_key_event_raw(&mut self, browsing_context_id: TabId, event: &ChromeKeyEvent, commands: &Vec<
        String,
    >) -> (r: Result<BridgeCall, BridgeError>)
        ensures
            *final(self) == *old(self),
            send_key_event_raw_planned(old(self).handle_value(), browsing_context_id, *event, commands@, r),
    {
        self.ensure_ready()?;
        let encoded = key_event_to_ffi(browsing_context_id.get(), event)?;
        let copied = c_string_list(commands)?;
        proof {
            assert(texts_view(copied@) =~= texts_view(commands@));
        }
        Ok(BridgeCall::SendKeyEvent { handle: self.handle, event: encoded, commands: copied })
    }

    /// Send a keyboard event, with its editing commands, to an extension popup.
    pub fn send_extension_popup_key_event_raw(&mut self, popup_id: PopupId, event: &ChromeKeyEvent, commands: &Vec<
        String,
    >) -> (r: Result<BridgeCall, BridgeError>)
        ensures
            *final(self) == *old(self),
            send_extension_popup_key_event_raw_planned(old(self).handle_value(), popup_id, *event, commands@, r),
    {
        self.ensure_ready()?;
        let encoded = key_event_to_ffi(0, event)?;
        let copied = c_string_list(commands)?;
        proof {
            assert(texts_view(copied@) =~= texts_view(commands@));
        }
        Ok(
            BridgeCall::SendExtensionPopupKeyEvent {
                handle: self.handle,
                popup_id: popup_id.get(),
                event: encoded,
                commands: copied,
            },
        )
    }

    /// Update the IME composition state of a page.
    pub fn set_composition(&mut self, composition: &ChromeImeComposition) -> (r: Result<
        BridgeCall,
        BridgeError,
    >)
        ensures
            *final(self) == *old(self),
            set_composition_planned(old(self).handle_value(), *composition, r),
    {
        self.ensure_ready()?;
        let text = c_string(composition.text.as_str())?;
        let spans = to_ffi_ime_text_spans(composition.spans.as_slice());
        let (replacement_range_start, replacement_range_end) = ime_range_to_ffi(
            &composition.replacement_range,
        );
        Ok(
            BridgeCall::SetComposition {
                handle: self.handle,
                tab_id: composition.browsing_context_id.get(),
                text,
                selection_start: composition.selection_start,
                selection_end: composition.selection_end,
                replacement_range_start,
                replacement_range_end,
                spans,
            },
        )
    }

    /// Commit IME text input to a page.
    pub fn commit_text(&mut self, commit: &ChromeImeCommitText) -> (r: Result<BridgeCall, BridgeError>)
        ensures
            *final(self) == *old(self),
            commit_text_planned(old(self).handle_value(), *commit, r),
    {
        self.ensure_ready()?;
        let text = c_string(commit.text.as_str())?;
        let spans = to_ffi_ime_text_spans(commit.spans.as_slice());
        let (replacement_range_start, replacement_range_end) = ime_range_to_ffi(
            &commit.replacement_range,
        );
        Ok(
            BridgeCall::CommitText {
                handle: self.handle,
                tab_id: commit.browsing_context_id.get(),
                text,
                relative_caret_position: commit.relative_caret_position,
                replacement_range_start,
                replacement_range_end,
                spans,
            },
        )
    }

    /// Authenticate with the session token.
    pub fn authenticate(&self, token: &str) -> (r: Result<BridgeCall, BridgeError>)
        ensures
            r is Ok <==> self.handle_value() != 0 && !has_nul(token@),
            r matches Err(e) ==> e == input_error(self.handle_value()),
            r matches Ok(call) ==> (call matches BridgeCall::Authenticate { handle, token: t }
                && handle == self.handle_value() && t@ == token@),
    {
        self.ensure_ready()?;
        let token = c_string(token)?;
        Ok(BridgeCall::Authenticate { handle: self.handle, token })
    }

    /// Register a handler for a custom scheme and host.
    pub fn register_custom_scheme_handler(&mut self, scheme: &str, host: &str) -> (r: Result<
        BridgeCall,
        BridgeError,
    >)
        ensures
            *final(self) == *old(self),
            register_custom_scheme_handler_planned(old(self).handle_value(), scheme@, host@, r),
    {
        self.ensure_ready()?;
        let scheme = c_string(scheme)?;
        let host = c_string(host)?;
        Ok(BridgeCall::RegisterCustomSchemeHandler { handle: self.handle, scheme, host })
    }

    /// Answer a custom scheme request.
    pub fn respond_custom_scheme_request(&mut self, response: &ChromeCustomSchemeResponse) -> (r:
        Result<BridgeCall, BridgeError>)
        ensures
            *final(self) == *old(self),
            respond_custom_scheme_request_planned(old(self).handle_value(), *response, r),
    {
        self.ensure_ready()?;
        let mime_type = c_string(response.mime_type.as_str())?;
        let content_security_policy = optional_c_string(&response.content_security_policy)?;
        let access_control_allow_origin = optional_c_string(&response.access_control_allow_origin)?;
        let result = custom_scheme_result_to_ffi(response.result);
        let body = vstd::slice::slice_to_vec(response.body.as_slice());
        Ok(
            BridgeCall::RespondCustomSchemeRequest {
                handle: self.handle,
                request_id: response.request_id,
                result,
                mime_type,
                content_security_policy,
                access_control_allow_origin,
                body,
            },
        )
    }

    /// Run the action of an extension for a tab.
    pub fn activate_extension_action(&mut self, browsing_context_id: TabId, extension_id: &str) -> (r:
        Result<BridgeCall, BridgeError>)
        ensures
            *final(self) == *old(self),
            activate_extension_action_planned(old(self).handle_value(), browsing_context_id, extension_id@, r),
    {
        self.ensure_ready()?;
        let extension_id = c_string(extension_id)?;
        Ok(
            BridgeCall::ActivateExtensionAction {
                handle: self.handle,
                tab_id: browsing_context_id.get(),
                extension_id,
            },
        )
    }

    /// Create a tab, optionally under a browsing context policy.
    pub fn create_tab(
        &mut self,
        request_id: u64,
        initial_url: &str,
        profile_id: &str,
        policy: Option<&ChromeBrowsingContextPolicy>,
    ) -> (r: Result<BridgeCall, BridgeError>)
        ensures
            *final(self) == *old(self),
            create_tab_planned(old(self).handle_value(), request_id, initial_url@, profile_id@, policy, r),
    {
        self.ensure_ready()?;
        let url = c_string(initial_url)?;
        let profile = c_string(profile_id)?;
        let allowed_origins = match policy {
            Some(p) => match &p.ipc {
                ChromeIpcPolicy::Allow { allowed_origins } => c_string_list(allowed_origins)?,
                ChromeIpcPolicy::Deny => Vec::new(),
            },
            None => Vec::new(),
        };
        proof {
            assert(texts_view(allowed_origins@) =~= texts_view(policy_origins(policy)));
        }
        let (has_policy, ipc_policy, extensions_policy) = match policy {
            Some(p) => (
                true,
                match &p.ipc {
                    ChromeIpcPolicy::Deny => codes::IPC_POLICY_DENY,
                    ChromeIpcPolicy::Allow { .. } => codes::IPC_POLICY_ALLOW,
                },
                match p.extensions {
                    ChromeCapabilityPolicy::Allow => codes::CAPABILITY_POLICY_ALLOW,
                    ChromeCapabilityPolicy::Deny => codes::CAPABILITY_POLICY_DENY,
                },
            ),
            None => (false, codes::IPC_POLICY_DENY, codes::CAPABILITY_POLICY_ALLOW),
        };
        Ok(
            BridgeCall::CreateTab {
                handle: self.handle,
                request_id,
                url,
                profile_id: profile,
                has_policy,
                ipc_policy,
                allowed_origins,
                extensions_policy,
            },
        )
    }

    /// Enable browsing context IPC with an explicit origin allow list.
    pub fn enable_tab_ipc(&mut self, browsing_context_id: TabId, config: &TabIpcConfig) -> (r: Result<
        BridgeCall,
        BridgeError,
    >)
        ensures
            *final(self) == *old(self),
            enable_tab_ipc_planned(old(self).handle_value(), browsing_context_id, *config, r),
    {
        self.ensure_ready()?;
        let allowed_origins = c_string_list(&config.allowed_origins)?;
        proof {
            assert(texts_view(allowed_origins@) =~= texts_view(config.allowed_origins@));
        }
        Ok(
            BridgeCall::EnableTabIpc {
                handle: self.handle,
                tab_id: browsing_context_id.get(),
                allowed_origins,
            },
        )
    }

    /// Post a host-to-page IPC message.
    pub fn post_tab_ipc_message(&mut self, browsing_context_id: TabId, message: &TabIpcMessage) -> (r:
        Result<BridgeCall, BridgeError>)
        ensures
            *final(self) == *old(self),
            post_tab_ipc_message_planned(old(self).handle_value(), browsing_context_id, *message, r),
    {
        self.ensure_ready()?;
        let channel = c_string(message.channel.as_str())?;
        let content_type = optional_c_string(&message.content_type)?;
        let (payload_kind, text, binary) = match &message.payload {
            TabIpcPayload::Text(text) => {
                let copied = c_string(text.as_str())?;
                (codes::IPC_PAYLOAD_TEXT, Some(copied), Vec::new())
            },
            TabIpcPayload::Binary(binary) => (
                codes::IPC_PAYLOAD_BINARY,
                None,
                vstd::slice::slice_to_vec(binary.as_slice()),
            ),
        };
        let message_type = ipc_message_type_to_ffi(message.message_type);
        let error_code = match message.error_code {
            Some(code) => ipc_error_code_to_ffi(code),
            None => codes::IPC_ERROR_NONE,
        };
        Ok(
            BridgeCall::PostTabIpcMessage {
                handle: self.handle,
                tab_id: browsing_context_id.get(),
                channel,
                message_type,
                request_id: message.request_id,
                payload_kind,
                payload_text: text,
                payload_binary: binary,
                content_type,
                error_code,
            },
        )
    }

    /// Respond to a JavaScript dialog request for a tab.
    pub fn respond_javascript_dialog(
        &mut self,
        browsing_context_id: TabId,
        request_id: u64,
        accept: bool,
        prompt_text: Option<&str>,
    ) -> (r: Result<BridgeCall, BridgeError>)
        ensures
            *final(self) == *old(self),
            respond_javascript_dialog_planned(old(self).handle_value(), browsing_context_id, request_id, accept, prompt_text, r),
    {
        self.ensure_ready()?;
        let text = optional_c_str(prompt_text)?;
        Ok(
            BridgeCall::RespondJavaScriptDialog {
                handle: self.handle,
                tab_id: browsing_context_id.get(),
                request_id,
                accept,
                prompt_text: text,
            },
        )
    }

    /// Respond to a JavaScript dialog request for an extension popup.
    pub fn respond_extension_popup_javascript_dialog(
        &mut self,
        popup_id: PopupId,
        request_id: u64,
        accept: bool,
        prompt_text: Option<&str>,
    ) -> (r: Result<BridgeCall, BridgeError>)
        ensures
            *final(self) == *old(self),
            respond_extension_popup_javascript_dialog_planned(old(self).handle_value(), popup_id, request_id, accept, prompt_text, r),
    {
        self.ensure_ready()?;
        let text = optional_c_str(prompt_text)?;
        Ok(
            BridgeCall::RespondExtensionPopupJavaScriptDialog {
                handle: self.handle,
                popup_id: popup_id.get(),
                request_id,
                accept,
                prompt_text: text,
            },
        )
    }

    /// Navigate the page to the provided URL.
    pub fn navigate(&mut self, browsing_context_id: TabId, url: &str) -> (r: Result<
        BridgeCall,
        BridgeError,
    >)
        ensures
            *final(self) == *old(self),
            navigate_planned(old(self).handle_value(), browsing_context_id, url@, r),
    {
        self.ensure_ready()?;
        let url = c_string(url)?;
        Ok(BridgeCall::Navigate { handle: self.handle, tab_id: browsing_context_id.get(), url })
    }

    /// Search the page for text.
    pub fn find_in_page(
        &mut self,
        browsing_context_id: TabId,
        request_id: u64,
        options: &ChromeFindInPageOptions,
    ) -> (r: Result<BridgeCall, BridgeError>)
        ensures
            *final(self) == *old(self),
            find_in_page_planned(old(self).handle_value(), browsing_context_id, request_id, *options, r),
    {
        self.ensure_ready()?;
        let query = c_string(options.query.as_str())?;
        Ok(
            BridgeCall::FindInPage {
                handle: self.handle,
                tab_id: browsing_context_id.get(),
                request_id,
                query,
                forward: options.forward,
                match_case: options.match_case,
                new_session: options.new_session,
                find_match: options.find_match,
            },
        )
    }

    /// Open Chromium's default prompt UI for a pending request.
    pub fn open_default_prompt_ui(&mut self, profile_id: &str, request_id: u64) -> (r: Result<
        BridgeCall,
        BridgeError,
    >)
        ensures
            *final(self) == *old(self),
            open_default_prompt_ui_planned(old(self).handle_value(), profile_id@, request_id, r),
    {
        self.ensure_ready()?;
        let profile = c_string(profile_id)?;
        Ok(BridgeCall::OpenDefaultPromptUi { handle: self.handle, profile_id: profile, request_id })
    }

    /// Respond to a pending prompt UI request of a profile.
    pub fn respond_prompt_ui(&mut self, profile_id: &str, request_id: u64, response: &PromptUiResponse) -> (r:
        Result<BridgeCall, BridgeError>)
        ensures
            *final(self) == *old(self),
            respond_prompt_ui_planned(old(self).handle_value(), profile_id@, request_id, *response, r),
    {
        self.ensure_ready()?;
        let profile = c_string(profile_id)?;
        let (kind, proceed, destination_path, report_abuse) = prompt_ui_response_parts(response)?;
        Ok(
            BridgeCall::RespondPromptUi {
                handle: self.handle,
                profile_id: profile,
                request_id,
                kind,
                proceed,
                report_abuse,
                destination_path,
            },
        )
    }

    /// Respond to a page-originated prompt; the bridge resolves the profile.
    pub fn respond_prompt_ui_for_tab(
        &mut self,
        browsing_context_id: TabId,
        request_id: u64,
        response: &PromptUiResponse,
    ) -> (r: Result<BridgeCall, BridgeError>)
        ensures
            *final(self) == *old(self),
            respond_prompt_ui_for_tab_planned(old(self).handle_value(), browsing_context_id, request_id, *response, r),
    {
        self.ensure_ready()?;
        let (kind, proceed, destination_path, report_abuse) = prompt_ui_response_parts(response)?;
        Ok(
            BridgeCall::RespondPromptUiForTab {
                handle: self.handle,
                tab_id: browsing_context_id.get(),
                request_id,
                kind,
                proceed,
                report_abuse,
                destination_path,
            },
        )
    }

    /// Close a backend-managed prompt UI surface.
    pub fn close_prompt_ui(&mut self, profile_id: &str, prompt_ui_id: PromptUiId) -> (r: Result<
        BridgeCall,
        BridgeError,
    >)
        ensures
            *final(self) == *old(self),
            close_prompt_ui_planned(old(self).handle_value(), profile_id@, prompt_ui_id, r),
    {
        self.ensure_ready()?;
        let profile = c_string(profile_id)?;
        Ok(
            BridgeCall::ClosePromptUi {
                handle: self.handle,
                profile_id: profile,
                prompt_ui_id: prompt_ui_id.get(),
            },
        )
    }

    /// Respond to a host-mediated tab-open request.
    pub fn respond_tab_open(&mut self, request_id: u64, response: &ChromeBrowsingContextOpenResponse) -> (r:
        Result<BridgeCall, BridgeError>)
        ensures
            *final(self) == *old(self),
            respond_tab_open_planned(old(self).handle_value(), request_id, *response, r),
    {
        self.ensure_ready()?;
        let (response_kind, target_tab_id, activate) = match response {
            ChromeBrowsingContextOpenResponse::AllowNewContext { activate } => (
                codes::TAB_OPEN_RESPONSE_ALLOW_NEW_CONTEXT,
                0u64,
                *activate,
            ),
            ChromeBrowsingContextOpenResponse::AllowExistingContext { tab_id, activate } => (
                codes::TAB_OPEN_RESPONSE_ALLOW_EXISTING_CONTEXT,
                tab_id.get(),
                *activate,
            ),
            ChromeBrowsingContextOpenResponse::Deny => (codes::TAB_OPEN_RESPONSE_DENY, 0u64, false),
        };
        Ok(
            BridgeCall::RespondTabOpen {
                handle: self.handle,
                request_id,
                response_kind,
                target_tab_id,
                activate,
            },
        )
    }

    /// Accept a host-owned choice menu selection.
    pub fn accept_choice_menu_selection(&mut self, request_id: u64, indices: &[i32]) -> (r: Result<
        BridgeCall,
        BridgeError,
    >)
        ensures
            *final(self) == *old(self),
            accept_choice_menu_selection_planned(old(self).handle_value(), request_id, indices@, r),
    {
        self.ensure_ready()?;
        let chosen = vstd::slice::slice_to_vec(indices);
        Ok(
            BridgeCall::AcceptChoiceMenuSelection {
                handle: self.handle,
                request_id,
                indices: chosen,
            },
        )
    }

    /// Request closing the specified tab.
    pub fn request_close_tab(&mut self, browsing_context_id: TabId) -> (r: Result<BridgeCall, BridgeError>)
        ensures
            *final(self) == *old(self),
            request_close_tab_planned(old(self).handle_value(), browsing_context_id, r),
    {
        self.ensure_ready()?;
        Ok(BridgeCall::RequestCloseTab { handle: self.handle, tab_id: browsing_context_id.get() })
    }

    /// Update the surface size of the specified tab.
    pub fn set_tab_size(&mut self, browsing_context_id: TabId, width: u32, height: u32) -> (r: Result<BridgeCall, BridgeError>)
        ensures
            *final(self) == *old(self),
            set_tab_size_planned(old(self).handle_value(), browsing_context_id, width, height, r),
    {
        self.ensure_ready()?;
        Ok(BridgeCall::SetTabSize { handle: self.handle, tab_id: browsing_context_id.get(), width: width, height: height })
    }

    /// Update whether the specified tab should receive text input focus.
    pub fn set_tab_focus(&mut self, browsing_context_id: TabId, focused: bool) -> (r: Result<BridgeCall, BridgeError>)
        ensures
            *final(self) == *old(self),
            set_tab_focus_planned(old(self).handle_value(), browsing_context_id, focused, r),
    {
        self.ensure_ready()?;
        Ok(BridgeCall::SetTabFocus { handle: self.handle, tab_id: browsing_context_id.get(), focused: focused })
    }

    /// Update whether the specified tab should be treated as visible.
    pub fn set_tab_visibility(&mut self, browsing_context_id: TabId, visibility: ChromeTabVisibility) -> (r: Result<BridgeCall, BridgeError>)
        ensures
            *final(self) == *old(self),
            set_tab_visibility_planned(old(self).handle_value(), browsing_context_id, visibility, r),
    {
        self.ensure_ready()?;
        Ok(BridgeCall::SetTabVisibility { handle: self.handle, tab_id: browsing_context_id.get(), visibility: visibility_to_ffi(visibility) })
    }

    /// Disable browsing context IPC.
    pub fn disable_tab_ipc(&mut self, browsing_context_id: TabId) -> (r: Result<BridgeCall, BridgeError>)
        ensures
            *final(self) == *old(self),
            disable_tab_ipc_planned(old(self).handle_value(), browsing_context_id, r),
    {
        self.ensure_ready()?;
        Ok(BridgeCall::DisableTabIpc { handle: self.handle, tab_id: browsing_context_id.get() })
    }

    /// Update the page background policy of the specified tab.
    pub fn set_tab_background_policy(&mut self, browsing_context_id: TabId, policy: ChromeBackgroundPolicy) -> (r: Result<BridgeCall, BridgeError>)
        ensures
            *final(self) == *old(self),
            set_tab_background_policy_planned(old(self).handle_value(), browsing_context_id, policy, r),
    {
        self.ensure_ready()?;
        Ok(BridgeCall::SetTabBackgroundPolicy { handle: self.handle, tab_id: browsing_context_id.get(), transparent: is_transparent(policy) })
    }

    /// Respond to a beforeunload confirmation request.
    pub fn confirm_beforeunload(&mut self, browsing_context_id: TabId, request_id: u64, proceed: bool) -> (r: Result<BridgeCall, BridgeError>)
        ensures
            *final(self) == *old(self),
            confirm_beforeunload_planned(old(self).handle_value(), browsing_context_id, request_id, proceed, r),
    {
        self.ensure_ready()?;
        Ok(BridgeCall::ConfirmBeforeUnload { handle: self.handle, tab_id: browsing_context_id.get(), request_id: request_id, proceed: proceed })
    }

    /// Navigate back in history for the page.
    /// Apply an editing command to a tab.
    pub fn execute_edit_action(&mut self, browsing_context_id: TabId, action: ChromeEditAction) -> (r: Result<BridgeCall, BridgeError>)
        ensures
            *final(self) == *old(self),
            execute_edit_action_planned(old(self).handle_value(), browsing_context_id, action, r),
    {
        self.ensure_ready()?;
        Ok(BridgeCall::ExecuteEditAction { handle: self.handle, tab_id: browsing_context_id.get(), action: edit_action_to_ffi(action) })
    }

    /// Apply an editing command to an extension popup.
    pub fn execute_extension_popup_edit_action(&mut self, popup_id: PopupId, action: ChromeEditAction) -> (r: Result<BridgeCall, BridgeError>)
        ensures
            *final(self) == *old(self),
            execute_extension_popup_edit_action_planned(old(self).handle_value(), popup_id, action, r),
    {
        self.ensure_ready()?;
        Ok(BridgeCall::ExecuteExtensionPopupEditAction { handle: self.handle, popup_id: popup_id.get(), action: edit_action_to_ffi(action) })
    }

    pub fn go_back(&mut self, browsing_context_id: TabId) -> (r: Result<BridgeCall, BridgeError>)
        ensures
            *final(self) == *old(self),
            go_back_planned(old(self).handle_value(), browsing_context_id, r),
    {
        self.ensure_ready()?;
        Ok(BridgeCall::GoBack { handle: self.handle, tab_id: browsing_context_id.get() })
    }

    /// Navigate forward in history for the page.
    pub fn go_forward(&mut self, browsing_context_id: TabId) -> (r: Result<BridgeCall, BridgeError>)
        ensures
            *final(self) == *old(self),
            go_forward_planned(old(self).handle_value(), browsing_context_id, r),
    {
        self.ensure_ready()?;
        Ok(BridgeCall::GoForward { handle: self.handle, tab_id: browsing_context_id.get() })
    }

    /// Reload the page, optionally ignoring caches.
    pub fn reload(&mut self, browsing_context_id: TabId, ignore_cache: bool) -> (r: Result<BridgeCall, BridgeError>)
        ensures
            *final(self) == *old(self),
            reload_planned(old(self).handle_value(), browsing_context_id, ignore_cache, r),
    {
        self.ensure_ready()?;
        Ok(BridgeCall::Reload { handle: self.handle, tab_id: browsing_context_id.get(), ignore_cache: ignore_cache })
    }

    /// Open print preview for the page.
    pub fn print_preview(&mut self, browsing_context_id: TabId) -> (r: Result<BridgeCall, BridgeError>)
        ensures
            *final(self) == *old(self),
            print_preview_planned(old(self).handle_value(), browsing_context_id, r),
    {
        self.ensure_ready()?;
        Ok(BridgeCall::PrintPreview { handle: self.handle, tab_id: browsing_context_id.get() })
    }

    /// Open DevTools for the specified page.
    pub fn open_dev_tools(&mut self, browsing_context_id: TabId) -> (r: Result<BridgeCall, BridgeError>)
        ensures
            *final(self) == *old(self),
            open_dev_tools_planned(old(self).handle_value(), browsing_context_id, r),
    {
        self.ensure_ready()?;
        Ok(BridgeCall::OpenDevTools { handle: self.handle, tab_id: browsing_context_id.get() })
    }

    /// Open DevTools and inspect the element at the given coordinates.
    pub fn inspect_element(&mut self, browsing_context_id: TabId, x: i32, y: i32) -> (r: Result<BridgeCall, BridgeError>)
        ensures
            *final(self) == *old(self),
            inspect_element_planned(old(self).handle_value(), browsing_context_id, x, y, r),
    {
        self.ensure_ready()?;
        Ok(BridgeCall::InspectElement { handle: self.handle, tab_id: browsing_context_id.get(), x: x, y: y })
    }

    /// Request the DOM HTML for the specified page.
    pub fn get_tab_dom_html(&mut self, browsing_context_id: TabId, request_id: u64) -> (r: Result<BridgeCall, BridgeError>)
        ensures
            *final(self) == *old(self),
            get_tab_dom_html_planned(old(self).handle_value(), browsing_context_id, request_id, r),
    {
        self.ensure_ready()?;
        Ok(BridgeCall::GetTabDomHtml { handle: self.handle, tab_id: browsing_context_id.get(), request_id: request_id })
    }

    /// Stop a find-in-page session.
    pub fn stop_finding(&mut self, browsing_context_id: TabId, action: ChromeStopFindAction) -> (r: Result<BridgeCall, BridgeError>)
        ensures
            *final(self) == *old(self),
            stop_finding_planned(old(self).handle_value(), browsing_context_id, action, r),
    {
        self.ensure_ready()?;
        Ok(BridgeCall::StopFinding { handle: self.handle, tab_id: browsing_context_id.get(), action: action.to_ffi() })
    }

    /// Pause an in-progress download.
    pub fn pause_download(&mut self, download_id: ChromeDownloadId) -> (r: Result<BridgeCall, BridgeError>)
        ensures
            *final(self) == *old(self),
            pause_download_planned(old(self).handle_value(), download_id, r),
    {
        self.ensure_ready()?;
        Ok(BridgeCall::PauseDownload { handle: self.handle, download_id: download_id.get() })
    }

    /// Resume a paused download.
    pub fn resume_download(&mut self, download_id: ChromeDownloadId) -> (r: Result<BridgeCall, BridgeError>)
        ensures
            *final(self) == *old(self),
            resume_download_planned(old(self).handle_value(), download_id, r),
    {
        self.ensure_ready()?;
        Ok(BridgeCall::ResumeDownload { handle: self.handle, download_id: download_id.get() })
    }

    /// Cancel an active download.
    pub fn cancel_download(&mut self, download_id: ChromeDownloadId) -> (r: Result<BridgeCall, BridgeError>)
        ensures
            *final(self) == *old(self),
            cancel_download_planned(old(self).handle_value(), download_id, r),
    {
        self.ensure_ready()?;
        Ok(BridgeCall::CancelDownload { handle: self.handle, download_id: download_id.get() })
    }

    /// Cancel a host-owned drag session.
    pub fn send_drag_cancel(&mut self, session_id: u64, browsing_context_id: TabId) -> (r: Result<BridgeCall, BridgeError>)
        ensures
            *final(self) == *old(self),
            send_drag_cancel_planned(old(self).handle_value(), session_id, browsing_context_id, r),
    {
        self.ensure_ready()?;
        Ok(BridgeCall::SendDragCancel { handle: self.handle, session_id: session_id, tab_id: browsing_context_id.get() })
    }

    /// Notify the backend that the active external drag left the page.
    pub fn send_external_drag_leave(&mut self, browsing_context_id: TabId) -> (r: Result<BridgeCall, BridgeError>)
        ensures
            *final(self) == *old(self),
            send_external_drag_leave_planned(old(self).handle_value(), browsing_context_id, r),
    {
        self.ensure_ready()?;
        Ok(BridgeCall::SendExternalDragLeave { handle: self.handle, tab_id: browsing_context_id.get() })
    }

    /// Finish composing IME text with the specified behavior.
    pub fn finish_composing_text(&mut self, browsing_context_id: TabId, behavior: ChromeConfirmCompositionBehavior) -> (r: Result<BridgeCall, BridgeError>)
        ensures
            *final(self) == *old(self),
            finish_composing_text_planned(old(self).handle_value(), browsing_context_id, behavior, r),
    {
        self.ensure_ready()?;
        Ok(BridgeCall::FinishComposingText { handle: self.handle, tab_id: browsing_context_id.get(), behavior: confirm_behavior_to_ffi(behavior) })
    }

    /// Finish composing IME text inside an extension popup.
    pub fn finish_extension_popup_composing_text(&mut self, popup_id: PopupId, behavior: ChromeConfirmCompositionBehavior) -> (r: Result<BridgeCall, BridgeError>)
        ensures
            *final(self) == *old(self),
            finish_extension_popup_composing_text_planned(old(self).handle_value(), popup_id, behavior, r),
    {
        self.ensure_ready()?;
        Ok(BridgeCall::FinishExtensionPopupComposingText { handle: self.handle, popup_id: popup_id.get(), behavior: confirm_behavior_to_ffi(behavior) })
    }

    /// Update whether an extension popup has focus.
    pub fn set_extension_popup_focus(&mut self, popup_id: PopupId, focused: bool) -> (r: Result<BridgeCall, BridgeError>)
        ensures
            *final(self) == *old(self),
            set_extension_popup_focus_planned(old(self).handle_value(), popup_id, focused, r),
    {
        self.ensure_ready()?;
        Ok(BridgeCall::SetExtensionPopupFocus { handle: self.handle, popup_id: popup_id.get(), focused: focused })
    }

    /// Update the size of an extension popup.
    pub fn set_extension_popup_size(&mut self, popup_id: PopupId, width: u32, height: u32) -> (r: Result<BridgeCall, BridgeError>)
        ensures
            *final(self) == *old(self),
            set_extension_popup_size_planned(old(self).handle_value(), popup_id, width, height, r),
    {
        self.ensure_ready()?;
        Ok(BridgeCall::SetExtensionPopupSize { handle: self.handle, popup_id: popup_id.get(), width: width, height: height })
    }

    /// Update the page background policy of the specified extension popup.
    pub fn set_extension_popup_background_policy(&mut self, popup_id: PopupId, policy: ChromeBackgroundPolicy) -> (r: Result<BridgeCall, BridgeError>)
        ensures
            *final(self) == *old(self),
            set_extension_popup_background_policy_planned(old(self).handle_value(), popup_id, policy, r),
    {
        self.ensure_ready()?;
        Ok(BridgeCall::SetExtensionPopupBackgroundPolicy { handle: self.handle, popup_id: popup_id.get(), transparent: is_transparent(policy) })
    }

    /// Close an extension popup.
    pub fn close_extension_popup(&mut self, popup_id: PopupId) -> (r: Result<BridgeCall, BridgeError>)
        ensures
            *final(self) == *old(self),
            close_extension_popup_planned(old(self).handle_value(), popup_id, r),
    {
        self.ensure_ready()?;
        Ok(BridgeCall::CloseExtensionPopup { handle: self.handle, popup_id: popup_id.get() })
    }

    /// Execute a context menu command for the given menu.
    pub fn execute_context_menu_command(&mut self, menu_id: u64, command_id: i32, event_flags: i32) -> (r: Result<BridgeCall, BridgeError>)
        ensures
            *final(self) == *old(self),
            execute_context_menu_command_planned(old(self).handle_value(), menu_id, command_id, event_flags, r),
    {
        self.ensure_ready()?;
        Ok(BridgeCall::ExecuteContextMenuCommand { handle: self.handle, menu_id: menu_id, command_id: command_id, event_flags: event_flags })
    }

    /// Dismiss a host-owned choice menu without a selection.
    pub fn dismiss_choice_menu(&mut self, request_id: u64) -> (r: Result<BridgeCall, BridgeError>)
        ensures
            *final(self) == *old(self),
            dismiss_choice_menu_planned(old(self).handle_value(), request_id, r),
    {
        self.ensure_ready()?;
        Ok(BridgeCall::DismissChoiceMenu { handle: self.handle, request_id: request_id })
    }

    /// Dismiss the context menu with the given id.
    pub fn dismiss_context_menu(&mut self, menu_id: u64) -> (r: Result<BridgeCall, BridgeError>)
        ensures
            *final(self) == *old(self),
            dismiss_context_menu_planned(old(self).handle_value(), menu_id, r),
    {
        self.ensure_ready()?;
        Ok(BridgeCall::DismissContextMenu { handle: self.handle, menu_id: menu_id })
    }

    /// Request a graceful shutdown from the backend.
    pub fn request_shutdown(&mut self, request_id: u64) -> (r: Result<BridgeCall, BridgeError>)
        ensures
            *final(self) == *old(self),
            request_shutdown_planned(old(self).handle_value(), request_id, r),
    {
        self.ensure_ready()?;
        Ok(BridgeCall::RequestShutdown { handle: self.handle, request_id: request_id })
    }

    /// Respond to a shutdown confirmation request.
    pub fn confirm_shutdown(&mut self, request_id: u64, proceed: bool) -> (r: Result<BridgeCall, BridgeError>)
        ensures
            *final(self) == *old(self),
            confirm_shutdown_planned(old(self).handle_value(), request_id, proceed, r),
    {
        self.ensure_ready()?;
        Ok(BridgeCall::ConfirmShutdown { handle: self.handle, request_id: request_id, proceed: proceed })
    }

    /// Force an immediate shutdown without confirmations.
    pub fn force_shutdown(&mut self) -> (r: Result<BridgeCall, BridgeError>)
        ensures
            *final(self) == *old(self),
            force_shutdown_planned(old(self).handle_value(), r),
    {
        self.ensure_ready()?;
        Ok(BridgeCall::ForceShutdown { handle: self.handle })
    }
}

/// Check a base bundle identifier before it is handed to the bridge.
pub fn set_base_bundle_id(bundle_id: &str) -> (r: Result<String, BridgeError>)
    ensures
        match r {
            Ok(id) => !has_nul(bundle_id@) && id@ == bundle_id@,
            Err(e) => has_nul(bundle_id@) && e == BridgeError::InvalidInput,
        },
{
    c_string(bundle_id)
}

/// Check the bridge client to connect: there must be one.
pub fn connect_inherited(handle: u64) -> (r: Result<u64, BridgeError>)
    ensures
        r == (if handle == 0 {
            Err(BridgeError::InvalidState)
        } else {
            Ok(handle)
        }),
{
    if handle == 0 {
        Err(BridgeError::InvalidState)
    } else {
        Ok(handle)
    }
}

/// The client over a bridge client once the bridge answered the connection:
/// a refused connection is a connection failure.
pub fn connected_client(handle: u64, connected: bool) -> (r: Result<IpcClient, BridgeError>)
    ensures
        connected ==> (r matches Ok(client) && client.handle_value() == handle),
        !connected ==> (r matches Err(e) && e == BridgeError::ConnectionFailed),
{
    if connected {
        Ok(IpcClient::from_handle(handle))
    } else {
        Err(BridgeError::ConnectionFailed)
    }
}

} // verus!
