//! Events the bridge delivers from the Chromium runtime.

use vstd::prelude::*;

use crate::data::choice_menu::ChromeChoiceMenu;
use crate::data::context_menu::ChromeContextMenu;
use crate::data::cursor::ChromeCursorType;
use crate::data::custom_scheme::ChromeCustomSchemeRequest;
use crate::data::download::{ChromeDownloadCompletion, ChromeDownloadProgress, ChromeDownloadSnapshot};
use crate::data::drag::{ChromeDragOperation, ChromeDragStartRequest};
use crate::data::extension::ChromeExtensionInfo;
use crate::data::find::ChromeFindRect;
use crate::data::ids::{PopupId, TabId};
use crate::data::ime::ChromeImeBoundsUpdate;
use crate::data::ipc::{TabIpcErrorCode, TabIpcMessageType, TabIpcPayload};
use crate::data::lifecycle::{ChromeBeforeUnloadReason, ChromeDialogType};
use crate::data::prompt_ui::{PromptUiCloseReason, PromptUiId, PromptUiKind, PromptUiResolution};
use crate::data::surface::SurfaceHandle;
use crate::data::tab_open::{TabOpenHint, TabOpenResult};

verus! {

/// An event reported by the Chromium runtime over the bridge.
#[derive(Debug, PartialEq, Eq)]
pub enum IpcEvent {
    SurfaceHandleUpdated { profile_id: String, browsing_context_id: TabId, handle: SurfaceHandle },
    ExtensionPopupOpened {
        profile_id: String,
        browsing_context_id: TabId,
        popup_id: u64,
        extension_id: String,
        title: String,
    },
    ExtensionPopupSurfaceHandleUpdated {
        profile_id: String,
        browsing_context_id: TabId,
        popup_id: u64,
        handle: SurfaceHandle,
    },
    ExtensionPopupPreferredSizeChanged {
        profile_id: String,
        browsing_context_id: TabId,
        popup_id: u64,
        width: i32,
        height: i32,
    },
    ExtensionPopupContextMenuRequested {
        profile_id: String,
        browsing_context_id: TabId,
        popup_id: PopupId,
        menu: ChromeContextMenu,
    },
    ExtensionPopupChoiceMenuRequested {
        profile_id: String,
        browsing_context_id: TabId,
        popup_id: PopupId,
        request_id: u64,
        menu: ChromeChoiceMenu,
    },
    ExtensionPopupCursorChanged {
        profile_id: String,
        browsing_context_id: TabId,
        popup_id: PopupId,
        cursor_type: ChromeCursorType,
    },
    ExtensionPopupTitleUpdated {
        profile_id: String,
        browsing_context_id: TabId,
        popup_id: PopupId,
        title: String,
    },
    ExtensionPopupJavaScriptDialogRequested {
        profile_id: String,
        browsing_context_id: TabId,
        popup_id: PopupId,
        request_id: u64,
        dialog_type: ChromeDialogType,
        message: String,
        default_prompt_text: Option<String>,
        reason: ChromeBeforeUnloadReason,
    },
    ExtensionPopupCloseRequested { profile_id: String, browsing_context_id: TabId, popup_id: PopupId },
    ExtensionPopupRenderProcessGone {
        profile_id: String,
        browsing_context_id: TabId,
        popup_id: PopupId,
        crashed: bool,
    },
    ExtensionPopupClosed { profile_id: String, browsing_context_id: TabId, popup_id: u64 },
    TabCreated { profile_id: String, browsing_context_id: TabId, request_id: u64 },
    DevToolsOpened {
        profile_id: String,
        browsing_context_id: TabId,
        inspected_browsing_context_id: TabId,
    },
    ImeBoundsUpdated {
        profile_id: String,
        browsing_context_id: TabId,
        update: ChromeImeBoundsUpdate,
    },
    ExtensionPopupImeBoundsUpdated {
        profile_id: String,
        browsing_context_id: TabId,
        popup_id: PopupId,
        update: ChromeImeBoundsUpdate,
    },
    ShutdownBlocked { request_id: u64, dirty_browsing_context_ids: Vec<TabId> },
    ShutdownProceeding { request_id: u64 },
    ShutdownCancelled { request_id: u64 },
    ContextMenuRequested { profile_id: String, browsing_context_id: TabId, menu: ChromeContextMenu },
    ChoiceMenuRequested {
        profile_id: String,
        browsing_context_id: TabId,
        request_id: u64,
        menu: ChromeChoiceMenu,
    },
    TabOpenRequested {
        profile_id: String,
        request_id: u64,
        source_tab_id: Option<TabId>,
        target_url: String,
        open_hint: TabOpenHint,
        user_gesture: bool,
    },
    TabOpenResolved { profile_id: String, request_id: u64, result: TabOpenResult },
    NavigationStateChanged {
        profile_id: String,
        browsing_context_id: TabId,
        url: String,
        can_go_back: bool,
        can_go_forward: bool,
        is_loading: bool,
    },
    CursorChanged { profile_id: String, browsing_context_id: TabId, cursor_type: ChromeCursorType },
    TitleUpdated { profile_id: String, browsing_context_id: TabId, title: String },
    FaviconUrlUpdated { profile_id: String, browsing_context_id: TabId, url: String },
    BeforeUnloadDialogRequested {
        profile_id: String,
        browsing_context_id: TabId,
        request_id: u64,
        reason: ChromeBeforeUnloadReason,
    },
    JavaScriptDialogRequested {
        profile_id: String,
        browsing_context_id: TabId,
        request_id: u64,
        dialog_type: ChromeDialogType,
        message: String,
        default_prompt_text: Option<String>,
        reason: ChromeBeforeUnloadReason,
    },
    TabClosed { profile_id: String, browsing_context_id: TabId },
    TabResizeAcknowledged { profile_id: String, browsing_context_id: TabId },
    TabDomHtmlRead { profile_id: String, browsing_context_id: TabId, request_id: u64, html: String },
    FindReply {
        profile_id: String,
        browsing_context_id: TabId,
        request_id: u64,
        number_of_matches: i32,
        active_match_ordinal: i32,
        selection_rect: ChromeFindRect,
        final_update: bool,
    },
    TabIpcMessageReceived {
        profile_id: String,
        browsing_context_id: TabId,
        channel: String,
        message_type: TabIpcMessageType,
        request_id: u64,
        payload: TabIpcPayload,
        content_type: Option<String>,
        error_code: Option<TabIpcErrorCode>,
    },
    DragStartRequested {
        profile_id: String,
        browsing_context_id: TabId,
        request: ChromeDragStartRequest,
    },
    ExternalDragOperationChanged {
        profile_id: String,
        browsing_context_id: TabId,
        operation: ChromeDragOperation,
    },
    ExtensionsListed { profile_id: String, extensions: Vec<ChromeExtensionInfo> },
    PromptUiOpenRequested {
        profile_id: String,
        source_tab_id: Option<TabId>,
        request_id: u64,
        kind: PromptUiKind,
    },
    PromptUiResolved {
        profile_id: String,
        source_tab_id: Option<TabId>,
        request_id: u64,
        resolution: PromptUiResolution,
    },
    CustomSchemeRequestReceived { request: ChromeCustomSchemeRequest },
    ExtensionRuntimeWarning { profile_id: String, browsing_context_id: TabId, detail: String },
    PromptUiOpened {
        profile_id: String,
        source_tab_id: Option<TabId>,
        prompt_ui_id: PromptUiId,
        kind: PromptUiKind,
        title: Option<String>,
        modal: bool,
    },
    PromptUiClosed {
        profile_id: String,
        source_tab_id: Option<TabId>,
        prompt_ui_id: PromptUiId,
        kind: PromptUiKind,
        reason: PromptUiCloseReason,
    },
    DownloadCreated { profile_id: String, download: ChromeDownloadSnapshot },
    DownloadUpdated { profile_id: String, download: ChromeDownloadProgress },
    DownloadCompleted { profile_id: String, download: ChromeDownloadCompletion },
}

} // verus!
