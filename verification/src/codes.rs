//! Numeric codes of the bridge wire format.
//!
//! Every enumerated value that crosses the C boundary travels as one of these
//! codes. The decoders and encoders of the library are stated against these
//! tables.

use vstd::prelude::*;

verus! {

// Event kinds.
pub const EVENT_SURFACE_HANDLE_UPDATED: u8 = 0;
pub const EVENT_EXTENSION_POPUP_OPENED: u8 = 1;
pub const EVENT_EXTENSION_POPUP_SURFACE_HANDLE_UPDATED: u8 = 2;
pub const EVENT_EXTENSION_POPUP_PREFERRED_SIZE_CHANGED: u8 = 3;
pub const EVENT_EXTENSION_POPUP_CONTEXT_MENU_REQUESTED: u8 = 4;
pub const EVENT_EXTENSION_POPUP_CHOICE_MENU_REQUESTED: u8 = 5;
pub const EVENT_EXTENSION_POPUP_CURSOR_CHANGED: u8 = 6;
pub const EVENT_EXTENSION_POPUP_TITLE_UPDATED: u8 = 7;
pub const EVENT_EXTENSION_POPUP_JAVASCRIPT_DIALOG_REQUESTED: u8 = 8;
pub const EVENT_EXTENSION_POPUP_CLOSE_REQUESTED: u8 = 9;
pub const EVENT_EXTENSION_POPUP_RENDER_PROCESS_GONE: u8 = 10;
pub const EVENT_EXTENSION_POPUP_CLOSED: u8 = 11;
pub const EVENT_TAB_CREATED: u8 = 12;
pub const EVENT_DEV_TOOLS_OPENED: u8 = 13;
pub const EVENT_IME_BOUNDS_UPDATED: u8 = 14;
pub const EVENT_EXTENSION_POPUP_IME_BOUNDS_UPDATED: u8 = 15;
pub const EVENT_SHUTDOWN_BLOCKED: u8 = 16;
pub const EVENT_SHUTDOWN_PROCEEDING: u8 = 17;
pub const EVENT_SHUTDOWN_CANCELLED: u8 = 18;
pub const EVENT_CONTEXT_MENU_REQUESTED: u8 = 19;
pub const EVENT_CHOICE_MENU_REQUESTED: u8 = 20;
pub const EVENT_TAB_OPEN_REQUESTED: u8 = 21;
pub const EVENT_TAB_OPEN_RESOLVED: u8 = 22;
pub const EVENT_NAVIGATION_STATE_CHANGED: u8 = 23;
pub const EVENT_CURSOR_CHANGED: u8 = 24;
pub const EVENT_TITLE_UPDATED: u8 = 25;
pub const EVENT_FAVICON_URL_UPDATED: u8 = 26;
pub const EVENT_BEFORE_UNLOAD_DIALOG_REQUESTED: u8 = 27;
pub const EVENT_JAVASCRIPT_DIALOG_REQUESTED: u8 = 28;
pub const EVENT_TAB_CLOSED: u8 = 29;
pub const EVENT_TAB_RESIZE_ACKNOWLEDGED: u8 = 30;
pub const EVENT_TAB_DOM_HTML_READ: u8 = 31;
pub const EVENT_FIND_REPLY: u8 = 32;
pub const EVENT_TAB_IPC_MESSAGE_RECEIVED: u8 = 33;
pub const EVENT_DRAG_START_REQUESTED: u8 = 34;
pub const EVENT_EXTERNAL_DRAG_OPERATION_CHANGED: u8 = 35;
pub const EVENT_EXTENSIONS_LISTED: u8 = 36;
pub const EVENT_PROMPT_UI_REQUESTED: u8 = 37;
pub const EVENT_PROMPT_UI_RESOLVED: u8 = 38;
pub const EVENT_CUSTOM_SCHEME_REQUEST_RECEIVED: u8 = 39;
pub const EVENT_EXTENSION_RUNTIME_WARNING: u8 = 40;
pub const EVENT_PROMPT_UI_OPENED: u8 = 41;
pub const EVENT_PROMPT_UI_CLOSED: u8 = 42;
pub const EVENT_DOWNLOAD_CREATED: u8 = 43;
pub const EVENT_DOWNLOAD_UPDATED: u8 = 44;
pub const EVENT_DOWNLOAD_COMPLETED: u8 = 45;

// Event wait status.
pub const WAIT_STATUS_EVENT_AVAILABLE: i32 = 0;
pub const WAIT_STATUS_TIMED_OUT: i32 = 1;
pub const WAIT_STATUS_DISCONNECTED: i32 = 2;
pub const WAIT_STATUS_CLOSED: i32 = 3;

// Surface handle kinds.
pub const SURFACE_HANDLE_MAC_CA_CONTEXT_ID: u8 = 0;
pub const SURFACE_HANDLE_WINDOWS_HWND: u8 = 1;

// Tab visibility.
pub const TAB_VISIBILITY_VISIBLE: u8 = 0;
pub const TAB_VISIBILITY_HIDDEN: u8 = 1;

// Stop-find actions.
pub const STOP_FIND_ACTION_CLEAR_SELECTION: u8 = 0;
pub const STOP_FIND_ACTION_KEEP_SELECTION: u8 = 1;
pub const STOP_FIND_ACTION_ACTIVATE_SELECTION: u8 = 2;

// Browsing context IPC policy and capability policy.
pub const IPC_POLICY_DENY: u8 = 0;
pub const IPC_POLICY_ALLOW: u8 = 1;
pub const CAPABILITY_POLICY_ALLOW: u8 = 0;
pub const CAPABILITY_POLICY_DENY: u8 = 1;

// IPC message types, payload kinds and error codes.
pub const IPC_MESSAGE_REQUEST: u8 = 0;
pub const IPC_MESSAGE_RESPONSE: u8 = 1;
pub const IPC_MESSAGE_EVENT: u8 = 2;
pub const IPC_PAYLOAD_TEXT: u8 = 0;
pub const IPC_PAYLOAD_BINARY: u8 = 1;
pub const IPC_ERROR_NONE: u8 = 0;
pub const IPC_ERROR_TIMEOUT: u8 = 1;
pub const IPC_ERROR_ABORTED: u8 = 2;
pub const IPC_ERROR_DISCONNECTED: u8 = 3;
pub const IPC_ERROR_IPC_DISABLED: u8 = 4;
pub const IPC_ERROR_CONTEXT_CLOSED: u8 = 5;
pub const IPC_ERROR_REMOTE_ERROR: u8 = 6;
pub const IPC_ERROR_PROTOCOL_ERROR: u8 = 7;

// Prompt UI kinds.
pub const PROMPT_UI_KIND_UNKNOWN: u8 = 0;
pub const PROMPT_UI_KIND_PERMISSION_PROMPT: u8 = 1;
pub const PROMPT_UI_KIND_DOWNLOAD_PROMPT: u8 = 2;
pub const PROMPT_UI_KIND_EXTENSION_INSTALL_PROMPT: u8 = 3;
pub const PROMPT_UI_KIND_EXTENSION_UNINSTALL_PROMPT: u8 = 4;
pub const PROMPT_UI_KIND_PRINT_PREVIEW_DIALOG: u8 = 5;
pub const PROMPT_UI_KIND_FORM_RESUBMISSION_PROMPT: u8 = 6;

// Prompt UI permission types.
pub const PROMPT_UI_PERMISSION_GEOLOCATION: u8 = 0;
pub const PROMPT_UI_PERMISSION_NOTIFICATIONS: u8 = 1;
pub const PROMPT_UI_PERMISSION_AUDIO_CAPTURE: u8 = 2;
pub const PROMPT_UI_PERMISSION_VIDEO_CAPTURE: u8 = 3;

// Form resubmission reasons.
pub const FORM_RESUBMISSION_REASON_RELOAD: u8 = 0;
pub const FORM_RESUBMISSION_REASON_BACK_FORWARD: u8 = 1;
pub const FORM_RESUBMISSION_REASON_OTHER: u8 = 2;

// Prompt UI resolution results.
pub const PROMPT_UI_RESOLUTION_ALLOWED: u8 = 0;
pub const PROMPT_UI_RESOLUTION_DENIED: u8 = 1;
pub const PROMPT_UI_RESOLUTION_ABORTED: u8 = 2;

// Prompt UI dialog results.
pub const PROMPT_UI_DIALOG_PROCEEDED: u8 = 0;
pub const PROMPT_UI_DIALOG_CANCELED: u8 = 1;
pub const PROMPT_UI_DIALOG_ABORTED: u8 = 2;

// Prompt UI close reasons.
pub const PROMPT_UI_CLOSE_USER_CANCELED: u8 = 0;
pub const PROMPT_UI_CLOSE_HOST_FORCED: u8 = 1;
pub const PROMPT_UI_CLOSE_SYSTEM_DISMISSED: u8 = 2;

// Extension install and uninstall prompt results.
pub const EXTENSION_INSTALL_ACCEPTED: u8 = 0;
pub const EXTENSION_INSTALL_ACCEPTED_WITH_WITHHELD_PERMISSIONS: u8 = 1;
pub const EXTENSION_INSTALL_USER_CANCELED: u8 = 2;
pub const EXTENSION_INSTALL_ABORTED: u8 = 3;
pub const EXTENSION_UNINSTALL_ACCEPTED: u8 = 0;
pub const EXTENSION_UNINSTALL_USER_CANCELED: u8 = 1;
pub const EXTENSION_UNINSTALL_ABORTED: u8 = 2;
pub const EXTENSION_UNINSTALL_FAILED: u8 = 3;

// Download prompt results and reasons, download states and outcomes.
pub const DOWNLOAD_PROMPT_ALLOWED: u8 = 0;
pub const DOWNLOAD_PROMPT_DENIED: u8 = 1;
pub const DOWNLOAD_PROMPT_ABORTED: u8 = 2;
pub const DOWNLOAD_REASON_NONE: u8 = 0;
pub const DOWNLOAD_REASON_UNEXPECTED: u8 = 1;
pub const DOWNLOAD_REASON_SAVE_AS: u8 = 2;
pub const DOWNLOAD_REASON_PREFERENCE: u8 = 3;
pub const DOWNLOAD_REASON_NAME_TOO_LONG: u8 = 4;
pub const DOWNLOAD_REASON_TARGET_CONFLICT: u8 = 5;
pub const DOWNLOAD_REASON_TARGET_PATH_NOT_WRITEABLE: u8 = 6;
pub const DOWNLOAD_REASON_TARGET_NO_SPACE: u8 = 7;
pub const DOWNLOAD_REASON_DLP_BLOCKED: u8 = 8;
pub const DOWNLOAD_STATE_IN_PROGRESS: u8 = 0;
pub const DOWNLOAD_STATE_PAUSED: u8 = 1;
pub const DOWNLOAD_STATE_COMPLETED: u8 = 2;
pub const DOWNLOAD_STATE_CANCELLED: u8 = 3;
pub const DOWNLOAD_STATE_INTERRUPTED: u8 = 4;
pub const DOWNLOAD_OUTCOME_SUCCEEDED: u8 = 0;
pub const DOWNLOAD_OUTCOME_CANCELLED: u8 = 1;
pub const DOWNLOAD_OUTCOME_INTERRUPTED: u8 = 2;

// Tab-open hints and results.
pub const TAB_OPEN_HINT_UNKNOWN: u8 = 0;
pub const TAB_OPEN_HINT_CURRENT_CONTEXT: u8 = 1;
pub const TAB_OPEN_HINT_NEW_FOREGROUND_CONTEXT: u8 = 2;
pub const TAB_OPEN_HINT_NEW_BACKGROUND_CONTEXT: u8 = 3;
pub const TAB_OPEN_HINT_NEW_WINDOW: u8 = 4;
pub const TAB_OPEN_HINT_POPUP: u8 = 5;
pub const TAB_OPEN_RESULT_OPENED_NEW_CONTEXT: u8 = 0;
pub const TAB_OPEN_RESULT_OPENED_EXISTING_CONTEXT: u8 = 1;
pub const TAB_OPEN_RESULT_DENIED: u8 = 2;
pub const TAB_OPEN_RESULT_ABORTED: u8 = 3;

// Context menu item types.
pub const MENU_ITEM_COMMAND: u8 = 0;
pub const MENU_ITEM_CHECK: u8 = 1;
pub const MENU_ITEM_RADIO: u8 = 2;
pub const MENU_ITEM_SEPARATOR: u8 = 3;
pub const MENU_ITEM_BUTTON_ITEM: u8 = 4;
pub const MENU_ITEM_SUBMENU: u8 = 5;
pub const MENU_ITEM_ACTIONABLE_SUBMENU: u8 = 6;
pub const MENU_ITEM_HIGHLIGHTED: u8 = 7;
pub const MENU_ITEM_TITLE: u8 = 8;

// Choice menu item types and text directions.
pub const CHOICE_MENU_ITEM_OPTION: u8 = 0;
pub const CHOICE_MENU_ITEM_CHECKABLE_OPTION: u8 = 1;
pub const CHOICE_MENU_ITEM_GROUP: u8 = 2;
pub const CHOICE_MENU_ITEM_SEPARATOR: u8 = 3;
pub const CHOICE_MENU_ITEM_SUB_MENU: u8 = 4;
pub const CHOICE_MENU_TEXT_DIRECTION_LEFT_TO_RIGHT: u8 = 0;
pub const CHOICE_MENU_TEXT_DIRECTION_RIGHT_TO_LEFT: u8 = 1;

// Before-unload reasons and JavaScript dialog types.
pub const BEFORE_UNLOAD_REASON_CLOSE_TAB: u8 = 0;
pub const BEFORE_UNLOAD_REASON_NAVIGATE: u8 = 1;
pub const BEFORE_UNLOAD_REASON_RELOAD: u8 = 2;
pub const BEFORE_UNLOAD_REASON_WINDOW_CLOSE: u8 = 3;
pub const JAVASCRIPT_DIALOG_ALERT: u8 = 0;
pub const JAVASCRIPT_DIALOG_CONFIRM: u8 = 1;
pub const JAVASCRIPT_DIALOG_PROMPT: u8 = 2;
pub const JAVASCRIPT_DIALOG_BEFORE_UNLOAD: u8 = 3;

// Icon data kinds.
pub const ICON_DATA_NONE: u8 = 0;
pub const ICON_DATA_URL: u8 = 1;
pub const ICON_DATA_PNG: u8 = 2;
pub const ICON_DATA_BINARY: u8 = 3;

// Input encodings.
pub const KEY_EVENT_RAW_KEY_DOWN: u8 = 0;
pub const KEY_EVENT_KEY_DOWN: u8 = 1;
pub const KEY_EVENT_KEY_UP: u8 = 2;
pub const KEY_EVENT_CHAR: u8 = 3;
pub const MOUSE_EVENT_DOWN: u8 = 0;
pub const MOUSE_EVENT_UP: u8 = 1;
pub const MOUSE_EVENT_MOVE: u8 = 2;
pub const MOUSE_EVENT_ENTER: u8 = 3;
pub const MOUSE_EVENT_LEAVE: u8 = 4;
pub const MOUSE_BUTTON_NONE: u8 = 0;
pub const MOUSE_BUTTON_LEFT: u8 = 1;
pub const MOUSE_BUTTON_MIDDLE: u8 = 2;
pub const MOUSE_BUTTON_RIGHT: u8 = 3;
pub const MOUSE_BUTTON_BACK: u8 = 4;
pub const MOUSE_BUTTON_FORWARD: u8 = 5;
pub const POINTER_TYPE_UNKNOWN: u8 = 0;
pub const POINTER_TYPE_MOUSE: u8 = 1;
pub const POINTER_TYPE_PEN: u8 = 2;
pub const POINTER_TYPE_TOUCH: u8 = 3;
pub const POINTER_TYPE_ERASER: u8 = 4;
pub const SCROLL_BY_PRECISE_PIXEL: u8 = 0;
pub const SCROLL_BY_PIXEL: u8 = 1;
pub const SCROLL_BY_LINE: u8 = 2;
pub const SCROLL_BY_PAGE: u8 = 3;
pub const SCROLL_BY_DOCUMENT: u8 = 4;

// IME text span encodings.
pub const IME_SPAN_TYPE_COMPOSITION: u8 = 0;
pub const IME_SPAN_TYPE_SUGGESTION: u8 = 1;
pub const IME_SPAN_TYPE_MISSPELLING_SUGGESTION: u8 = 2;
pub const IME_SPAN_TYPE_AUTOCORRECT: u8 = 3;
pub const IME_SPAN_TYPE_GRAMMAR_SUGGESTION: u8 = 4;
pub const IME_SPAN_THICKNESS_NONE: u8 = 0;
pub const IME_SPAN_THICKNESS_THIN: u8 = 1;
pub const IME_SPAN_THICKNESS_THICK: u8 = 2;
pub const IME_SPAN_UNDERLINE_NONE: u8 = 0;
pub const IME_SPAN_UNDERLINE_SOLID: u8 = 1;
pub const IME_SPAN_UNDERLINE_DOT: u8 = 2;
pub const IME_SPAN_UNDERLINE_DASH: u8 = 3;
pub const IME_SPAN_UNDERLINE_SQUIGGLE: u8 = 4;

// Drag operation bits.
pub const DRAG_OPERATION_COPY: u32 = 1;
pub const DRAG_OPERATION_LINK: u32 = 2;
pub const DRAG_OPERATION_MOVE: u32 = 16;

// Tab-open responses.
pub const TAB_OPEN_RESPONSE_ALLOW_NEW_CONTEXT: u8 = 0;
pub const TAB_OPEN_RESPONSE_ALLOW_EXISTING_CONTEXT: u8 = 1;
pub const TAB_OPEN_RESPONSE_DENY: u8 = 2;

// Custom scheme response results.
pub const CUSTOM_SCHEME_RESPONSE_OK: u8 = 0;
pub const CUSTOM_SCHEME_RESPONSE_NOT_FOUND: u8 = 1;
pub const CUSTOM_SCHEME_RESPONSE_ABORTED: u8 = 2;

// Composition confirmation behaviors.
pub const CONFIRM_COMPOSITION_DO_NOT_KEEP_SELECTION: u8 = 0;
pub const CONFIRM_COMPOSITION_KEEP_SELECTION: u8 = 1;

// Edit actions.
pub const EDIT_ACTION_UNDO: u8 = 0;
pub const EDIT_ACTION_REDO: u8 = 1;
pub const EDIT_ACTION_CUT: u8 = 2;
pub const EDIT_ACTION_COPY: u8 = 3;
pub const EDIT_ACTION_PASTE: u8 = 4;
pub const EDIT_ACTION_SELECT_ALL: u8 = 5;

// Cursor types; a code not listed here stands for the default cursor.
pub const CURSOR_CROSSHAIR: u8 = 1;
pub const CURSOR_POINTER: u8 = 2;
pub const CURSOR_MOVE: u8 = 3;
pub const CURSOR_TEXT: u8 = 4;
pub const CURSOR_WAIT: u8 = 5;
pub const CURSOR_HELP: u8 = 6;
pub const CURSOR_PROGRESS: u8 = 7;
pub const CURSOR_NOT_ALLOWED: u8 = 8;
pub const CURSOR_CONTEXT_MENU: u8 = 9;
pub const CURSOR_CELL: u8 = 10;
pub const CURSOR_VERTICAL_TEXT: u8 = 11;
pub const CURSOR_ALIAS: u8 = 12;
pub const CURSOR_COPY: u8 = 13;
pub const CURSOR_NO_DROP: u8 = 14;
pub const CURSOR_GRAB: u8 = 15;
pub const CURSOR_GRABBING: u8 = 16;
pub const CURSOR_ALL_SCROLL: u8 = 17;
pub const CURSOR_ZOOM_IN: u8 = 18;
pub const CURSOR_ZOOM_OUT: u8 = 19;
pub const CURSOR_E_RESIZE: u8 = 20;
pub const CURSOR_N_RESIZE: u8 = 21;
pub const CURSOR_NE_RESIZE: u8 = 22;
pub const CURSOR_NW_RESIZE: u8 = 23;
pub const CURSOR_S_RESIZE: u8 = 24;
pub const CURSOR_SE_RESIZE: u8 = 25;
pub const CURSOR_SW_RESIZE: u8 = 26;
pub const CURSOR_W_RESIZE: u8 = 27;
pub const CURSOR_EW_RESIZE: u8 = 28;
pub const CURSOR_NS_RESIZE: u8 = 29;
pub const CURSOR_NESW_RESIZE: u8 = 30;
pub const CURSOR_NWSE_RESIZE: u8 = 31;
pub const CURSOR_COL_RESIZE: u8 = 32;
pub const CURSOR_ROW_RESIZE: u8 = 33;

} // verus!
