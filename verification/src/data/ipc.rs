//! Tab IPC data models and their wire encoding.

use vstd::prelude::*;

use crate::codes;

verus! {

/// IPC configuration of a tab.
#[derive(Debug, Clone, PartialEq, Eq, Default)]
pub struct TabIpcConfig {
    /// Allowed top-level origins for page-to-host invoke: exact string
    /// equality on origin; when empty, invoke is denied.
    pub allowed_origins: Vec<String>,
}

#[derive(Debug, Clone, PartialEq, Eq)]
pub enum TabIpcPayload {
    Text(String),
    Binary(Vec<u8>),
}

#[derive(Debug, Clone, Copy, PartialEq, Eq, Structural)]
pub enum TabIpcMessageType {
    Request,
    Response,
    Event,
}

#[derive(Debug, Clone, Copy, PartialEq, Eq, Structural)]
pub enum TabIpcErrorCode {
    Timeout,
    Aborted,
    Disconnected,
    IpcDisabled,
    ContextClosed,
    RemoteError,
    ProtocolError,
}

/// Tab IPC message envelope.
#[derive(Debug, Clone, PartialEq, Eq)]
pub struct TabIpcMessage {
    pub channel: String,
    pub message_type: TabIpcMessageType,
    pub request_id: u64,
    pub payload: TabIpcPayload,
    pub content_type: Option<String>,
    pub error_code: Option<TabIpcErrorCode>,
}

pub open spec fn message_type_code(t: TabIpcMessageType) -> u8 {
    match t {
        TabIpcMessageType::Request => codes::IPC_MESSAGE_REQUEST,
        TabIpcMessageType::Response => codes::IPC_MESSAGE_RESPONSE,
        TabIpcMessageType::Event => codes::IPC_MESSAGE_EVENT,
    }
}

pub open spec fn error_code_code(c: TabIpcErrorCode) -> u8 {
    match c {
        TabIpcErrorCode::Timeout => codes::IPC_ERROR_TIMEOUT,
        TabIpcErrorCode::Aborted => codes::IPC_ERROR_ABORTED,
        TabIpcErrorCode::Disconnected => codes::IPC_ERROR_DISCONNECTED,
        TabIpcErrorCode::IpcDisabled => codes::IPC_ERROR_IPC_DISABLED,
        TabIpcErrorCode::ContextClosed => codes::IPC_ERROR_CONTEXT_CLOSED,
        TabIpcErrorCode::RemoteError => codes::IPC_ERROR_REMOTE_ERROR,
        TabIpcErrorCode::ProtocolError => codes::IPC_ERROR_PROTOCOL_ERROR,
    }
}

/// Wire code of an optional error: the "no error" code when absent.
pub open spec fn optional_error_code(c: Option<TabIpcErrorCode>) -> u8 {
    match c {
        Some(c) => error_code_code(c),
        None => codes::IPC_ERROR_NONE,
    }
}

pub fn ipc_message_type_to_ffi(message_type: TabIpcMessageType) -> (code: u8)
    ensures
        code == message_type_code(message_type),
{
    match message_type {
        TabIpcMessageType::Request => codes::IPC_MESSAGE_REQUEST,
        TabIpcMessageType::Response => codes::IPC_MESSAGE_RESPONSE,
        TabIpcMessageType::Event => codes::IPC_MESSAGE_EVENT,
    }
}

/// The value a wire code decodes to.
pub open spec fn ipc_message_type_of(value: u8) -> TabIpcMessageType {
    if value == codes::IPC_MESSAGE_REQUEST {
        TabIpcMessageType::Request
    } else if value == codes::IPC_MESSAGE_RESPONSE {
        TabIpcMessageType::Response
    } else if value == codes::IPC_MESSAGE_EVENT {
        TabIpcMessageType::Event
    } else {
        TabIpcMessageType::Event
    }
}

/// Decode a message type; unknown codes read as `Event`.
pub fn ipc_message_type_from_ffi(value: u8) -> (t: TabIpcMessageType)
    ensures
        t == ipc_message_type_of(value),
        message_type_code(t) == value || (t == TabIpcMessageType::Event && forall|
            x: TabIpcMessageType,
        | message_type_code(x) != value),
{
    match value {
        codes::IPC_MESSAGE_REQUEST => TabIpcMessageType::Request,
        codes::IPC_MESSAGE_RESPONSE => TabIpcMessageType::Response,
        codes::IPC_MESSAGE_EVENT => TabIpcMessageType::Event,
        _ => TabIpcMessageType::Event,
    }
}

pub fn ipc_error_code_to_ffi(error_code: TabIpcErrorCode) -> (code: u8)
    ensures
        code == error_code_code(error_code),
{
    match error_code {
        TabIpcErrorCode::Timeout => codes::IPC_ERROR_TIMEOUT,
        TabIpcErrorCode::Aborted => codes::IPC_ERROR_ABORTED,
        TabIpcErrorCode::Disconnected => codes::IPC_ERROR_DISCONNECTED,
        TabIpcErrorCode::IpcDisabled => codes::IPC_ERROR_IPC_DISABLED,
        TabIpcErrorCode::ContextClosed => codes::IPC_ERROR_CONTEXT_CLOSED,
        TabIpcErrorCode::RemoteError => codes::IPC_ERROR_REMOTE_ERROR,
        TabIpcErrorCode::ProtocolError => codes::IPC_ERROR_PROTOCOL_ERROR,
    }
}

/// The value a wire code decodes to.
pub open spec fn ipc_error_code_of(value: u8) -> Option<TabIpcErrorCode> {
    if value == codes::IPC_ERROR_NONE {
        None
    } else if value == codes::IPC_ERROR_TIMEOUT {
        Some(TabIpcErrorCode::Timeout)
    } else if value == codes::IPC_ERROR_ABORTED {
        Some(TabIpcErrorCode::Aborted)
    } else if value == codes::IPC_ERROR_DISCONNECTED {
        Some(TabIpcErrorCode::Disconnected)
    } else if value == codes::IPC_ERROR_IPC_DISABLED {
        Some(TabIpcErrorCode::IpcDisabled)
    } else if value == codes::IPC_ERROR_CONTEXT_CLOSED {
        Some(TabIpcErrorCode::ContextClosed)
    } else if value == codes::IPC_ERROR_REMOTE_ERROR {
        Some(TabIpcErrorCode::RemoteError)
    } else if value == codes::IPC_ERROR_PROTOCOL_ERROR {
        Some(TabIpcErrorCode::ProtocolError)
    } else {
        Some(TabIpcErrorCode::ProtocolError)
    }
}

/// Decode an optional error: the "no error" code gives `None`, an unknown
/// code reads as a protocol error.
pub fn ipc_error_code_from_ffi(value: u8) -> (c: Option<TabIpcErrorCode>)
    ensures
        c == ipc_error_code_of(value),
        optional_error_code(c) == value || (c == Some(TabIpcErrorCode::ProtocolError) && forall|
            x: Option<TabIpcErrorCode>,
        | optional_error_code(x) != value),
{
    match value {
        codes::IPC_ERROR_NONE => None,
        codes::IPC_ERROR_TIMEOUT => Some(TabIpcErrorCode::Timeout),
        codes::IPC_ERROR_ABORTED => Some(TabIpcErrorCode::Aborted),
        codes::IPC_ERROR_DISCONNECTED => Some(TabIpcErrorCode::Disconnected),
        codes::IPC_ERROR_IPC_DISABLED => Some(TabIpcErrorCode::IpcDisabled),
        codes::IPC_ERROR_CONTEXT_CLOSED => Some(TabIpcErrorCode::ContextClosed),
        codes::IPC_ERROR_REMOTE_ERROR => Some(TabIpcErrorCode::RemoteError),
        codes::IPC_ERROR_PROTOCOL_ERROR => Some(TabIpcErrorCode::ProtocolError),
        _ => Some(TabIpcErrorCode::ProtocolError),
    }
}

/// The payload a bridge event carries: binary when tagged binary and
/// non-empty, otherwise the text.
pub open spec fn spec_ipc_payload(kind: u8, text: String, binary: Vec<u8>) -> TabIpcPayload {
    if kind == codes::IPC_PAYLOAD_BINARY && binary@.len() > 0 {
        TabIpcPayload::Binary(binary)
    } else {
        TabIpcPayload::Text(text)
    }
}

pub fn ipc_payload_from_ffi(kind: u8, text: String, binary: Vec<u8>) -> (p: TabIpcPayload)
    ensures
        p == spec_ipc_payload(kind, text, binary),
{
    if kind == codes::IPC_PAYLOAD_BINARY && binary.len() > 0 {
        TabIpcPayload::Binary(binary)
    } else {
        TabIpcPayload::Text(text)
    }
}

/// Distinct message types and distinct optional errors have distinct codes.
pub proof fn lemma_ipc_codes_injective(
    a: TabIpcMessageType,
    b: TabIpcMessageType,
    c: Option<TabIpcErrorCode>,
    d: Option<TabIpcErrorCode>,
)
    ensures
        message_type_code(a) == message_type_code(b) ==> a == b,
        optional_error_code(c) == optional_error_code(d) ==> c == d,
{
}

/// Decoding undoes encoding: every value with a wire code decodes back to itself.
pub proof fn lemma_ipc_codes_round_trip()
    ensures
        forall|x: TabIpcMessageType| #[trigger] ipc_message_type_of(message_type_code(x)) == x,
        forall|x: Option<TabIpcErrorCode>| #[trigger] ipc_error_code_of(optional_error_code(x)) == x,
{
}

} // verus!
