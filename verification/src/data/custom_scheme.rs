//! Custom scheme request/response models.

use vstd::prelude::*;

use crate::codes;

verus! {

/// Immutable startup registration for a custom scheme handler.
#[derive(Debug, Clone, PartialEq, Eq)]
pub struct ChromeCustomSchemeRegistration {
    pub scheme: String,
    pub host: String,
}

/// Request method observed for a custom scheme load.
#[derive(Debug, Clone, PartialEq, Eq)]
pub enum ChromeCustomSchemeRequestMethod {
    Get,
    Other(String),
}

impl ChromeCustomSchemeRequestMethod {
    /// The method name as it appears on the wire.
    pub fn as_str(&self) -> (s: &str)
        ensures
            match self {
                ChromeCustomSchemeRequestMethod::Get => s@ == "GET"@,
                ChromeCustomSchemeRequestMethod::Other(value) => s@ == value@,
            },
    {
        match self {
            ChromeCustomSchemeRequestMethod::Get => "GET",
            ChromeCustomSchemeRequestMethod::Other(value) => value.as_str(),
        }
    }
}

/// A host-routable custom scheme request emitted by the backend.
#[derive(Debug, Clone, PartialEq, Eq)]
pub struct ChromeCustomSchemeRequest {
    pub request_id: u64,
    pub profile_id: String,
    pub url: String,
    pub scheme: String,
    pub host: String,
    pub path: String,
    pub query: Option<String>,
    pub method: ChromeCustomSchemeRequestMethod,
}

/// Host-visible completion result for a custom scheme request.
#[derive(Debug, Clone, Copy, PartialEq, Eq, Structural)]
pub enum ChromeCustomSchemeResponseResult {
    Succeeded,
    NotFound,
    Aborted,
}

pub open spec fn custom_scheme_result_code(r: ChromeCustomSchemeResponseResult) -> u8 {
    match r {
        ChromeCustomSchemeResponseResult::Succeeded => codes::CUSTOM_SCHEME_RESPONSE_OK,
        ChromeCustomSchemeResponseResult::NotFound => codes::CUSTOM_SCHEME_RESPONSE_NOT_FOUND,
        ChromeCustomSchemeResponseResult::Aborted => codes::CUSTOM_SCHEME_RESPONSE_ABORTED,
    }
}

/// Wire code of a custom scheme response result.
pub fn custom_scheme_result_to_ffi(result: ChromeCustomSchemeResponseResult) -> (code: u8)
    ensures
        code == custom_scheme_result_code(result),
{
    match result {
        ChromeCustomSchemeResponseResult::Succeeded => codes::CUSTOM_SCHEME_RESPONSE_OK,
        ChromeCustomSchemeResponseResult::NotFound => codes::CUSTOM_SCHEME_RESPONSE_NOT_FOUND,
        ChromeCustomSchemeResponseResult::Aborted => codes::CUSTOM_SCHEME_RESPONSE_ABORTED,
    }
}

/// Response body and headers for a custom scheme request.
#[derive(Debug, Clone, PartialEq, Eq)]
pub struct ChromeCustomSchemeResponse {
    pub request_id: u64,
    pub result: ChromeCustomSchemeResponseResult,
    pub body: Vec<u8>,
    pub mime_type: String,
    pub content_security_policy: Option<String>,
    pub access_control_allow_origin: Option<String>,
}

} // verus!
