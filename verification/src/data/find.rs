//! Find-in-page data models.

use vstd::prelude::*;

use crate::codes;

verus! {

/// Chromium stop-find action.
#[derive(Debug, Clone, Copy, PartialEq, Eq, Structural)]
pub enum ChromeStopFindAction {
    ClearSelection,
    KeepSelection,
    ActivateSelection,
}

pub open spec fn stop_find_action_code(a: ChromeStopFindAction) -> u8 {
    match a {
        ChromeStopFindAction::ClearSelection => codes::STOP_FIND_ACTION_CLEAR_SELECTION,
        ChromeStopFindAction::KeepSelection => codes::STOP_FIND_ACTION_KEEP_SELECTION,
        ChromeStopFindAction::ActivateSelection => codes::STOP_FIND_ACTION_ACTIVATE_SELECTION,
    }
}

impl ChromeStopFindAction {
    /// Wire code of this action.
    pub fn to_ffi(self) -> (code: u8)
        ensures
            code == stop_find_action_code(self),
    {
        match self {
            ChromeStopFindAction::ClearSelection => codes::STOP_FIND_ACTION_CLEAR_SELECTION,
            ChromeStopFindAction::KeepSelection => codes::STOP_FIND_ACTION_KEEP_SELECTION,
            ChromeStopFindAction::ActivateSelection => codes::STOP_FIND_ACTION_ACTIVATE_SELECTION,
        }
    }
}

/// Options for a Chromium find-in-page request.
#[derive(Debug, Clone, PartialEq, Eq)]
pub struct ChromeFindInPageOptions {
    pub query: String,
    pub forward: bool,
    pub match_case: bool,
    pub new_session: bool,
    pub find_match: bool,
}

impl ChromeFindInPageOptions {
    /// A forward, case-insensitive search that starts a new session.
    pub fn new(query: String) -> (options: Self)
        ensures
            options.query == query,
            options.forward,
            !options.match_case,
            options.new_session,
            options.find_match,
    {
        ChromeFindInPageOptions {
            query,
            forward: true,
            match_case: false,
            new_session: true,
            find_match: true,
        }
    }
}

/// Screen-space selection rect reported by find replies.
#[derive(Debug, Clone, Copy, PartialEq, Eq, Default, Structural)]
pub struct ChromeFindRect {
    pub x: i32,
    pub y: i32,
    pub width: i32,
    pub height: i32,
}

} // verus!
