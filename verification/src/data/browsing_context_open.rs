//! Browsing-context open hints, responses and results in Chromium terms.

use vstd::prelude::*;

use crate::data::ids::TabId;

verus! {

#[derive(Debug, Clone, Copy, PartialEq, Eq, Structural)]
pub enum ChromeBrowsingContextOpenHint {
    Unknown,
    CurrentContext,
    NewForegroundContext,
    NewBackgroundContext,
}

#[derive(Debug, Clone, Copy, PartialEq, Eq, Structural)]
pub enum ChromeBrowsingContextOpenResponse {
    AllowNewContext { activate: bool },
    AllowExistingContext { tab_id: TabId, activate: bool },
    Deny,
}

#[derive(Debug, Clone, Copy, PartialEq, Eq, Structural)]
pub enum ChromeBrowsingContextOpenResult {
    OpenedNewContext { tab_id: TabId },
    OpenedExistingContext { tab_id: TabId },
    Denied,
    Aborted,
}

} // verus!
