//! How an opener requested a tab, and what the backend did with the request.

use vstd::prelude::*;

use crate::codes;
use crate::data::browsing_context_open::{ChromeBrowsingContextOpenHint, ChromeBrowsingContextOpenResult};
use crate::data::ids::TabId;

verus! {

/// Chromium-facing hint describing how an opener requested a tab.
#[derive(Debug, Clone, Copy, PartialEq, Eq, Structural)]
pub enum TabOpenHint {
    Unknown,
    CurrentTab,
    NewForegroundTab,
    NewBackgroundTab,
    NewWindow,
    Popup,
}

/// The browsing-context hint of a tab hint; window-oriented hints have none.
pub open spec fn spec_open_hint(h: TabOpenHint) -> Option<ChromeBrowsingContextOpenHint> {
    match h {
        TabOpenHint::Unknown => Some(ChromeBrowsingContextOpenHint::Unknown),
        TabOpenHint::CurrentTab => Some(ChromeBrowsingContextOpenHint::CurrentContext),
        TabOpenHint::NewForegroundTab => Some(ChromeBrowsingContextOpenHint::NewForegroundContext),
        TabOpenHint::NewBackgroundTab => Some(ChromeBrowsingContextOpenHint::NewBackgroundContext),
        TabOpenHint::NewWindow | TabOpenHint::Popup => None,
    }
}

impl TabOpenHint {
    /// Convert into the browsing-context hint, only for non-window-open cases.
    pub fn to_browsing_context_open_hint(self) -> (hint: Option<ChromeBrowsingContextOpenHint>)
        ensures
            hint == spec_open_hint(self),
    {
        match self {
            TabOpenHint::Unknown => Some(ChromeBrowsingContextOpenHint::Unknown),
            TabOpenHint::CurrentTab => Some(ChromeBrowsingContextOpenHint::CurrentContext),
            TabOpenHint::NewForegroundTab => Some(ChromeBrowsingContextOpenHint::NewForegroundContext),
            TabOpenHint::NewBackgroundTab => Some(ChromeBrowsingContextOpenHint::NewBackgroundContext),
            TabOpenHint::NewWindow | TabOpenHint::Popup => None,
        }
    }
}

pub open spec fn spec_tab_hint(h: ChromeBrowsingContextOpenHint) -> TabOpenHint {
    match h {
        ChromeBrowsingContextOpenHint::Unknown => TabOpenHint::Unknown,
        ChromeBrowsingContextOpenHint::CurrentContext => TabOpenHint::CurrentTab,
        ChromeBrowsingContextOpenHint::NewForegroundContext => TabOpenHint::NewForegroundTab,
        ChromeBrowsingContextOpenHint::NewBackgroundContext => TabOpenHint::NewBackgroundTab,
    }
}

impl From<ChromeBrowsingContextOpenHint> for TabOpenHint {
    fn from(value: ChromeBrowsingContextOpenHint) -> (h: Self) {
        match value {
            ChromeBrowsingContextOpenHint::Unknown => TabOpenHint::Unknown,
            ChromeBrowsingContextOpenHint::CurrentContext => TabOpenHint::CurrentTab,
            ChromeBrowsingContextOpenHint::NewForegroundContext => TabOpenHint::NewForegroundTab,
            ChromeBrowsingContextOpenHint::NewBackgroundContext => TabOpenHint::NewBackgroundTab,
        }
    }
}

impl vstd::std_specs::convert::FromSpecImpl<ChromeBrowsingContextOpenHint> for TabOpenHint {
    open spec fn obeys_from_spec() -> bool {
        true
    }

    open spec fn from_spec(v: ChromeBrowsingContextOpenHint) -> TabOpenHint {
        spec_tab_hint(v)
    }
}

/// Chromium-facing result emitted after the backend applies a tab-open response.
#[derive(Debug, Clone, Copy, PartialEq, Eq, Structural)]
pub enum TabOpenResult {
    OpenedNewTab { tab_id: TabId },
    OpenedExistingTab { tab_id: TabId },
    Denied,
    Aborted,
}

pub open spec fn spec_context_result(r: TabOpenResult) -> ChromeBrowsingContextOpenResult {
    match r {
        TabOpenResult::OpenedNewTab { tab_id } => ChromeBrowsingContextOpenResult::OpenedNewContext { tab_id },
        TabOpenResult::OpenedExistingTab { tab_id } => ChromeBrowsingContextOpenResult::OpenedExistingContext { tab_id },
        TabOpenResult::Denied => ChromeBrowsingContextOpenResult::Denied,
        TabOpenResult::Aborted => ChromeBrowsingContextOpenResult::Aborted,
    }
}

pub open spec fn spec_tab_result(r: ChromeBrowsingContextOpenResult) -> TabOpenResult {
    match r {
        ChromeBrowsingContextOpenResult::OpenedNewContext { tab_id } => TabOpenResult::OpenedNewTab { tab_id },
        ChromeBrowsingContextOpenResult::OpenedExistingContext { tab_id } => TabOpenResult::OpenedExistingTab { tab_id },
        ChromeBrowsingContextOpenResult::Denied => TabOpenResult::Denied,
        ChromeBrowsingContextOpenResult::Aborted => TabOpenResult::Aborted,
    }
}

impl From<TabOpenResult> for ChromeBrowsingContextOpenResult {
    fn from(value: TabOpenResult) -> (r: Self) {
        match value {
            TabOpenResult::OpenedNewTab { tab_id } => ChromeBrowsingContextOpenResult::OpenedNewContext { tab_id },
            TabOpenResult::OpenedExistingTab { tab_id } => ChromeBrowsingContextOpenResult::OpenedExistingContext { tab_id },
            TabOpenResult::Denied => ChromeBrowsingContextOpenResult::Denied,
            TabOpenResult::Aborted => ChromeBrowsingContextOpenResult::Aborted,
        }
    }
}

impl vstd::std_specs::convert::FromSpecImpl<TabOpenResult> for ChromeBrowsingContextOpenResult {
    open spec fn obeys_from_spec() -> bool {
        true
    }

    open spec fn from_spec(v: TabOpenResult) -> ChromeBrowsingContextOpenResult {
        spec_context_result(v)
    }
}

impl From<ChromeBrowsingContextOpenResult> for TabOpenResult {
    fn from(value: ChromeBrowsingContextOpenResult) -> (r: Self) {
        match value {
            ChromeBrowsingContextOpenResult::OpenedNewContext { tab_id } => TabOpenResult::OpenedNewTab { tab_id },
            ChromeBrowsingContextOpenResult::OpenedExistingContext { tab_id } => TabOpenResult::OpenedExistingTab { tab_id },
            ChromeBrowsingContextOpenResult::Denied => TabOpenResult::Denied,
            ChromeBrowsingContextOpenResult::Aborted => TabOpenResult::Aborted,
        }
    }
}

impl vstd::std_specs::convert::FromSpecImpl<ChromeBrowsingContextOpenResult> for TabOpenResult {
    open spec fn obeys_from_spec() -> bool {
        true
    }

    open spec fn from_spec(v: ChromeBrowsingContextOpenResult) -> TabOpenResult {
        spec_tab_result(v)
    }
}

/// Converting a tab-open result to its browsing-context form and back gives
/// the same result, and likewise in the other direction.
pub proof fn lemma_tab_open_result_round_trip(r: TabOpenResult, c: ChromeBrowsingContextOpenResult)
    ensures
        spec_tab_result(spec_context_result(r)) == r,
        spec_context_result(spec_tab_result(c)) == c,
{
}

/// Every browsing-context hint survives the trip through a tab hint, and a tab
/// hint with a browsing-context form is recovered from it.
pub proof fn lemma_tab_open_hint_round_trip(c: ChromeBrowsingContextOpenHint, h: TabOpenHint)
    ensures
        spec_open_hint(spec_tab_hint(c)) == Some(c),
        spec_open_hint(h) matches Some(c2) ==> spec_tab_hint(c2) == h,
        spec_open_hint(h) is None <==> (h == TabOpenHint::NewWindow || h == TabOpenHint::Popup),
{
}

pub open spec fn tab_open_hint_code(h: TabOpenHint) -> u8 {
    match h {
        TabOpenHint::Unknown => codes::TAB_OPEN_HINT_UNKNOWN,
        TabOpenHint::CurrentTab => codes::TAB_OPEN_HINT_CURRENT_CONTEXT,
        TabOpenHint::NewForegroundTab => codes::TAB_OPEN_HINT_NEW_FOREGROUND_CONTEXT,
        TabOpenHint::NewBackgroundTab => codes::TAB_OPEN_HINT_NEW_BACKGROUND_CONTEXT,
        TabOpenHint::NewWindow => codes::TAB_OPEN_HINT_NEW_WINDOW,
        TabOpenHint::Popup => codes::TAB_OPEN_HINT_POPUP,
    }
}

/// The value a wire code decodes to.
pub open spec fn tab_open_hint_of(value: u8) -> TabOpenHint {
    if value == codes::TAB_OPEN_HINT_CURRENT_CONTEXT {
        TabOpenHint::CurrentTab
    } else if value == codes::TAB_OPEN_HINT_NEW_FOREGROUND_CONTEXT {
        TabOpenHint::NewForegroundTab
    } else if value == codes::TAB_OPEN_HINT_NEW_BACKGROUND_CONTEXT {
        TabOpenHint::NewBackgroundTab
    } else if value == codes::TAB_OPEN_HINT_NEW_WINDOW {
        TabOpenHint::NewWindow
    } else if value == codes::TAB_OPEN_HINT_POPUP {
        TabOpenHint::Popup
    } else {
        TabOpenHint::Unknown
    }
}

/// Decode a tab-open hint; unknown codes read as `Unknown`.
pub fn tab_open_hint_from_ffi(value: u8) -> (h: TabOpenHint)
    ensures
        h == tab_open_hint_of(value),
        tab_open_hint_code(h) == value || (h == TabOpenHint::Unknown && forall|x: TabOpenHint|
            tab_open_hint_code(x) != value),
{
    match value {
        codes::TAB_OPEN_HINT_CURRENT_CONTEXT => TabOpenHint::CurrentTab,
        codes::TAB_OPEN_HINT_NEW_FOREGROUND_CONTEXT => TabOpenHint::NewForegroundTab,
        codes::TAB_OPEN_HINT_NEW_BACKGROUND_CONTEXT => TabOpenHint::NewBackgroundTab,
        codes::TAB_OPEN_HINT_NEW_WINDOW => TabOpenHint::NewWindow,
        codes::TAB_OPEN_HINT_POPUP => TabOpenHint::Popup,
        _ => TabOpenHint::Unknown,
    }
}

/// The tab-open result a bridge event describes: an "opened" result without a
/// target tab, and any unknown code, read as `Aborted`.
pub open spec fn spec_tab_open_result(value: u8, has_target: bool, target_tab_id: u64) -> TabOpenResult {
    if value == codes::TAB_OPEN_RESULT_OPENED_NEW_CONTEXT && has_target {
        TabOpenResult::OpenedNewTab { tab_id: TabId(target_tab_id) }
    } else if value == codes::TAB_OPEN_RESULT_OPENED_EXISTING_CONTEXT && has_target {
        TabOpenResult::OpenedExistingTab { tab_id: TabId(target_tab_id) }
    } else if value == codes::TAB_OPEN_RESULT_DENIED {
        TabOpenResult::Denied
    } else {
        TabOpenResult::Aborted
    }
}

/// Decode a tab-open result.
pub fn tab_open_result_from_ffi(value: u8, has_target: bool, target_tab_id: u64) -> (r: TabOpenResult)
    ensures
        r == spec_tab_open_result(value, has_target, target_tab_id),
{
    match value {
        codes::TAB_OPEN_RESULT_OPENED_NEW_CONTEXT => {
            if has_target {
                TabOpenResult::OpenedNewTab { tab_id: TabId::new(target_tab_id) }
            } else {
                TabOpenResult::Aborted
            }
        },
        codes::TAB_OPEN_RESULT_OPENED_EXISTING_CONTEXT => {
            if has_target {
                TabOpenResult::OpenedExistingTab { tab_id: TabId::new(target_tab_id) }
            } else {
                TabOpenResult::Aborted
            }
        },
        codes::TAB_OPEN_RESULT_DENIED => TabOpenResult::Denied,
        codes::TAB_OPEN_RESULT_ABORTED => TabOpenResult::Aborted,
        _ => TabOpenResult::Aborted,
    }
}

/// Decoding undoes encoding: every value with a wire code decodes back to itself.
pub proof fn lemma_tab_open_codes_round_trip()
    ensures
        forall|x: TabOpenHint| #[trigger] tab_open_hint_of(tab_open_hint_code(x)) == x,
{
}

} // verus!
