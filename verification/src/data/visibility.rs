//! Visibility state of a Chromium tab.

use vstd::prelude::*;

use crate::codes;

verus! {

/// Whether a tab is currently visible to the user or hidden.
#[derive(Debug, Clone, Copy, PartialEq, Eq, Structural)]
pub enum ChromeTabVisibility {
    Visible,
    Hidden,
}

pub open spec fn tab_visibility_code(v: ChromeTabVisibility) -> u8 {
    match v {
        ChromeTabVisibility::Visible => codes::TAB_VISIBILITY_VISIBLE,
        ChromeTabVisibility::Hidden => codes::TAB_VISIBILITY_HIDDEN,
    }
}

/// Wire code of a tab visibility.
pub fn visibility_to_ffi(visibility: ChromeTabVisibility) -> (code: u8)
    ensures
        code == tab_visibility_code(visibility),
{
    match visibility {
        ChromeTabVisibility::Visible => codes::TAB_VISIBILITY_VISIBLE,
        ChromeTabVisibility::Hidden => codes::TAB_VISIBILITY_HIDDEN,
    }
}

} // verus!
