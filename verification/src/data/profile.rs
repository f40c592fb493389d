//! Profile information reported by the backend.

use vstd::prelude::*;

verus! {

#[derive(Debug, Clone, PartialEq, Eq)]
pub struct ChromeProfileInfo {
    pub profile_id: String,
    pub profile_path: String,
    pub display_name: String,
    pub is_default: bool,
}

} // verus!
