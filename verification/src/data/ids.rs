//! Chrome-facing stable identifiers.

use vstd::prelude::*;

verus! {

/// Chrome-facing stable identifier for a tab managed by the Chromium runtime.
#[derive(Debug, Clone, Copy, PartialEq, Eq, Hash, PartialOrd, Ord, Structural)]
pub struct TabId(pub u64);

impl TabId {
    /// Create a new identifier from a raw numeric value.
    pub fn new(raw: u64) -> (id: Self)
        ensures
            id.0 == raw,
    {
        TabId(raw)
    }

    /// Get the raw numeric value of this identifier.
    pub fn get(self) -> (raw: u64)
        ensures
            raw == self.0,
    {
        self.0
    }
}

/// Stable identifier of an extension popup hosted by a tab.
#[derive(Debug, Clone, Copy, PartialEq, Eq, Hash, PartialOrd, Ord, Structural)]
pub struct PopupId(pub u64);

impl PopupId {
    /// Create a new identifier from a raw numeric value.
    pub fn new(raw: u64) -> (id: Self)
        ensures
            id.0 == raw,
    {
        PopupId(raw)
    }

    /// Get the raw numeric value of this identifier.
    pub fn get(self) -> (raw: u64)
        ensures
            raw == self.0,
    {
        self.0
    }
}

} // verus!
