//! Background drawing policy transported to the backend.

use vstd::prelude::*;

verus! {

#[derive(Debug, Clone, Copy, PartialEq, Eq, Structural)]
pub enum ChromeBackgroundPolicy {
    Opaque,
    Transparent,
}

/// Whether the policy asks for a transparent page background.
pub fn is_transparent(policy: ChromeBackgroundPolicy) -> (b: bool)
    ensures
        b == (policy == ChromeBackgroundPolicy::Transparent),
{
    match policy {
        ChromeBackgroundPolicy::Transparent => true,
        ChromeBackgroundPolicy::Opaque => false,
    }
}

} // verus!
