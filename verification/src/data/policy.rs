//! Capability policy models transported to the backend.

use vstd::prelude::*;

verus! {

#[derive(Debug, Clone, Copy, PartialEq, Eq, Structural)]
pub enum ChromeCapabilityPolicy {
    Allow,
    Deny,
}

impl Default for ChromeCapabilityPolicy {
    fn default() -> (p: Self)
        ensures
            p == ChromeCapabilityPolicy::Allow,
    {
        ChromeCapabilityPolicy::Allow
    }
}

#[derive(Debug, Clone, PartialEq, Eq)]
pub enum ChromeIpcPolicy {
    Deny,
    Allow { allowed_origins: Vec<String> },
}

impl Default for ChromeIpcPolicy {
    fn default() -> (p: Self)
        ensures
            p is Deny,
    {
        ChromeIpcPolicy::Deny
    }
}

#[derive(Debug, Clone, PartialEq, Eq)]
pub struct ChromeBrowsingContextPolicy {
    pub ipc: ChromeIpcPolicy,
    pub extensions: ChromeCapabilityPolicy,
}

impl Default for ChromeBrowsingContextPolicy {
    fn default() -> (p: Self)
        ensures
            p.ipc is Deny,
            p.extensions == ChromeCapabilityPolicy::Allow,
    {
        ChromeBrowsingContextPolicy { ipc: ChromeIpcPolicy::Deny, extensions: ChromeCapabilityPolicy::Allow }
    }
}

} // verus!
