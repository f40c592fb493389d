//! Platform-specific rendering surface handle exposed by Chromium.

use vstd::prelude::*;

verus! {

/// Platform-specific handle to the rendering surface exposed by Chromium.
#[derive(Debug, Clone, PartialEq, Eq, Structural)]
pub enum SurfaceHandle {
    MacCaContextId(u32),
}

} // verus!
