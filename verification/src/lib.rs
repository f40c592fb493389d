//! Verified Chromium bridge vocabulary: the data carried between a host
//! application and the Chromium runtime, the decoding of bridge events, the
//! encoding of bridge requests, and the wake-up decisions of the backend loop.

pub mod backend;
pub mod bridge;
pub mod bridge_library;
pub mod chromium_backend;
pub mod chromium_process;
pub mod codes;
pub mod command;
pub mod data;
