//! Chrome-specific data types carried by bridge events and commands.

pub mod background;
pub mod cursor;
pub mod custom_scheme;
pub mod download;
pub mod extension;
pub mod find;
pub mod ids;
pub mod lifecycle;
pub mod policy;
pub mod profile;
pub mod prompt_ui;
pub mod surface;
pub mod visibility;
pub mod browsing_context_open;
pub mod tab_open;
pub mod ime;
pub mod input;
pub mod ipc;
pub mod mouse;
pub mod context_menu;
pub mod choice_menu;
pub mod drag;
pub mod edit;
