//! The four transitions of an incident anchor.

pub mod append_event;
pub mod approve_anchor;
pub mod create_anchor;
pub mod update_artifacts;
