//! Live monitor of coding-assistant sessions: the verified core.

pub mod cli;
pub mod clock;
pub mod hermes;
pub mod json;
pub mod model;
pub mod ordering;
pub mod paths;
pub mod store;
pub mod text;
pub mod transcript;
pub mod tui;
pub mod watcher;
