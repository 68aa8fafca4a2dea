//! Showing and hiding the windows of apps.

pub mod aims;
pub mod commands;
pub mod conduct;
pub mod effects;
pub mod laws;
pub mod model;
pub mod runs;
pub mod service;
pub mod stamps;
pub mod timing;
pub mod types;

pub use service::{require_app, ToggleService};
pub use stamps::Stamps;
pub use timing::{should_ignore_shortcut, HOTKEY_DEBOUNCE_WINDOW, SPAWN_GATE_TTL};
