//! The script that runs inside the window manager, as this program sees it.

pub mod bridge;
pub mod laws;
pub mod types;
