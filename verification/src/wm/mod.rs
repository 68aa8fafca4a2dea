//! Windows, and the window manager that holds them.

pub mod kwin;
pub mod laws;
pub mod types;

use vstd::prelude::*;

pub use types::{find_best_match, matches_window, FrameGeometry, ManagedWindow, Point};

verus! {

/// What the identifier of every shortcut of this program begins with.
pub const HOTKEY_PREFIX: &'static str = "plasma_drop_hotkey_";

} // verus!
