//! Drop-down windows for KDE Plasma: the verified core.
//!
//! An app has a hotkey. Pressing it shows the app's window in its place, or hides it if it is
//! shown. The modules here read the configuration, find windows, work out where they go, and
//! decide step by step what is asked of the window manager. Nothing here talks to the outside:
//! what is to be done comes out as plain values, and what was answered goes in as plain values.

pub mod animation;
pub mod app_registry;
pub mod config;
pub mod hotkey;
pub mod pattern;
pub mod screen;
pub mod startup;
pub mod text;
pub mod toggle;
pub mod wm;
