//! Decision logic of an input-method indicator.
//!
//! The library decides when the input language is switched, when a text
//! field counts as focused, and where and when the coloured dots are drawn.
//! It never talks to the desktop itself: callers sample keys, windows, the
//! pointer and the time, hand the samples in as plain values, and carry out
//! the requests that come back.

pub mod auto_switch;
pub mod caret_detector;
pub mod clicks;
pub mod clock;
pub mod config;
pub mod config_file;
pub mod design_mode;
pub mod edit_event;
pub mod edit_mode;
pub mod identity;
pub mod ime_detector;
pub mod indicator_loop;
pub mod language_switch;
pub mod laws;
pub mod office_mode;
pub mod overlay;
pub mod processes;
pub mod running_apps;
pub mod single_instance;
pub mod text;
pub mod tray;
