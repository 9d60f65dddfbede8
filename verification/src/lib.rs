//! Lists the windows of other applications, finds the one in front, and
//! plans the automation script that resizes and centres a window.
//!
//! The library decides; it does not act. A caller asks the window server for
//! its list and the event system for a handle, and passes the answers in.
//! Before a resize it asks the library whether the main display is needed,
//! and asks the display only then. What comes back is a list of windows, a
//! window, or the text of a script. The caller runs the script and passes
//! the outcome to [`window_manager::conclude_script`].
//!
//! - [`window_manager`] holds the operations and their types.
//! - [`commands`] offers the same operations with errors as messages.
//! - [`geometry`] reads identifiers and floating-point bounds, and places a
//!   window on the screen.
//! - [`script`] writes the automation scripts.
//! - [`text`] cuts, compares, escapes and numbers text.
//! - [`presets`] lays out and labels the presets of the tray menu.

pub mod commands;
pub mod geometry;
pub mod presets;
pub mod script;
pub mod text;
pub mod window_manager;

pub use crate::presets::Preset;
