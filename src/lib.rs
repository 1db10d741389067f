//! Toggles an application of a tiling window manager between three states:
//! not running, running but unfocused, and focused. Given a snapshot of the
//! manager's window tree and the application's configuration, the library
//! works out which single command moves the application on: launch it, focus
//! it, or send it to the scratchpad.

pub mod json;
pub mod window;
pub mod spawn;
pub mod tree;

pub use json::JsonValue;
pub use spawn::{Action, AppConfig, Spawn, SpawnError, WindowState, resolve};
pub use window::{SwayWindow, WindowIdentifier, WindowProperties, eq_ignore_ascii_case, matches_identifier};
