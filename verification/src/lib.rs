//! The decision logic of a small always-on-top desktop overlay: its persisted
//! settings, the plans it follows for its windows, tray menu and global
//! shortcut, the launch-at-login procedure and the start-up sequence.
pub mod settings;
pub mod text;
pub mod messages;
pub mod autostart;
pub mod window;
pub mod hotkey;
pub mod shortcut;
pub mod tray;
pub mod save;
pub mod startup;
