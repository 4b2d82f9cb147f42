//! A type-safe plugin runtime for iced applications.
//!
//! Plugins keep their own message, state and output types. The
//! [`PluginManager`] erases those types at its boundary, routes each
//! [`PluginMessage`] to the slot that owns it, and fans the outputs of a slot
//! out to the listeners registered for it.
pub mod auto_updater;
pub mod builder;
pub mod cache;
pub mod dirs;
pub mod effect;
pub mod envelope;
pub mod fanout;
pub mod handle;
pub mod laws;
pub mod manager;
pub mod paths;
pub mod plugin;
pub mod pref_store;
pub mod store;
pub mod string_map;
pub mod text;
pub mod tray_icon;
pub mod window_state;

pub use builder::PluginManagerBuilder;
pub use envelope::{PluginMessage, PluginOutput};
pub use handle::PluginHandle;
pub use manager::PluginManager;
pub use plugin::Plugin;
