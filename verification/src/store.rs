//! A JSON key-value store that persists its groups to disk, one file per
//! group, and keeps what it has read or written in memory.
pub mod app_name;
pub mod messages;
pub mod plugin;
pub mod storage;

pub use app_name::AppName;
pub use messages::{StoreInput, StoreMessage, StoreOutput};
pub use plugin::{StoreEffect, StorePlugin, StoreState};
pub use storage::{get_group_path, storage_dir};
