//! An updater that looks for new releases on GitHub, downloads the asset for
//! this platform, verifies its SHA256 checksum and installs it.
pub mod assets;
pub mod checksum;
pub mod config;
pub mod install;
pub mod messages;
pub mod mount;
pub mod plugin;
pub mod release;

pub use config::UpdaterConfig;
pub use messages::{AutoUpdaterMessage, AutoUpdaterOutput};
pub use plugin::{AutoUpdaterPlugin, AutoUpdaterState, UpdaterEffect};
pub use release::{DownloadProgress, ReleaseAsset, ReleaseInfo};
