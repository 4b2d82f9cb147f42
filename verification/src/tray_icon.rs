//! A system tray icon with a menu.
pub mod menu;
pub mod plugin;

pub use menu::{build_native_menu, update_menu_items, Menu, MenuItem, NativeMenuItem, NativeMenuItemKind};
pub use plugin::{
    TrayEffect, TrayFailure, TrayIconEventKind, TrayIconInput, TrayIconMessage, TrayIconOutput,
    TrayIconPlugin, TrayIconState,
};
