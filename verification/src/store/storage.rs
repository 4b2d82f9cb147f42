//! Where the store keeps its files.
use crate::store::app_name::AppName;
use crate::dirs::project_config_local_dir;
use crate::dirs::project_dirs;
use crate::paths::join_path;
use crate::paths::path_joined;
use crate::paths::path_of_text;
use crate::paths::text_path;
use crate::text::join2;
use std::path::PathBuf;
use vstd::prelude::*;
use vstd::string::*;

verus! {

/// The storage directory below the configuration directory `config_dir`:
/// its subdirectory `store`. Without a configuration directory the current
/// directory stands in for it.
pub open spec fn storage_dir_below(config_dir: Option<PathBuf>) -> PathBuf {
    path_joined(
        match config_dir {
            Some(found) => found,
            None => path_of_text("."@),
        },
        "store"@,
    )
}

/// The storage directory below the configuration directory `config_dir`.
pub fn storage_dir_in(config_dir: Option<PathBuf>) -> (dir: PathBuf)
    ensures
        dir == storage_dir_below(config_dir),
{
    let base = match config_dir {
        Some(found) => found,
        None => text_path("."),
    };
    join_path(&base, "store")
}

/// Get the storage directory for the application: the subdirectory `store`
/// of the application's local configuration directory, which depends on the
/// platform and the user.
pub fn storage_dir(app_name: &AppName) -> (dir: PathBuf)
    ensures
        exists|config_dir: Option<PathBuf>| dir == storage_dir_below(config_dir),
{
    let config_dir = match project_dirs(
        app_name.qualifier.as_str(),
        app_name.organization.as_str(),
        app_name.application.as_str(),
    ) {
        Some(dirs) => Some(project_config_local_dir(&dirs)),
        None => None,
    };
    storage_dir_in(config_dir)
}

/// The name of the file of a group: the group's name followed by `.json`.
pub fn group_file_name(group: &str) -> (name: String)
    ensures
        name@ == group@ + ".json"@,
{
    join2(group, ".json")
}

/// The file of the group `group` in the storage directory `dir`.
pub fn group_path_in(dir: &PathBuf, group: &str) -> (path: PathBuf)
    ensures
        path == path_joined(*dir, group@ + ".json"@),
{
    let name = group_file_name(group);
    join_path(dir, name.as_str())
}

/// Get the file path for a specific group: the file named after the group
/// in the application's storage directory.
pub fn get_group_path(app_name: &AppName, group: &str) -> (path: PathBuf)
    ensures
        exists|config_dir: Option<PathBuf>|
            path == path_joined(#[trigger] storage_dir_below(config_dir), group@ + ".json"@),
{
    let dir = storage_dir(app_name);
    group_path_in(&dir, group)
}

} // verus!
