//! The directories that the platform sets aside for an application, as the
//! `directories` crate finds them. They depend on the platform, the user and
//! the environment, so nothing is claimed of them.
use directories::BaseDirs;
use directories::ProjectDirs;
use std::path::PathBuf;
use vstd::prelude::*;

verus! {

/// `directories::ProjectDirs`.
#[verifier::external_type_specification]
#[verifier::external_body]
pub struct ExProjectDirs(ProjectDirs);

/// `directories::BaseDirs`.
#[verifier::external_type_specification]
#[verifier::external_body]
pub struct ExBaseDirs(BaseDirs);

/// `ProjectDirs::from`: the directories of a project, or `None` where no
/// home directory can be found.
#[verifier::external_body]
pub(crate) fn project_dirs(qualifier: &str, organization: &str, application: &str) -> (dirs:
    Option<ProjectDirs>) {
    ProjectDirs::from(qualifier, organization, application)
}

/// `ProjectDirs::config_local_dir`.
#[verifier::external_body]
pub(crate) fn project_config_local_dir(dirs: &ProjectDirs) -> (dir: PathBuf) {
    dirs.config_local_dir().to_path_buf()
}

/// `BaseDirs::new`: the directories of the user, or `None` where no home
/// directory can be found.
#[verifier::external_body]
pub(crate) fn base_dirs() -> (dirs: Option<BaseDirs>) {
    BaseDirs::new()
}

/// `BaseDirs::config_local_dir`.
#[verifier::external_body]
pub(crate) fn base_config_local_dir(dirs: &BaseDirs) -> (dir: PathBuf) {
    dirs.config_local_dir().to_path_buf()
}

/// `BaseDirs::cache_dir`.
#[verifier::external_body]
pub(crate) fn base_cache_dir(dirs: &BaseDirs) -> (dir: PathBuf) {
    dirs.cache_dir().to_path_buf()
}

} // verus!
