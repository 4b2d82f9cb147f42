//! Configuration for the auto updater.
use vstd::prelude::*;
use vstd::string::*;

verus! {

/// Configuration for the auto updater.
#[derive(Debug, PartialEq, Eq)]
pub struct UpdaterConfig {
    /// GitHub repository owner.
    pub owner: String,
    /// GitHub repository name.
    pub repo: String,
    /// Current version of the application.
    pub current_version: String,
    /// Auto-check interval in seconds (0 = disabled).
    pub auto_check_interval: u64,
    /// Check for updates on application start.
    pub check_on_start: bool,
}

/// An [`UpdaterConfig`] with its texts.
pub struct UpdaterConfigView {
    pub owner: Seq<char>,
    pub repo: Seq<char>,
    pub current_version: Seq<char>,
    pub auto_check_interval: u64,
    pub check_on_start: bool,
}

impl View for UpdaterConfig {
    type V = UpdaterConfigView;

    open spec fn view(&self) -> UpdaterConfigView {
        UpdaterConfigView {
            owner: self.owner@,
            repo: self.repo@,
            current_version: self.current_version@,
            auto_check_interval: self.auto_check_interval,
            check_on_start: self.check_on_start,
        }
    }
}

impl UpdaterConfig {
    /// Create a new updater config: no automatic checks, no check on start.
    pub fn new(owner: &str, repo: &str, current_version: &str) -> (config: Self)
        ensures
            config@ == (UpdaterConfigView {
                owner: owner@,
                repo: repo@,
                current_version: current_version@,
                auto_check_interval: 0,
                check_on_start: false,
            }),
    {
        UpdaterConfig {
            owner: String::from_str(owner),
            repo: String::from_str(repo),
            current_version: String::from_str(current_version),
            auto_check_interval: 0,
            check_on_start: false,
        }
    }

    /// Enable automatic update checking with the specified interval; an
    /// interval of 0 disables it.
    pub fn with_auto_check(self, interval_secs: u64) -> (config: Self)
        ensures
            config@ == (UpdaterConfigView { auto_check_interval: interval_secs, ..self@ }),
    {
        let mut config = self;
        config.auto_check_interval = interval_secs;
        config
    }

    /// Enable checking for updates on application start.
    pub fn with_check_on_start(self, enabled: bool) -> (config: Self)
        ensures
            config@ == (UpdaterConfigView { check_on_start: enabled, ..self@ }),
    {
        let mut config = self;
        config.check_on_start = enabled;
        config
    }

    /// Whether the plugin is to check for updates by itself, every
    /// `auto_check_interval` seconds.
    pub fn checks_periodically(&self) -> (periodic: bool)
        ensures
            periodic == (self.auto_check_interval > 0),
    {
        self.auto_check_interval > 0
    }
}

impl Clone for UpdaterConfig {
    fn clone(&self) -> (copy: Self)
        ensures
            copy@ == self@,
    {
        UpdaterConfig {
            owner: self.owner.clone(),
            repo: self.repo.clone(),
            current_version: self.current_version.clone(),
            auto_check_interval: self.auto_check_interval,
            check_on_start: self.check_on_start,
        }
    }
}

} // verus!
