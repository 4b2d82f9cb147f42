//! The decisions of the auto updater.
use crate::auto_updater::assets::find_platform_asset;
use crate::auto_updater::assets::find_sha256_asset;
use crate::auto_updater::assets::platform_asset;
use crate::auto_updater::assets::sha256_asset;
use crate::auto_updater::config::UpdaterConfig;
use crate::auto_updater::config::UpdaterConfigView;
use crate::auto_updater::messages::AutoUpdaterMessage;
use crate::auto_updater::messages::AutoUpdaterMessageView;
use crate::auto_updater::messages::AutoUpdaterOutput;
use crate::auto_updater::messages::AutoUpdaterOutputView;
use crate::auto_updater::release::DownloadProgress;
use crate::auto_updater::release::ReleaseInfo;
use crate::auto_updater::release::ReleaseInfoView;
use crate::dirs::base_cache_dir;
use crate::dirs::base_dirs;
use crate::paths::clone_path;
use crate::paths::file_name_of;
use crate::paths::join_path;
use crate::paths::path_file_name;
use crate::paths::path_joined;
use crate::paths::path_of_text;
use crate::paths::text_path;
use crate::text::first_word;
use crate::text::first_word_of;
use crate::text::join2;
use crate::text::join3;
use crate::text::same_without_leading;
use crate::text::without_leading;
use std::path::PathBuf;
use vstd::prelude::*;
use vstd::string::*;

verus! {

/// The plugin state: how far the update has come.
#[derive(Debug)]
pub struct AutoUpdaterState {
    /// Current download progress.
    pub download_progress: Option<DownloadProgress>,
    /// Latest release info.
    pub latest_release: Option<ReleaseInfo>,
    /// Whether an update is being processed.
    pub is_updating: bool,
    /// Downloaded file path.
    pub downloaded_file: Option<PathBuf>,
}

/// An [`AutoUpdaterState`] with its texts.
pub struct AutoUpdaterStateView {
    pub download_progress: Option<DownloadProgress>,
    pub latest_release: Option<ReleaseInfoView>,
    pub is_updating: bool,
    pub downloaded_file: Option<PathBuf>,
}

impl View for AutoUpdaterState {
    type V = AutoUpdaterStateView;

    open spec fn view(&self) -> AutoUpdaterStateView {
        AutoUpdaterStateView {
            download_progress: self.download_progress,
            latest_release: match self.latest_release {
                Some(release) => Some(release@),
                None => None,
            },
            is_updating: self.is_updating,
            downloaded_file: self.downloaded_file,
        }
    }
}

/// What the auto updater asks to be done. Whoever performs it reports back
/// with the message named.
pub enum UpdaterEffect {
    /// Nothing to do.
    Idle,
    /// Ask GitHub for the latest release of the repository and report
    /// `UpdateCheckResult`: the release if its version differs from
    /// `current_version`, nothing if it does not, or what went wrong.
    CheckForUpdates { owner: String, repo: String, current_version: String },
    /// Download `url` into the file `file_name` of the download directory,
    /// in place of any download that is still running. Report
    /// `DownloadProgress` while it runs and `DownloadCompleted` at its end.
    Download { url: String, file_name: String },
    /// Download the checksum file from `sha256_url`, compare the checksum of
    /// `file_path` with it, and report `VerificationResult`.
    Verify { file_path: PathBuf, sha256_url: String },
    /// Report `StartInstallation` for `file_path` at once.
    StartInstallation { file_path: PathBuf },
    /// Install `file_path` and report `InstallationResult`.
    Install { file_path: PathBuf },
}

/// An [`UpdaterEffect`] with its texts.
pub enum UpdaterEffectView {
    Idle,
    CheckForUpdates { owner: Seq<char>, repo: Seq<char>, current_version: Seq<char> },
    Download { url: Seq<char>, file_name: Seq<char> },
    Verify { file_path: PathBuf, sha256_url: Seq<char> },
    StartInstallation { file_path: PathBuf },
    Install { file_path: PathBuf },
}

impl View for UpdaterEffect {
    type V = UpdaterEffectView;

    open spec fn view(&self) -> UpdaterEffectView {
        match self {
            UpdaterEffect::Idle => UpdaterEffectView::Idle,
            UpdaterEffect::CheckForUpdates {
                owner,
                repo,
                current_version,
            } => UpdaterEffectView::CheckForUpdates {
                owner: owner@,
                repo: repo@,
                current_version: current_version@,
            },
            UpdaterEffect::Download { url, file_name } => UpdaterEffectView::Download {
                url: url@,
                file_name: file_name@,
            },
            UpdaterEffect::Verify { file_path, sha256_url } => UpdaterEffectView::Verify {
                file_path: *file_path,
                sha256_url: sha256_url@,
            },
            UpdaterEffect::StartInstallation {
                file_path,
            } => UpdaterEffectView::StartInstallation { file_path: *file_path },
            UpdaterEffect::Install { file_path } => UpdaterEffectView::Install {
                file_path: *file_path,
            },
        }
    }
}

/// What one step of the auto updater comes to: the state afterwards, what
/// is to be done, and what is emitted.
pub struct UpdaterStep {
    pub state: AutoUpdaterStateView,
    pub effect: UpdaterEffectView,
    pub output: Option<AutoUpdaterOutputView>,
}

/// The check for updates that `config` describes.
pub open spec fn check_effect(config: UpdaterConfigView) -> UpdaterEffectView {
    UpdaterEffectView::CheckForUpdates {
        owner: config.owner,
        repo: config.repo,
        current_version: config.current_version,
    }
}

/// The state once the update has come to an end, well or badly: nothing is
/// being updated, and there is no downloaded file.
pub open spec fn settled(state: AutoUpdaterStateView) -> AutoUpdaterStateView {
    AutoUpdaterStateView { is_updating: false, downloaded_file: None, ..state }
}

/// What is said when a release holds no asset for the platform.
pub open spec fn no_asset_text(os: Seq<char>, arch: Seq<char>) -> Seq<char> {
    "No suitable asset found for "@ + os + " "@ + arch
}

/// What is said when a release holds no checksum for a downloaded file.
pub open spec fn no_checksum_text(file_name: Seq<char>) -> Seq<char> {
    "SHA256 checksum file not found for "@ + file_name + ". Verification is required."@
}

/// What the auto updater does with `message` in the state `state`, on the
/// operating system `os` and the architecture `arch`.
pub open spec fn updater_step(
    config: UpdaterConfigView,
    os: Seq<char>,
    arch: Seq<char>,
    state: AutoUpdaterStateView,
    message: AutoUpdaterMessageView,
) -> UpdaterStep {
    match message {
        AutoUpdaterMessageView::CheckForUpdates => UpdaterStep {
            state,
            effect: check_effect(config),
            output: None,
        },
        AutoUpdaterMessageView::UpdateCheckResult(Ok(Some(release))) => UpdaterStep {
            state: AutoUpdaterStateView { latest_release: Some(release), ..state },
            effect: UpdaterEffectView::Idle,
            output: Some(AutoUpdaterOutputView::UpdateAvailable(release)),
        },
        AutoUpdaterMessageView::UpdateCheckResult(Ok(None)) => UpdaterStep {
            state,
            effect: UpdaterEffectView::Idle,
            output: Some(AutoUpdaterOutputView::NoUpdateAvailable),
        },
        AutoUpdaterMessageView::UpdateCheckResult(Err(error)) => UpdaterStep {
            state,
            effect: UpdaterEffectView::Idle,
            output: Some(AutoUpdaterOutputView::Error(error)),
        },
        AutoUpdaterMessageView::DownloadAndInstall(release) => match platform_asset(
            release.assets,
            os,
            arch,
        ) {
            Some(asset) => UpdaterStep {
                state: AutoUpdaterStateView {
                    is_updating: true,
                    latest_release: Some(release),
                    ..state
                },
                effect: UpdaterEffectView::Download {
                    url: asset.browser_download_url,
                    file_name: asset.name,
                },
                output: Some(AutoUpdaterOutputView::DownloadStarted(release)),
            },
            None => UpdaterStep {
                state,
                effect: UpdaterEffectView::Idle,
                output: Some(AutoUpdaterOutputView::Error(no_asset_text(os, arch))),
            },
        },
        AutoUpdaterMessageView::DownloadCompleted(Ok(path)) => match (
            state.latest_release,
            path_file_name(path),
        ) {
            (Some(release), Some(file_name)) => match sha256_asset(release.assets, file_name) {
                Some(checksum) => UpdaterStep {
                    state: AutoUpdaterStateView { downloaded_file: Some(path), ..state },
                    effect: UpdaterEffectView::Verify {
                        file_path: path,
                        sha256_url: checksum.browser_download_url,
                    },
                    output: Some(AutoUpdaterOutputView::DownloadCompleted(path)),
                },
                None => UpdaterStep {
                    state: settled(state),
                    effect: UpdaterEffectView::Idle,
                    output: Some(
                        AutoUpdaterOutputView::DownloadFailed(no_checksum_text(file_name)),
                    ),
                },
            },
            _ => UpdaterStep {
                state: settled(state),
                effect: UpdaterEffectView::Idle,
                output: Some(
                    AutoUpdaterOutputView::Error(
                        "Unable to verify download: missing release information"@,
                    ),
                ),
            },
        },
        AutoUpdaterMessageView::DownloadCompleted(Err(error)) => UpdaterStep {
            state: AutoUpdaterStateView { is_updating: false, ..state },
            effect: UpdaterEffectView::Idle,
            output: Some(AutoUpdaterOutputView::Error(error)),
        },
        AutoUpdaterMessageView::VerificationResult(Ok(path)) => UpdaterStep {
            state,
            effect: UpdaterEffectView::StartInstallation { file_path: path },
            output: Some(AutoUpdaterOutputView::VerificationSucceeded(path)),
        },
        AutoUpdaterMessageView::VerificationResult(Err(error)) => UpdaterStep {
            state: settled(state),
            effect: UpdaterEffectView::Idle,
            output: Some(AutoUpdaterOutputView::VerificationFailed(error)),
        },
        AutoUpdaterMessageView::StartInstallation(path) => UpdaterStep {
            state,
            effect: UpdaterEffectView::Install { file_path: path },
            output: Some(AutoUpdaterOutputView::InstallationStarted),
        },
        AutoUpdaterMessageView::InstallationResult(result) => UpdaterStep {
            state: settled(state),
            effect: UpdaterEffectView::Idle,
            output: Some(
                match result {
                    Ok(()) => AutoUpdaterOutputView::InstallationCompleted,
                    Err(error) => AutoUpdaterOutputView::Error(error),
                },
            ),
        },
        AutoUpdaterMessageView::AutoCheckTick => UpdaterStep {
            state,
            effect: if state.is_updating {
                UpdaterEffectView::Idle
            } else {
                check_effect(config)
            },
            output: None,
        },
        AutoUpdaterMessageView::DownloadProgress(progress) => UpdaterStep {
            state: AutoUpdaterStateView { download_progress: Some(progress), ..state },
            effect: UpdaterEffectView::Idle,
            output: Some(AutoUpdaterOutputView::DownloadProgress(progress)),
        },
    }
}

/// An optional output with its texts.
pub open spec fn output_view(output: Option<AutoUpdaterOutput>) -> Option<AutoUpdaterOutputView> {
    match output {
        Some(output) => Some(output@),
        None => None,
    }
}

/// The address at which GitHub tells of the latest release of a repository.
pub open spec fn latest_release_address(owner: Seq<char>, repo: Seq<char>) -> Seq<char> {
    "https://api.github.com/repos/"@ + owner + "/"@ + repo + "/releases/latest"@
}

/// The address at which GitHub tells of the latest release of a repository.
pub fn latest_release_url(owner: &str, repo: &str) -> (url: String)
    ensures
        url@ == latest_release_address(owner@, repo@),
{
    join3("https://api.github.com/repos/", owner, "/").concat(repo).concat("/releases/latest")
}

/// Whether a release tagged `tag_name` is an update for the version
/// `current_version`: it is unless the two are the same, any `v` at their
/// beginning left aside.
pub fn is_update(tag_name: &str, current_version: &str) -> (update: bool)
    ensures
        update == (without_leading(tag_name@, 'v') != without_leading(current_version@, 'v')),
{
    !same_without_leading(tag_name, current_version, 'v')
}

/// The checksum that a checksum file names: the first word of its content.
pub fn parse_sha256_file(content: &str) -> (hash: Result<String, String>)
    ensures
        match hash {
            Ok(found) => first_word(content@) == Some(found@),
            Err(error) => first_word(content@) is None && error@ == "Invalid SHA256 format"@,
        },
{
    match first_word_of(content) {
        Some(word) => Ok(word),
        None => Err(String::from_str("Invalid SHA256 format")),
    }
}

/// The download directory of the application `app_name` below the cache
/// directory `cache_dir`: `<cache_dir>/<app_name>/updates`. Without a cache
/// directory the current directory stands in for it.
pub open spec fn download_dir_below(cache_dir: Option<PathBuf>, app_name: Seq<char>) -> PathBuf {
    path_joined(
        path_joined(
            match cache_dir {
                Some(found) => found,
                None => path_of_text("."@),
            },
            app_name,
        ),
        "updates"@,
    )
}

/// Auto updater plugin.
#[derive(Debug)]
pub struct AutoUpdaterPlugin {
    app_name: String,
    config: UpdaterConfig,
}

impl AutoUpdaterPlugin {
    /// The name of the application that is updated.
    pub closed spec fn app(&self) -> Seq<char> {
        self.app_name@
    }

    /// The configuration of the updater.
    pub closed spec fn settings(&self) -> UpdaterConfigView {
        self.config@
    }

    /// Create a new auto updater plugin.
    pub fn new(app_name: String, config: UpdaterConfig) -> (plugin: Self)
        ensures
            plugin.app() == app_name@,
            plugin.settings() == config@,
    {
        AutoUpdaterPlugin { app_name, config }
    }

    /// The configuration of the updater.
    pub fn config(&self) -> (config: &UpdaterConfig)
        ensures
            config@ == self.settings(),
    {
        &self.config
    }

    /// The name of the plugin.
    pub fn name(&self) -> (name: &'static str)
        ensures
            name@ == "auto_updater"@,
    {
        "auto_updater"
    }

    /// The download directory below the cache directory `cache_dir`.
    pub fn download_dir_in(&self, cache_dir: Option<PathBuf>) -> (dir: PathBuf)
        ensures
            dir == download_dir_below(cache_dir, self.app()),
    {
        let base = match cache_dir {
            Some(found) => found,
            None => text_path("."),
        };
        join_path(&join_path(&base, self.app_name.as_str()), "updates")
    }

    /// Get the download directory: it lies below the cache directory of this
    /// user on this machine.
    pub fn download_dir(&self) -> (dir: PathBuf)
        ensures
            exists|cache_dir: Option<PathBuf>|
                dir == #[trigger] download_dir_below(cache_dir, self.app()),
    {
        let cache_dir = match base_dirs() {
            Some(dirs) => Some(base_cache_dir(&dirs)),
            None => None,
        };
        let dir = self.download_dir_in(cache_dir);
        assert(dir == download_dir_below(cache_dir, self.app()));
        dir
    }

    /// The state the plugin starts with, and what is to be done at the
    /// start: a check for updates if the configuration asks for one.
    pub fn init(&self) -> (start: (AutoUpdaterState, UpdaterEffect))
        ensures
            start.0@ == (AutoUpdaterStateView {
                download_progress: None,
                latest_release: None,
                is_updating: false,
                downloaded_file: None,
            }),
            start.1@ == if self.settings().check_on_start {
                check_effect(self.settings())
            } else {
                UpdaterEffectView::Idle
            },
    {
        let state = AutoUpdaterState {
            download_progress: None,
            latest_release: None,
            is_updating: false,
            downloaded_file: None,
        };
        let effect = if self.config.check_on_start {
            self.check()
        } else {
            UpdaterEffect::Idle
        };
        (state, effect)
    }

    /// The check for updates that the configuration describes.
    fn check(&self) -> (effect: UpdaterEffect)
        ensures
            effect@ == check_effect(self.settings()),
    {
        UpdaterEffect::CheckForUpdates {
            owner: self.config.owner.clone(),
            repo: self.config.repo.clone(),
            current_version: self.config.current_version.clone(),
        }
    }

    /// Handles one message on the operating system `os` and the architecture
    /// `arch`: brings the state up to date and says what is to be done and
    /// what is to be emitted.
    pub fn decide(
        &self,
        state: &mut AutoUpdaterState,
        message: AutoUpdaterMessage,
        os: &str,
        arch: &str,
    ) -> (decision: (UpdaterEffect, Option<AutoUpdaterOutput>))
        ensures
            final(state)@ == updater_step(self.settings(), os@, arch@, old(state)@, message@).state,
            decision.0@ == updater_step(self.settings(), os@, arch@, old(state)@, message@).effect,
            output_view(decision.1) == updater_step(
                self.settings(),
                os@,
                arch@,
                old(state)@,
                message@,
            ).output,
    {
        match message {
            AutoUpdaterMessage::CheckForUpdates => (self.check(), None),
            AutoUpdaterMessage::UpdateCheckResult(result) => match result {
                Ok(Some(release)) => {
                    state.latest_release = Some(release.clone());
                    (UpdaterEffect::Idle, Some(AutoUpdaterOutput::UpdateAvailable(release)))
                },
                Ok(None) => (UpdaterEffect::Idle, Some(AutoUpdaterOutput::NoUpdateAvailable)),
                Err(error) => (UpdaterEffect::Idle, Some(AutoUpdaterOutput::Error(error))),
            },
            AutoUpdaterMessage::DownloadAndInstall(release) => {
                match find_platform_asset(&release, os, arch) {
                    Some(asset) => {
                        state.is_updating = true;
                        state.latest_release = Some(release.clone());
                        (
                            UpdaterEffect::Download {
                                url: asset.browser_download_url,
                                file_name: asset.name,
                            },
                            Some(AutoUpdaterOutput::DownloadStarted(release)),
                        )
                    },
                    None => (
                        UpdaterEffect::Idle,
                        Some(
                            AutoUpdaterOutput::Error(
                                join3("No suitable asset found for ", os, " ").concat(arch),
                            ),
                        ),
                    ),
                }
            },
            AutoUpdaterMessage::DownloadCompleted(result) => match result {
                Ok(path) => {
                    let checksum = match &state.latest_release {
                        Some(release) => match file_name_of(&path) {
                            Some(file_name) => Some(
                                (find_sha256_asset(release, file_name.as_str()), file_name),
                            ),
                            None => None,
                        },
                        None => None,
                    };
                    match checksum {
                        Some((Some(asset), _)) => {
                            state.downloaded_file = Some(clone_path(&path));
                            (
                                UpdaterEffect::Verify {
                                    file_path: clone_path(&path),
                                    sha256_url: asset.browser_download_url,
                                },
                                Some(AutoUpdaterOutput::DownloadCompleted(path)),
                            )
                        },
                        Some((None, file_name)) => {
                            state.is_updating = false;
                            state.downloaded_file = None;
                            (
                                UpdaterEffect::Idle,
                                Some(
                                    AutoUpdaterOutput::DownloadFailed(
                                        join3(
                                            "SHA256 checksum file not found for ",
                                            file_name.as_str(),
                                            ". Verification is required.",
                                        ),
                                    ),
                                ),
                            )
                        },
                        None => {
                            state.is_updating = false;
                            state.downloaded_file = None;
                            (
                                UpdaterEffect::Idle,
                                Some(
                                    AutoUpdaterOutput::Error(
                                        String::from_str(
                                            "Unable to verify download: missing release information",
                                        ),
                                    ),
                                ),
                            )
                        },
                    }
                },
                Err(error) => {
                    state.is_updating = false;
                    (UpdaterEffect::Idle, Some(AutoUpdaterOutput::Error(error)))
                },
            },
            AutoUpdaterMessage::VerificationResult(result) => match result {
                Ok(path) => (
                    UpdaterEffect::StartInstallation { file_path: clone_path(&path) },
                    Some(AutoUpdaterOutput::VerificationSucceeded(path)),
                ),
                Err(error) => {
                    state.is_updating = false;
                    state.downloaded_file = None;
                    (UpdaterEffect::Idle, Some(AutoUpdaterOutput::VerificationFailed(error)))
                },
            },
            AutoUpdaterMessage::StartInstallation(path) => (
                UpdaterEffect::Install { file_path: path },
                Some(AutoUpdaterOutput::InstallationStarted),
            ),
            AutoUpdaterMessage::InstallationResult(result) => {
                state.is_updating = false;
                state.downloaded_file = None;
                match result {
                    Ok(()) => (
                        UpdaterEffect::Idle,
                        Some(AutoUpdaterOutput::InstallationCompleted),
                    ),
                    Err(error) => (UpdaterEffect::Idle, Some(AutoUpdaterOutput::Error(error))),
                }
            },
            AutoUpdaterMessage::AutoCheckTick => {
                if !state.is_updating {
                    (self.check(), None)
                } else {
                    (UpdaterEffect::Idle, None)
                }
            },
            AutoUpdaterMessage::DownloadProgress(progress) => {
                state.download_progress = Some(progress);
                (UpdaterEffect::Idle, Some(AutoUpdaterOutput::DownloadProgress(progress)))
            },
        }
    }
}

impl Clone for AutoUpdaterPlugin {
    fn clone(&self) -> (copy: Self)
        ensures
            copy.app() == self.app(),
            copy.settings() == self.settings(),
    {
        AutoUpdaterPlugin { app_name: self.app_name.clone(), config: self.config.clone() }
    }
}

} // verus!
