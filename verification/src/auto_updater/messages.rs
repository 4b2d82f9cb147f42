//! The messages and outputs of the auto updater.
use crate::auto_updater::release::DownloadProgress;
use crate::auto_updater::release::ReleaseInfo;
use crate::auto_updater::release::ReleaseInfoView;
use crate::paths::clone_path;
use std::path::PathBuf;
use vstd::prelude::*;
use vstd::string::*;

verus! {

/// Messages that the auto updater plugin handles.
#[derive(Debug, PartialEq, Eq)]
pub enum AutoUpdaterMessage {
    /// Check for updates from GitHub.
    CheckForUpdates,
    /// Update check completed.
    UpdateCheckResult(Result<Option<ReleaseInfo>, String>),
    /// Download and install update.
    DownloadAndInstall(ReleaseInfo),
    /// Download progress update.
    DownloadProgress(DownloadProgress),
    /// Download completed.
    DownloadCompleted(Result<PathBuf, String>),
    /// SHA256 verification result.
    VerificationResult(Result<PathBuf, String>),
    /// Start installation.
    StartInstallation(PathBuf),
    /// Installation result.
    InstallationResult(Result<(), String>),
    /// Auto-check timer tick.
    AutoCheckTick,
}

/// Output messages emitted by the auto updater plugin.
#[derive(Debug, PartialEq, Eq)]
#[non_exhaustive]
pub enum AutoUpdaterOutput {
    /// Update is available.
    UpdateAvailable(ReleaseInfo),
    /// No update available.
    NoUpdateAvailable,
    /// Download started.
    DownloadStarted(ReleaseInfo),
    /// Download progress.
    DownloadProgress(DownloadProgress),
    /// Download completed.
    DownloadCompleted(PathBuf),
    /// Download failed.
    DownloadFailed(String),
    /// Verification succeeded.
    VerificationSucceeded(PathBuf),
    /// Verification failed.
    VerificationFailed(String),
    /// Installation started.
    InstallationStarted,
    /// Installation completed successfully.
    InstallationCompleted,
    /// An error occurred.
    Error(String),
}

/// An [`AutoUpdaterMessage`] with its texts.
pub enum AutoUpdaterMessageView {
    CheckForUpdates,
    UpdateCheckResult(Result<Option<ReleaseInfoView>, Seq<char>>),
    DownloadAndInstall(ReleaseInfoView),
    DownloadProgress(DownloadProgress),
    DownloadCompleted(Result<PathBuf, Seq<char>>),
    VerificationResult(Result<PathBuf, Seq<char>>),
    StartInstallation(PathBuf),
    InstallationResult(Result<(), Seq<char>>),
    AutoCheckTick,
}

/// An [`AutoUpdaterOutput`] with its texts.
pub enum AutoUpdaterOutputView {
    UpdateAvailable(ReleaseInfoView),
    NoUpdateAvailable,
    DownloadStarted(ReleaseInfoView),
    DownloadProgress(DownloadProgress),
    DownloadCompleted(PathBuf),
    DownloadFailed(Seq<char>),
    VerificationSucceeded(PathBuf),
    VerificationFailed(Seq<char>),
    InstallationStarted,
    InstallationCompleted,
    Error(Seq<char>),
}

/// The result of an operation on a file, with its text.
pub open spec fn path_result_view(result: Result<PathBuf, String>) -> Result<PathBuf, Seq<char>> {
    match result {
        Ok(path) => Ok(path),
        Err(error) => Err(error@),
    }
}

impl View for AutoUpdaterMessage {
    type V = AutoUpdaterMessageView;

    open spec fn view(&self) -> AutoUpdaterMessageView {
        match self {
            AutoUpdaterMessage::CheckForUpdates => AutoUpdaterMessageView::CheckForUpdates,
            AutoUpdaterMessage::UpdateCheckResult(result) => AutoUpdaterMessageView::UpdateCheckResult(
                match result {
                    Ok(Some(release)) => Ok(Some(release@)),
                    Ok(None) => Ok(None),
                    Err(error) => Err(error@),
                },
            ),
            AutoUpdaterMessage::DownloadAndInstall(release) => AutoUpdaterMessageView::DownloadAndInstall(
                release@,
            ),
            AutoUpdaterMessage::DownloadProgress(progress) => AutoUpdaterMessageView::DownloadProgress(
                *progress,
            ),
            AutoUpdaterMessage::DownloadCompleted(result) => AutoUpdaterMessageView::DownloadCompleted(
                path_result_view(*result),
            ),
            AutoUpdaterMessage::VerificationResult(result) => AutoUpdaterMessageView::VerificationResult(
                path_result_view(*result),
            ),
            AutoUpdaterMessage::StartInstallation(path) => AutoUpdaterMessageView::StartInstallation(
                *path,
            ),
            AutoUpdaterMessage::InstallationResult(result) => AutoUpdaterMessageView::InstallationResult(
                match result {
                    Ok(()) => Ok(()),
                    Err(error) => Err(error@),
                },
            ),
            AutoUpdaterMessage::AutoCheckTick => AutoUpdaterMessageView::AutoCheckTick,
        }
    }
}

impl View for AutoUpdaterOutput {
    type V = AutoUpdaterOutputView;

    open spec fn view(&self) -> AutoUpdaterOutputView {
        match self {
            AutoUpdaterOutput::UpdateAvailable(release) => AutoUpdaterOutputView::UpdateAvailable(
                release@,
            ),
            AutoUpdaterOutput::NoUpdateAvailable => AutoUpdaterOutputView::NoUpdateAvailable,
            AutoUpdaterOutput::DownloadStarted(release) => AutoUpdaterOutputView::DownloadStarted(
                release@,
            ),
            AutoUpdaterOutput::DownloadProgress(progress) => AutoUpdaterOutputView::DownloadProgress(
                *progress,
            ),
            AutoUpdaterOutput::DownloadCompleted(path) => AutoUpdaterOutputView::DownloadCompleted(
                *path,
            ),
            AutoUpdaterOutput::DownloadFailed(error) => AutoUpdaterOutputView::DownloadFailed(
                error@,
            ),
            AutoUpdaterOutput::VerificationSucceeded(path) => AutoUpdaterOutputView::VerificationSucceeded(
                *path,
            ),
            AutoUpdaterOutput::VerificationFailed(error) => AutoUpdaterOutputView::VerificationFailed(
                error@,
            ),
            AutoUpdaterOutput::InstallationStarted => AutoUpdaterOutputView::InstallationStarted,
            AutoUpdaterOutput::InstallationCompleted => AutoUpdaterOutputView::InstallationCompleted,
            AutoUpdaterOutput::Error(error) => AutoUpdaterOutputView::Error(error@),
        }
    }
}

/// A copy of the result of an operation on a file.
fn clone_path_result(result: &Result<PathBuf, String>) -> (copy: Result<PathBuf, String>)
    ensures
        path_result_view(copy) == path_result_view(*result),
{
    match result {
        Ok(path) => Ok(clone_path(path)),
        Err(error) => Err(error.clone()),
    }
}

impl Clone for AutoUpdaterMessage {
    fn clone(&self) -> (copy: Self)
        ensures
            copy@ == self@,
    {
        match self {
            AutoUpdaterMessage::CheckForUpdates => AutoUpdaterMessage::CheckForUpdates,
            AutoUpdaterMessage::UpdateCheckResult(result) => AutoUpdaterMessage::UpdateCheckResult(
                match result {
                    Ok(Some(release)) => Ok(Some(release.clone())),
                    Ok(None) => Ok(None),
                    Err(error) => Err(error.clone()),
                },
            ),
            AutoUpdaterMessage::DownloadAndInstall(release) => AutoUpdaterMessage::DownloadAndInstall(
                release.clone(),
            ),
            AutoUpdaterMessage::DownloadProgress(progress) => AutoUpdaterMessage::DownloadProgress(
                *progress,
            ),
            AutoUpdaterMessage::DownloadCompleted(result) => AutoUpdaterMessage::DownloadCompleted(
                clone_path_result(result),
            ),
            AutoUpdaterMessage::VerificationResult(result) => AutoUpdaterMessage::VerificationResult(
                clone_path_result(result),
            ),
            AutoUpdaterMessage::StartInstallation(path) => AutoUpdaterMessage::StartInstallation(
                clone_path(path),
            ),
            AutoUpdaterMessage::InstallationResult(result) => AutoUpdaterMessage::InstallationResult(
                match result {
                    Ok(()) => Ok(()),
                    Err(error) => Err(error.clone()),
                },
            ),
            AutoUpdaterMessage::AutoCheckTick => AutoUpdaterMessage::AutoCheckTick,
        }
    }
}

impl Clone for AutoUpdaterOutput {
    fn clone(&self) -> (copy: Self)
        ensures
            copy@ == self@,
    {
        match self {
            AutoUpdaterOutput::UpdateAvailable(release) => AutoUpdaterOutput::UpdateAvailable(
                release.clone(),
            ),
            AutoUpdaterOutput::NoUpdateAvailable => AutoUpdaterOutput::NoUpdateAvailable,
            AutoUpdaterOutput::DownloadStarted(release) => AutoUpdaterOutput::DownloadStarted(
                release.clone(),
            ),
            AutoUpdaterOutput::DownloadProgress(progress) => AutoUpdaterOutput::DownloadProgress(
                *progress,
            ),
            AutoUpdaterOutput::DownloadCompleted(path) => AutoUpdaterOutput::DownloadCompleted(
                clone_path(path),
            ),
            AutoUpdaterOutput::DownloadFailed(error) => AutoUpdaterOutput::DownloadFailed(
                error.clone(),
            ),
            AutoUpdaterOutput::VerificationSucceeded(path) => AutoUpdaterOutput::VerificationSucceeded(
                clone_path(path),
            ),
            AutoUpdaterOutput::VerificationFailed(error) => AutoUpdaterOutput::VerificationFailed(
                error.clone(),
            ),
            AutoUpdaterOutput::InstallationStarted => AutoUpdaterOutput::InstallationStarted,
            AutoUpdaterOutput::InstallationCompleted => AutoUpdaterOutput::InstallationCompleted,
            AutoUpdaterOutput::Error(error) => AutoUpdaterOutput::Error(error.clone()),
        }
    }
}

} // verus!
