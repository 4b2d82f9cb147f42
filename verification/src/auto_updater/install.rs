//! The decisions of installing a downloaded update.
use crate::paths::extension_of;
use crate::paths::path_extension;
use crate::paths::path_text;
use crate::paths::text_of_path;
use crate::text::ends_with;
use crate::text::join2;
use crate::text::join3;
use crate::text::occurs_in;
use crate::text::same_text;
use crate::text::text_contains;
use crate::text::text_ends_with;
use std::path::PathBuf;
use vstd::prelude::*;
use vstd::string::*;

verus! {

/// How a downloaded file is installed on macOS.
#[derive(Debug, Clone, Copy, PartialEq, Eq, Structural)]
pub enum InstallerKind {
    /// A disk image: mount it, copy the application, unmount it.
    Dmg,
    /// A gzipped tar archive: extract it, copy the application.
    TarGz,
    /// A zip archive: extract it, copy the application.
    Zip,
}

/// How a file with the extension `extension` and the full text `text` is
/// installed on macOS, or why it cannot be.
pub open spec fn installer_of(extension: Option<Seq<char>>, text: Seq<char>) -> Result<
    InstallerKind,
    Seq<char>,
> {
    match extension {
        None => Err("Unknown file type"@),
        Some(extension) => if extension == "dmg"@ {
            Ok(InstallerKind::Dmg)
        } else if extension == "gz"@ && ends_with(text, ".tar.gz"@) {
            Ok(InstallerKind::TarGz)
        } else if extension == "zip"@ {
            Ok(InstallerKind::Zip)
        } else {
            Err("Unsupported file type: "@ + extension)
        },
    }
}

/// How the file `file_path` is installed on macOS, or why it cannot be.
pub fn installer_for(file_path: &PathBuf) -> (installer: Result<InstallerKind, String>)
    ensures
        match installer {
            Ok(kind) => installer_of(path_extension(*file_path), path_text(*file_path)) == Ok::<
                InstallerKind,
                Seq<char>,
            >(kind),
            Err(reason) => installer_of(path_extension(*file_path), path_text(*file_path))
                == Err::<InstallerKind, Seq<char>>(reason@),
        },
{
    match extension_of(file_path) {
        None => Err(String::from_str("Unknown file type")),
        Some(extension) => {
            if same_text(extension.as_str(), "dmg") {
                Ok(InstallerKind::Dmg)
            } else if same_text(extension.as_str(), "gz") && text_ends_with(
                text_of_path(file_path).as_str(),
                ".tar.gz",
            ) {
                Ok(InstallerKind::TarGz)
            } else if same_text(extension.as_str(), "zip") {
                Ok(InstallerKind::Zip)
            } else {
                Err(join2("Unsupported file type: ", extension.as_str()))
            }
        },
    }
}

/// Who owns a file and who may write to it.
#[derive(Debug, Clone, Copy, PartialEq, Eq, Structural)]
pub struct FileFacts {
    /// The user that owns the file.
    pub uid: u32,
    /// The permission bits of the file.
    pub mode: u32,
}

/// Whether the owner of a file with the permission bits `mode` may write to
/// it.
pub open spec fn owner_may_write(mode: u32) -> bool {
    mode & 0o200 != 0
}

/// Whether copying an application to its destination needs the rights of an
/// administrator. Where the destination exists it does unless the
/// destination belongs to the current user and its owner may write to it;
/// where it does not exist it does unless the owner of the applications
/// directory may write to that. Where the facts are not to be had it does.
pub open spec fn copy_needs_rights(
    destination_exists: bool,
    destination: Option<FileFacts>,
    applications: Option<FileFacts>,
    current_uid: u32,
) -> bool {
    if destination_exists {
        match destination {
            Some(facts) => facts.uid != current_uid || !owner_may_write(facts.mode),
            None => true,
        }
    } else {
        match applications {
            Some(facts) => !owner_may_write(facts.mode),
            None => true,
        }
    }
}

/// Whether copying an application to its destination needs the rights of an
/// administrator.
pub fn needs_authentication(
    destination_exists: bool,
    destination: Option<FileFacts>,
    applications: Option<FileFacts>,
    current_uid: u32,
) -> (needed: bool)
    ensures
        needed == copy_needs_rights(destination_exists, destination, applications, current_uid),
{
    if destination_exists {
        match destination {
            Some(facts) => facts.uid != current_uid || (facts.mode & 0o200) == 0,
            None => true,
        }
    } else {
        match applications {
            Some(facts) => (facts.mode & 0o200) == 0,
            None => true,
        }
    }
}

/// What follows a copy that was tried without the rights of an
/// administrator.
#[derive(Debug, PartialEq, Eq)]
pub enum CopyNext {
    /// The copy succeeded.
    Done,
    /// Permission was denied: try again with the rights of an administrator.
    Authenticate,
    /// The copy failed for the reason given.
    Fail(String),
}

/// What is said when a copy to the applications directory fails.
pub open spec fn copy_failure_text(stderr: Seq<char>) -> Seq<char> {
    "Failed to copy app to Applications: "@ + stderr
}

/// What follows a copy that was tried without the rights of an
/// administrator, given whether it succeeded and what it wrote to standard
/// error.
pub fn after_plain_copy(success: bool, stderr: &str) -> (next: CopyNext)
    ensures
        success ==> next is Done,
        !success && occurs_in("Permission denied"@, stderr@) ==> next is Authenticate,
        !success && !occurs_in("Permission denied"@, stderr@) ==> (next matches CopyNext::Fail(
            reason,
        ) && reason@ == copy_failure_text(stderr@)),
{
    if success {
        CopyNext::Done
    } else if text_contains(stderr, "Permission denied") {
        CopyNext::Authenticate
    } else {
        CopyNext::Fail(join2("Failed to copy app to Applications: ", stderr))
    }
}

/// The AppleScript that copies `source` to `destination` with the rights of
/// an administrator.
pub fn copy_script(source: &str, destination: &str) -> (script: String)
    ensures
        script@ == "do shell script \"ditto '"@ + source@ + "' '"@ + destination@
            + "'\" with administrator privileges"@,
{
    join3("do shell script \"ditto '", source, "' '").concat(destination).concat(
        "'\" with administrator privileges",
    )
}

/// What a copy with the rights of an administrator comes to, given whether
/// it succeeded and what it wrote to standard error.
pub fn after_authenticated_copy(success: bool, stderr: &str) -> (outcome: Result<(), String>)
    ensures
        success ==> outcome is Ok,
        !success && occurs_in("User canceled"@, stderr@) ==> (outcome matches Err(reason)
            && reason@ == "User canceled authentication"@),
        !success && !occurs_in("User canceled"@, stderr@) ==> (outcome matches Err(reason)
            && reason@ == copy_failure_text(stderr@)),
{
    if success {
        Ok(())
    } else if text_contains(stderr, "User canceled") {
        Err(String::from_str("User canceled authentication"))
    } else {
        Err(join2("Failed to copy app to Applications: ", stderr))
    }
}

/// How an attempt to detach a disk image went.
#[derive(Debug, Clone, Copy, PartialEq, Eq, Structural)]
pub enum DetachOutcome {
    /// The image was detached.
    Detached,
    /// The command ran and refused.
    Refused,
    /// The command could not be run.
    NotRun,
}

/// What follows an attempt to detach a disk image.
#[derive(Debug, Clone, Copy, PartialEq, Eq, Structural)]
pub enum UnmountStep {
    /// The image is detached: done.
    Done,
    /// Wait half a second and try again.
    Retry,
    /// Detach by force, and stop whatever comes of it.
    Force,
    /// Stop; the image may still be mounted.
    GiveUp,
}

/// How often detaching a disk image is tried before force is used.
pub const DETACH_ATTEMPTS: u8 = 3;

/// What follows the attempt number `attempt`, counted from 1, to detach a
/// disk image. A refusal is answered by another attempt, the last one by
/// force; a command that cannot be run ends the attempts.
pub fn after_detach(attempt: u8, outcome: DetachOutcome) -> (step: UnmountStep)
    ensures
        step == match outcome {
            DetachOutcome::Detached => UnmountStep::Done,
            DetachOutcome::Refused => if attempt < DETACH_ATTEMPTS {
                UnmountStep::Retry
            } else {
                UnmountStep::Force
            },
            DetachOutcome::NotRun => UnmountStep::GiveUp,
        },
{
    match outcome {
        DetachOutcome::Detached => UnmountStep::Done,
        DetachOutcome::Refused => {
            if attempt < DETACH_ATTEMPTS {
                UnmountStep::Retry
            } else {
                UnmountStep::Force
            }
        },
        DetachOutcome::NotRun => UnmountStep::GiveUp,
    }
}

/// Whether a directory entry with the extension `extension` is an
/// application bundle.
pub fn is_app_bundle(extension: Option<&str>) -> (bundle: bool)
    ensures
        bundle == (extension matches Some(text) && text@ == "app"@),
{
    match extension {
        Some(text) => same_text(text, "app"),
        None => false,
    }
}

/// What a command that was run comes to: nothing to complain of where it
/// succeeded, and otherwise `complaint` followed by what the command wrote
/// to standard error.
pub fn command_outcome(success: bool, complaint: &str, stderr: &str) -> (outcome: Result<
    (),
    String,
>)
    ensures
        success ==> outcome is Ok,
        !success ==> (outcome matches Err(reason) && reason@ == complaint@ + stderr@),
{
    if success {
        Ok(())
    } else {
        Err(join2(complaint, stderr))
    }
}

} // verus!
