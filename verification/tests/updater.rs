use iced_plugins::auto_updater::assets::{
    arch_patterns, find_platform_asset, find_sha256_asset, mentions_any, os_patterns,
};
use iced_plugins::auto_updater::checksum::{compare_sha256, sha256_hex, verify_sha256};
use iced_plugins::auto_updater::install::{
    after_authenticated_copy, after_detach, after_plain_copy, command_outcome, copy_script,
    installer_for, is_app_bundle, needs_authentication, CopyNext, DetachOutcome, FileFacts,
    InstallerKind, UnmountStep,
};
use iced_plugins::auto_updater::mount::{find_volume_path, missing_mount_point, parse_volume_path};
use iced_plugins::auto_updater::plugin::{is_update, latest_release_url, parse_sha256_file};
use iced_plugins::auto_updater::{
    AutoUpdaterMessage, AutoUpdaterOutput, AutoUpdaterPlugin, DownloadProgress, ReleaseAsset,
    ReleaseInfo, UpdaterConfig, UpdaterEffect,
};
use iced_plugins::text::{first_word_of, join2, join3, leading_count, same_without_leading};
use std::path::PathBuf;

fn text(value: &str) -> String {
    value.to_string()
}

fn asset(name: &str) -> ReleaseAsset {
    ReleaseAsset { name: text(name), browser_download_url: format!("https://dl/{}", name), size: 10 }
}

fn release(names: &[&str]) -> ReleaseInfo {
    ReleaseInfo {
        tag_name: text("v1.2.0"),
        name: text("Release 1.2.0"),
        body: Some(text("notes")),
        html_url: text("https://example.com/release"),
        assets: names.iter().map(|name| asset(name)).collect(),
    }
}

fn plugin() -> AutoUpdaterPlugin {
    AutoUpdaterPlugin::new(text("my_app"), UpdaterConfig::new("owner", "repo", "1.0.0"))
}

#[test]
fn config_builders_set_their_field_only() {
    let config = UpdaterConfig::new("owner", "repo", "1.0.0");
    assert_eq!(config.owner, "owner");
    assert_eq!(config.repo, "repo");
    assert_eq!(config.current_version, "1.0.0");
    assert_eq!(config.auto_check_interval, 0);
    assert!(!config.check_on_start);
    assert!(!config.checks_periodically());
    let config = config.with_auto_check(3600);
    assert_eq!(config.auto_check_interval, 3600);
    assert!(!config.check_on_start);
    assert!(config.checks_periodically());
    let config = config.with_check_on_start(true);
    assert_eq!(config.auto_check_interval, 3600);
    assert!(config.check_on_start);
    assert_eq!(config.clone(), config);
    assert_eq!(config.owner, "owner");
}

#[test]
fn text_helpers() {
    assert_eq!(join2("a", "bc"), "abc");
    assert_eq!(join3("a", "", "c"), "ac");
    assert_eq!(leading_count("vvv1", 'v'), 3);
    assert_eq!(leading_count("1v", 'v'), 0);
    assert_eq!(leading_count("", 'v'), 0);
    assert_eq!(leading_count("vv", 'v'), 2);
    assert!(same_without_leading("v1.0", "1.0", 'v'));
    assert!(same_without_leading("vv1.0", "v1.0", 'v'));
    assert!(!same_without_leading("v1.0", "1.1", 'v'));
    assert!(same_without_leading("", "v", 'v'));
    assert_eq!(first_word_of("  abc  def"), Some(text("abc")));
    assert_eq!(first_word_of("abc"), Some(text("abc")));
    assert_eq!(first_word_of("\n\tx\u{a0}y"), Some(text("x")));
    assert_eq!(first_word_of(" \n\t "), None);
    assert_eq!(first_word_of(""), None);
}

#[test]
fn versions_and_addresses() {
    assert!(!is_update("v1.0.0", "1.0.0"));
    assert!(!is_update("1.0.0", "v1.0.0"));
    assert!(is_update("v1.0.1", "1.0.0"));
    assert!(is_update("1.0", "1.0.0"));
    assert_eq!(
        latest_release_url("iced-rs", "iced"),
        "https://api.github.com/repos/iced-rs/iced/releases/latest"
    );
    assert_eq!(
        parse_sha256_file("abcdef0123  app.dmg\n"),
        Ok(text("abcdef0123"))
    );
    assert_eq!(parse_sha256_file("\n"), Err(text("Invalid SHA256 format")));
}

#[test]
fn platform_patterns() {
    assert_eq!(os_patterns("macos"), vec!["macos", "darwin", "osx", "mac"]);
    assert_eq!(os_patterns("linux"), vec!["linux"]);
    assert_eq!(os_patterns("windows"), vec!["windows", "win"]);
    assert_eq!(os_patterns("freebsd"), vec!["freebsd"]);
    assert_eq!(arch_patterns("x86_64"), vec!["x86_64", "amd64", "x64"]);
    assert_eq!(arch_patterns("aarch64"), vec!["aarch64", "arm64"]);
    assert_eq!(arch_patterns("x86"), vec!["x86", "i686"]);
    assert_eq!(arch_patterns("arm"), vec!["arm", "armv7"]);
    assert_eq!(arch_patterns("riscv64"), vec!["riscv64"]);
    assert!(mentions_any("App-Darwin-ARM64.dmg", &vec!["macos", "darwin"]));
    assert!(!mentions_any("App-Linux.deb", &vec!["macos", "darwin"]));
    assert!(!mentions_any("anything", &Vec::new()));
}

#[test]
fn platform_asset_prefers_a_full_match() {
    let found = find_platform_asset(
        &release(&["app-linux-arm64.deb", "app-macos.zip", "App-Linux-AMD64.deb", "app-linux-x64.deb"]),
        "linux",
        "x86_64",
    );
    assert_eq!(found, Some(asset("App-Linux-AMD64.deb")));
    let found = find_platform_asset(&release(&["app-macos.zip", "app-linux.tar.gz", "app-linux.deb"]), "linux", "aarch64");
    assert_eq!(found, Some(asset("app-linux.tar.gz")));
    assert_eq!(find_platform_asset(&release(&["app-macos.zip"]), "linux", "x86_64"), None);
    assert_eq!(find_platform_asset(&release(&[]), "linux", "x86_64"), None);
    assert_eq!(
        find_platform_asset(&release(&["app-x64.zip", "app-win-arm64.zip"]), "windows", "x86_64"),
        Some(asset("app-win-arm64.zip"))
    );
}

#[test]
fn checksum_asset_is_found_by_name() {
    let info = release(&["app.dmg", "app.dmg.sha256", "other.sha256", "app.dmg.sha256"]);
    assert_eq!(find_sha256_asset(&info, "app.dmg"), Some(asset("app.dmg.sha256")));
    assert_eq!(find_sha256_asset(&info, "other"), Some(asset("other.sha256")));
    assert_eq!(find_sha256_asset(&info, "app"), None);
    assert_eq!(info.clone(), info);
}

#[test]
fn checksums() {
    assert_eq!(
        sha256_hex(b""),
        "e3b0c44298fc1c149afbf4c8996fb92427ae41e4649b934ca495991b7852b855"
    );
    assert_eq!(
        sha256_hex(b"abc"),
        "ba7816bf8f01cfea414140de5dae2223b00361a396177a9cb410ff61f20015ad"
    );
    assert_eq!(
        verify_sha256(b"abc", "BA7816BF8F01CFEA414140DE5DAE2223B00361A396177A9CB410FF61F20015AD"),
        Ok(())
    );
    assert_eq!(
        verify_sha256(b"abc", "00"),
        Err(text(
            "SHA256 mismatch! Expected: 00, Got: ba7816bf8f01cfea414140de5dae2223b00361a396177a9cb410ff61f20015ad"
        ))
    );
    assert_eq!(compare_sha256("AbC", "aBc"), Ok(()));
    assert_eq!(compare_sha256("abc", "abd"), Err(text("SHA256 mismatch! Expected: abd, Got: abc")));
}

#[test]
fn updater_starts_idle_or_with_a_check() {
    let (state, effect) = plugin().init();
    assert!(state.download_progress.is_none());
    assert!(state.latest_release.is_none());
    assert!(!state.is_updating);
    assert!(state.downloaded_file.is_none());
    assert!(matches!(effect, UpdaterEffect::Idle));

    let eager = AutoUpdaterPlugin::new(text("my_app"), UpdaterConfig::new("o", "r", "v2").with_check_on_start(true));
    assert_eq!(eager.name(), "auto_updater");
    assert!(eager.config().check_on_start);
    match eager.clone().init().1 {
        UpdaterEffect::CheckForUpdates { owner, repo, current_version } => {
            assert_eq!((owner.as_str(), repo.as_str(), current_version.as_str()), ("o", "r", "v2"));
        }
        _ => panic!("a check was expected"),
    }
    assert_eq!(eager.download_dir_in(Some(PathBuf::from("/cache"))), PathBuf::from("/cache/my_app/updates"));
    assert_eq!(eager.download_dir_in(None), PathBuf::from("./my_app/updates"));
    assert!(eager.download_dir().ends_with("my_app/updates"));
}

#[test]
fn updater_walks_through_an_update() {
    let plugin = plugin();
    let (mut state, _) = plugin.init();
    let info = release(&["app-linux-x86_64.deb", "app-linux-x86_64.deb.sha256"]);

    let (effect, output) = plugin.decide(&mut state, AutoUpdaterMessage::CheckForUpdates, "linux", "x86_64");
    assert!(matches!(effect, UpdaterEffect::CheckForUpdates { .. }));
    assert_eq!(output, None);

    let (effect, output) = plugin.decide(
        &mut state,
        AutoUpdaterMessage::UpdateCheckResult(Ok(Some(info.clone()))),
        "linux",
        "x86_64",
    );
    assert!(matches!(effect, UpdaterEffect::Idle));
    assert_eq!(output, Some(AutoUpdaterOutput::UpdateAvailable(info.clone())));
    assert_eq!(state.latest_release, Some(info.clone()));

    let (effect, output) = plugin.decide(
        &mut state,
        AutoUpdaterMessage::DownloadAndInstall(info.clone()),
        "linux",
        "x86_64",
    );
    match effect {
        UpdaterEffect::Download { url, file_name } => {
            assert_eq!(url, "https://dl/app-linux-x86_64.deb");
            assert_eq!(file_name, "app-linux-x86_64.deb");
        }
        _ => panic!("a download was expected"),
    }
    assert_eq!(output, Some(AutoUpdaterOutput::DownloadStarted(info.clone())));
    assert!(state.is_updating);

    let progress = DownloadProgress { downloaded: 5, total_size: 10 };
    let (effect, output) = plugin.decide(&mut state, AutoUpdaterMessage::DownloadProgress(progress), "linux", "x86_64");
    assert!(matches!(effect, UpdaterEffect::Idle));
    assert_eq!(output, Some(AutoUpdaterOutput::DownloadProgress(progress)));
    assert_eq!(state.download_progress, Some(progress));

    let (effect, output) = plugin.decide(&mut state, AutoUpdaterMessage::AutoCheckTick, "linux", "x86_64");
    assert!(matches!(effect, UpdaterEffect::Idle));
    assert_eq!(output, None);

    let file = PathBuf::from("/cache/my_app/updates/app-linux-x86_64.deb");
    let (effect, output) = plugin.decide(
        &mut state,
        AutoUpdaterMessage::DownloadCompleted(Ok(file.clone())),
        "linux",
        "x86_64",
    );
    match effect {
        UpdaterEffect::Verify { file_path, sha256_url } => {
            assert_eq!(file_path, file);
            assert_eq!(sha256_url, "https://dl/app-linux-x86_64.deb.sha256");
        }
        _ => panic!("a verification was expected"),
    }
    assert_eq!(output, Some(AutoUpdaterOutput::DownloadCompleted(file.clone())));
    assert_eq!(state.downloaded_file, Some(file.clone()));

    let (effect, output) = plugin.decide(
        &mut state,
        AutoUpdaterMessage::VerificationResult(Ok(file.clone())),
        "linux",
        "x86_64",
    );
    assert!(matches!(effect, UpdaterEffect::StartInstallation { ref file_path } if *file_path == file));
    assert_eq!(output, Some(AutoUpdaterOutput::VerificationSucceeded(file.clone())));

    let (effect, output) = plugin.decide(
        &mut state,
        AutoUpdaterMessage::StartInstallation(file.clone()),
        "linux",
        "x86_64",
    );
    assert!(matches!(effect, UpdaterEffect::Install { ref file_path } if *file_path == file));
    assert_eq!(output, Some(AutoUpdaterOutput::InstallationStarted));
    assert!(state.is_updating);

    let (effect, output) = plugin.decide(&mut state, AutoUpdaterMessage::InstallationResult(Ok(())), "linux", "x86_64");
    assert!(matches!(effect, UpdaterEffect::Idle));
    assert_eq!(output, Some(AutoUpdaterOutput::InstallationCompleted));
    assert!(!state.is_updating);
    assert!(state.downloaded_file.is_none());

    let (effect, _) = plugin.decide(&mut state, AutoUpdaterMessage::AutoCheckTick.clone(), "linux", "x86_64");
    assert!(matches!(effect, UpdaterEffect::CheckForUpdates { .. }));
}

#[test]
fn updater_reports_what_goes_wrong() {
    let plugin = plugin();
    let (mut state, _) = plugin.init();

    let (_, output) = plugin.decide(&mut state, AutoUpdaterMessage::UpdateCheckResult(Ok(None)), "linux", "arm");
    assert_eq!(output, Some(AutoUpdaterOutput::NoUpdateAvailable));
    let (_, output) = plugin.decide(&mut state, AutoUpdaterMessage::UpdateCheckResult(Err(text("offline"))), "linux", "arm");
    assert_eq!(output, Some(AutoUpdaterOutput::Error(text("offline"))));

    let (effect, output) = plugin.decide(
        &mut state,
        AutoUpdaterMessage::DownloadAndInstall(release(&["app-macos.dmg"])),
        "linux",
        "arm",
    );
    assert!(matches!(effect, UpdaterEffect::Idle));
    assert_eq!(output, Some(AutoUpdaterOutput::Error(text("No suitable asset found for linux arm"))));
    assert!(!state.is_updating);
    assert!(state.latest_release.is_none());

    let file = PathBuf::from("/tmp/app.deb");
    let (effect, output) = plugin.decide(&mut state, AutoUpdaterMessage::DownloadCompleted(Ok(file.clone())), "linux", "arm");
    assert!(matches!(effect, UpdaterEffect::Idle));
    assert_eq!(
        output,
        Some(AutoUpdaterOutput::Error(text("Unable to verify download: missing release information")))
    );

    let _ = plugin.decide(&mut state, AutoUpdaterMessage::DownloadAndInstall(release(&["app-linux.deb"])), "linux", "arm");
    assert!(state.is_updating);
    let (effect, output) = plugin.decide(&mut state, AutoUpdaterMessage::DownloadCompleted(Ok(file.clone())), "linux", "arm");
    assert!(matches!(effect, UpdaterEffect::Idle));
    assert_eq!(
        output,
        Some(AutoUpdaterOutput::DownloadFailed(text(
            "SHA256 checksum file not found for app.deb. Verification is required."
        )))
    );
    assert!(!state.is_updating);
    assert!(state.downloaded_file.is_none());

    state.is_updating = true;
    let (_, output) = plugin.decide(&mut state, AutoUpdaterMessage::DownloadCompleted(Err(text("broken pipe"))), "linux", "arm");
    assert_eq!(output, Some(AutoUpdaterOutput::Error(text("broken pipe"))));
    assert!(!state.is_updating);

    state.is_updating = true;
    state.downloaded_file = Some(file.clone());
    let (_, output) = plugin.decide(&mut state, AutoUpdaterMessage::VerificationResult(Err(text("mismatch"))), "linux", "arm");
    assert_eq!(output.clone(), Some(AutoUpdaterOutput::VerificationFailed(text("mismatch"))));
    assert!(!state.is_updating);
    assert!(state.downloaded_file.is_none());

    let (_, output) = plugin.decide(&mut state, AutoUpdaterMessage::InstallationResult(Err(text("denied"))), "linux", "arm");
    assert_eq!(output, Some(AutoUpdaterOutput::Error(text("denied"))));
}

#[test]
fn installers_are_chosen_by_extension() {
    assert_eq!(installer_for(&PathBuf::from("/tmp/App.dmg")), Ok(InstallerKind::Dmg));
    assert_eq!(installer_for(&PathBuf::from("/tmp/app.tar.gz")), Ok(InstallerKind::TarGz));
    assert_eq!(installer_for(&PathBuf::from("/tmp/app.zip")), Ok(InstallerKind::Zip));
    assert_eq!(installer_for(&PathBuf::from("/tmp/app.gz")), Err(text("Unsupported file type: gz")));
    assert_eq!(installer_for(&PathBuf::from("/tmp/app.deb")), Err(text("Unsupported file type: deb")));
    assert_eq!(installer_for(&PathBuf::from("/tmp/app")), Err(text("Unknown file type")));
    assert!(is_app_bundle(Some("app")));
    assert!(!is_app_bundle(Some("App")));
    assert!(!is_app_bundle(None));
}

#[test]
fn copy_decisions() {
    let mine = FileFacts { uid: 501, mode: 0o755 };
    let read_only = FileFacts { uid: 501, mode: 0o555 };
    let theirs = FileFacts { uid: 0, mode: 0o755 };
    assert!(!needs_authentication(true, Some(mine), None, 501));
    assert!(needs_authentication(true, Some(read_only), Some(mine), 501));
    assert!(needs_authentication(true, Some(theirs), Some(mine), 501));
    assert!(needs_authentication(true, None, Some(mine), 501));
    assert!(!needs_authentication(false, None, Some(theirs), 501));
    assert!(needs_authentication(false, Some(mine), Some(read_only), 501));
    assert!(needs_authentication(false, Some(mine), None, 501));

    assert_eq!(after_plain_copy(true, "Permission denied"), CopyNext::Done);
    assert_eq!(after_plain_copy(false, "ditto: Permission denied"), CopyNext::Authenticate);
    assert_eq!(
        after_plain_copy(false, "disk full"),
        CopyNext::Fail(text("Failed to copy app to Applications: disk full"))
    );
    assert_eq!(
        copy_script("/Volumes/App/App.app", "/Applications/App.app"),
        r#"do shell script "ditto '/Volumes/App/App.app' '/Applications/App.app'" with administrator privileges"#
    );
    assert_eq!(after_authenticated_copy(true, ""), Ok(()));
    assert_eq!(
        after_authenticated_copy(false, "execution error: User canceled. (-128)"),
        Err(text("User canceled authentication"))
    );
    assert_eq!(
        after_authenticated_copy(false, "boom"),
        Err(text("Failed to copy app to Applications: boom"))
    );
    assert_eq!(command_outcome(true, "Failed to extract zip: ", "x"), Ok(()));
    assert_eq!(
        command_outcome(false, "Failed to extract zip: ", "bad archive"),
        Err(text("Failed to extract zip: bad archive"))
    );
}

#[test]
fn detaching_is_retried_then_forced() {
    assert_eq!(after_detach(1, DetachOutcome::Detached), UnmountStep::Done);
    assert_eq!(after_detach(1, DetachOutcome::Refused), UnmountStep::Retry);
    assert_eq!(after_detach(2, DetachOutcome::Refused), UnmountStep::Retry);
    assert_eq!(after_detach(3, DetachOutcome::Refused), UnmountStep::Force);
    assert_eq!(after_detach(3, DetachOutcome::Detached), UnmountStep::Done);
    assert_eq!(after_detach(2, DetachOutcome::NotRun), UnmountStep::GiveUp);
}

#[test]
fn volume_path_is_read_from_the_last_matching_field() {
    let output = "/dev/disk4          \tGUID_partition_scheme          \t\n\
                  /dev/disk4s1        \tApple_APFS                     \t\n\
                  /dev/disk5s1        \t41504653-0000-11AA-AA11-0030654\t/Volumes/My App 1.2\n";
    assert_eq!(find_volume_path(output), Some(text("/Volumes/My App 1.2")));
    assert_eq!(parse_volume_path(output.as_bytes()), Ok(text("/Volumes/My App 1.2")));
    assert_eq!(
        find_volume_path("a\t /Volumes/First \t/Volumes/Second\r\n\r\nnothing here\n\n"),
        Some(text("/Volumes/Second"))
    );
    assert_eq!(find_volume_path("/Volumes/One\n/Volumes/Two\tx"), Some(text("/Volumes/Two")));
    assert_eq!(find_volume_path("x /Volumes/NotAtStart"), None);
    assert_eq!(find_volume_path("/Volumes"), None);
    assert_eq!(find_volume_path("/Volumes/"), Some(text("/Volumes/")));
    assert_eq!(find_volume_path(""), None);
    assert_eq!(
        parse_volume_path(b"no mount"),
        Err(text("Failed to find mount point in hdiutil output. Output was:\nno mount"))
    );
    assert_eq!(
        missing_mount_point("/Volumes/App", b"raw"),
        "Mount point '/Volumes/App' does not exist. Full output:\nraw"
    );
}

#[test]
fn first_word_ends_at_unicode_whitespace_only() {
    assert_eq!(
        first_word_of("\u{3000}\u{2028}ab\u{200b}c\u{1680}d"),
        Some(text("ab\u{200b}c"))
    );
    assert_eq!(first_word_of("\u{85}\u{2003}x\u{180e}y\u{205f}z"), Some(text("x\u{180e}y")));
    assert_eq!(first_word_of("\u{9}\u{a}\u{b}\u{c}\u{d}\u{20}\u{a0}\u{202f}\u{2029}"), None);
}
