use deno_tools::paths::FilePath;
use deno_tools::shared::{AnyError, ReleaseChannel, VersionInfo};
use deno_tools::upgrade::UpgradeFlags;
use deno_tools::upgrade_steps::{
    check_windows_access_denied_error, move_exe, replace_exe, replace_exe_step,
    set_exe_permissions, upgrade, FileMetadata, IoFailure, Permissions, ReplaceAction, ReplacePhase, Upgrade,
    UpgradeAction, UpgradeEvent, UpgradeOutcome, UpgradePlan,
};

const HASH: &str = "61fbfabe440f1cfffa7b8d17426ffdece4d430d0";

fn plan(canary: bool, version: Option<&str>) -> UpgradePlan {
    UpgradePlan {
        flags: UpgradeFlags {
            dry_run: false,
            force: false,
            canary,
            version: version.map(|v| v.to_string()),
            output: None,
        },
        version: VersionInfo {
            deno: "1.45.0".to_string(),
            git_commit_hash: HASH.to_string(),
            release_version_or_canary_commit_hash: "1.45.0".to_string(),
            is_canary: false,
        },
        archive_name: "deno-t.zip".to_string(),
        current_exe_path: FilePath::new("/bin/deno"),
        full_path_output: None,
        permissions: Permissions { readonly: false, mode: 0o755 },
        is_windows: false,
        args: "upgrade".to_string(),
    }
}

fn error(message: &str) -> AnyError {
    AnyError::new(message.to_string())
}

fn failure(action: &UpgradeAction) -> String {
    match action {
        UpgradeAction::Finish { result: Err(e) } => e.message.clone(),
        other => panic!("no failure: {:?}", other),
    }
}

/// Goes on to the place where the new executable has been unpacked.
fn unpacked(plan: UpgradePlan) -> (Upgrade, UpgradeAction) {
    let (running, action) = upgrade(plan);
    assert!(matches!(action, UpgradeAction::Download { .. }));
    let (running, action) = running.step(UpgradeEvent::Downloaded(Ok(true))).unwrap();
    assert!(matches!(action, UpgradeAction::Unpack { .. }));
    running.step(UpgradeEvent::Unpacked(Ok("/tmp/deno".to_string()))).unwrap()
}

/// Goes on to the place where the new executable has been checked.
fn checked(plan: UpgradePlan) -> (Upgrade, UpgradeAction) {
    let (running, action) = unpacked(plan);
    match action {
        UpgradeAction::SetPermissions { path, permissions } => {
            assert_eq!(path, "/tmp/deno");
            assert_eq!(permissions.mode, 0o755);
        }
        other => panic!("{:?}", other),
    }
    let (running, action) = running.step(UpgradeEvent::PermissionsSet(Ok(()))).unwrap();
    match action {
        UpgradeAction::CheckExe { path } => assert_eq!(path, "/tmp/deno"),
        other => panic!("{:?}", other),
    }
    running.step(UpgradeEvent::ExeChecked(Ok(true))).unwrap()
}

#[test]
fn upgrade_to_the_latest_version() {
    let (running, action) = upgrade(plan(false, None));
    assert!(matches!(action, UpgradeAction::LookUp { channel: ReleaseChannel::Stable }));
    let (running, action) =
        running.step(UpgradeEvent::LatestVersion(Ok("1.46.2".to_string()))).unwrap();
    match action {
        UpgradeAction::Download { install_version, url } => {
            assert_eq!(install_version, "1.46.2");
            assert_eq!(
                url,
                "https://github.com/denoland/deno/releases/download/v1.46.2/deno-t.zip"
            );
        }
        other => panic!("{:?}", other),
    }
    let (running, _) = running.step(UpgradeEvent::Downloaded(Ok(true))).unwrap();
    let (running, _) =
        running.step(UpgradeEvent::Unpacked(Ok("/tmp/deno".to_string()))).unwrap();
    let (running, _) = running.step(UpgradeEvent::PermissionsSet(Ok(()))).unwrap();
    let (running, action) = running.step(UpgradeEvent::ExeChecked(Ok(true))).unwrap();
    match action {
        UpgradeAction::ReplaceExe { from, to } => {
            assert_eq!(from, "/tmp/deno");
            assert_eq!(to, "/bin/deno");
        }
        other => panic!("{:?}", other),
    }
    let (running, action) = running.step(UpgradeEvent::Installed(Ok(()))).unwrap();
    match action {
        UpgradeAction::Finish {
            result: Ok(UpgradeOutcome::Upgraded { install_version, notes }),
        } => {
            assert_eq!(install_version, "1.46.2");
            assert_eq!(notes.unwrap().blog_post_url, "https://deno.com/blog/v1.46");
        }
        other => panic!("{:?}", other),
    }
    assert!(running.step(UpgradeEvent::Installed(Ok(()))).is_none());
}

#[test]
fn nothing_is_done_for_the_running_version() {
    let (_, action) = upgrade(plan(false, Some("v1.45.0")));
    assert!(matches!(
        action,
        UpgradeAction::Finish { result: Ok(UpgradeOutcome::AlreadyInstalled) }
    ));
    let (_, action) = upgrade(plan(true, Some(HASH)));
    assert!(matches!(
        action,
        UpgradeAction::Finish { result: Ok(UpgradeOutcome::AlreadyInstalled) }
    ));
    let (running, _) = upgrade(plan(false, None));
    let (_, action) =
        running.step(UpgradeEvent::LatestVersion(Ok("1.45.0".to_string()))).unwrap();
    assert!(matches!(action, UpgradeAction::Finish { result: Ok(UpgradeOutcome::MostRecent) }));
}

#[test]
fn running_version_can_be_forced() {
    let mut forced = plan(false, Some("1.45.0"));
    forced.flags.force = true;
    let (_, action) = upgrade(forced);
    assert!(matches!(action, UpgradeAction::Download { .. }));
    let mut elsewhere = plan(false, Some("1.45.0"));
    elsewhere.full_path_output = Some(FilePath::new("/opt/deno"));
    let (_, action) = upgrade(elsewhere);
    assert!(matches!(action, UpgradeAction::Download { .. }));
}

#[test]
fn other_output_path_is_moved_to() {
    let mut elsewhere = plan(false, Some("1.46.0"));
    elsewhere.full_path_output = Some(FilePath::new("/opt/deno"));
    let (_, action) = checked(elsewhere);
    match action {
        UpgradeAction::MoveFile { from, to } => {
            assert_eq!(from, "/tmp/deno");
            assert_eq!(to, "/opt/deno");
        }
        other => panic!("{:?}", other),
    }
    let mut same = plan(false, Some("1.46.0"));
    same.full_path_output = Some(FilePath::new("/bin/deno"));
    assert!(matches!(checked(same).1, UpgradeAction::ReplaceExe { .. }));
    let mut same = plan(false, Some("1.46.0"));
    same.full_path_output = Some(FilePath::new("/bin/./deno"));
    match checked(same).1 {
        UpgradeAction::ReplaceExe { to, .. } => assert_eq!(to, "/bin/./deno"),
        other => panic!("{:?}", other),
    }
    // the bytes decide, not what is shown of them
    let mut other = plan(false, Some("1.46.0"));
    other.full_path_output =
        Some(FilePath { text: "/bin/deno".to_string(), bytes: b"/bin/deno\xff".to_vec() });
    assert!(matches!(checked(other).1, UpgradeAction::MoveFile { .. }));
}

#[test]
fn dry_run_removes_the_new_executable() {
    let mut dry = plan(false, Some("1.46.0"));
    dry.flags.dry_run = true;
    let (running, action) = checked(dry);
    match action {
        UpgradeAction::RemoveFile { path } => assert_eq!(path, "/tmp/deno"),
        other => panic!("{:?}", other),
    }
    let (_, action) = running.step(UpgradeEvent::FileRemoved(Ok(()))).unwrap();
    match action {
        UpgradeAction::Finish { result: Ok(UpgradeOutcome::DryRun { notes }) } => {
            assert!(notes.is_some())
        }
        other => panic!("{:?}", other),
    }
}

#[test]
fn canary_builds_have_no_release_notes() {
    let other = "0000000000000000000000000000000000000000";
    let (running, _) = checked(plan(true, Some(other)));
    let (_, action) = running.step(UpgradeEvent::Installed(Ok(()))).unwrap();
    match action {
        UpgradeAction::Finish {
            result: Ok(UpgradeOutcome::Upgraded { install_version, notes }),
        } => {
            assert_eq!(install_version, other);
            assert!(notes.is_none());
        }
        other => panic!("{:?}", other),
    }
}

#[test]
fn every_error_ends_the_upgrade() {
    let (_, action) = upgrade(plan(false, Some("abc!")));
    assert_eq!(failure(&action), "Invalid version passed");
    let (_, action) = upgrade(plan(true, Some("abc")));
    assert_eq!(failure(&action), "Invalid commit hash passed");

    let (running, _) = upgrade(plan(false, None));
    let (_, action) = running.step(UpgradeEvent::LatestVersion(Err(error("offline")))).unwrap();
    assert_eq!(failure(&action), "offline");

    let (running, _) = upgrade(plan(false, Some("1.46.0")));
    let (_, action) = running.step(UpgradeEvent::Downloaded(Err(error("reset")))).unwrap();
    match action {
        UpgradeAction::Finish { result: Err(e) } => {
            assert_eq!(
                e.message,
                "Failed downloading https://github.com/denoland/deno/releases/download/v1.46.0/deno-t.zip. The version you requested may not have been built for the current architecture."
            );
            assert_eq!(e.causes, vec!["reset".to_string()]);
        }
        other => panic!("{:?}", other),
    }

    let (running, _) = upgrade(plan(false, Some("1.46.0")));
    let (_, action) = running.step(UpgradeEvent::Downloaded(Ok(false))).unwrap();
    assert!(matches!(action, UpgradeAction::Abort));

    let (running, _) = upgrade(plan(false, Some("1.46.0")));
    let (running, _) = running.step(UpgradeEvent::Downloaded(Ok(true))).unwrap();
    let (_, action) = running.step(UpgradeEvent::Unpacked(Err(error("zip")))).unwrap();
    assert_eq!(failure(&action), "zip");

    let (running, _) = unpacked(plan(false, Some("1.46.0")));
    let (_, action) = running.step(UpgradeEvent::PermissionsSet(Err(error("mode")))).unwrap();
    assert_eq!(failure(&action), "mode");

    let (running, _) = unpacked(plan(false, Some("1.46.0")));
    let (running, _) = running.step(UpgradeEvent::PermissionsSet(Ok(()))).unwrap();
    let (_, action) = running.step(UpgradeEvent::ExeChecked(Err(error("spawn")))).unwrap();
    assert_eq!(failure(&action), "spawn");

    let (running, _) = checked(plan(false, Some("1.46.0")));
    let io = IoFailure { message: "busy".to_string(), raw_os_error: Some(5) };
    let (_, action) = running.step(UpgradeEvent::Installed(Err(io))).unwrap();
    assert_eq!(failure(&action), "busy");
}

#[test]
fn events_that_are_not_accepted() {
    let (running, _) = upgrade(plan(false, None));
    assert!(running.step(UpgradeEvent::Downloaded(Ok(true))).is_none());
    let (running, _) = upgrade(plan(false, None));
    assert!(running.step(UpgradeEvent::LatestVersion(Ok("abc".to_string()))).is_none());
    let (running, _) = unpacked(plan(false, Some("1.46.0")));
    let (running, _) = running.step(UpgradeEvent::PermissionsSet(Ok(()))).unwrap();
    assert!(running.step(UpgradeEvent::ExeChecked(Ok(false))).is_none());
}

#[test]
fn access_denied_on_windows_gets_advice() {
    let denied = || {
        Err(IoFailure { message: "Access is denied.".to_string(), raw_os_error: Some(5) })
    };
    let e = check_windows_access_denied_error(denied(), "C:\\deno.exe", true, "upgrade --canary")
        .unwrap_err();
    assert_eq!(
        e.message,
        "Could not replace the deno executable. This may be because an existing deno process is running. Please ensure there are no running deno processes (ex. Stop-Process -Name deno ; deno upgrade --canary), close any editors before upgrading, and ensure you have sufficient permission to 'C:\\deno.exe'."
    );
    assert_eq!(e.causes, vec!["Access is denied.".to_string()]);
    let e = check_windows_access_denied_error(denied(), "/bin/deno", false, "").unwrap_err();
    assert_eq!(e.message, "Access is denied.");
    assert!(e.causes.is_empty());
    let other = Err(IoFailure { message: "Disk full".to_string(), raw_os_error: None });
    let e = check_windows_access_denied_error(other, "/bin/deno", true, "").unwrap_err();
    assert_eq!(e.message, "Disk full");
    assert_eq!(check_windows_access_denied_error(Ok(()), "/bin/deno", true, ""), Ok(()));
}

#[test]
fn permissions_of_the_new_executable() {
    let metadata = |readonly, mode, owner| FileMetadata {
        permissions: Permissions { readonly, mode },
        owner,
    };
    let current = || Ok(metadata(false, 0o700, Some(1)));
    assert_eq!(set_exe_permissions(current(), None, "/o", false).unwrap().mode, 0o700);
    assert_eq!(
        set_exe_permissions(Err(error("gone")), None, "/o", false),
        Err(error("gone"))
    );
    assert_eq!(
        set_exe_permissions(current(), Some(metadata(false, 0o755, Some(1))), "/o", false)
            .unwrap()
            .mode,
        0o755
    );
    assert_eq!(
        set_exe_permissions(current(), Some(metadata(true, 0o555, Some(1))), "/o", true)
            .unwrap_err()
            .message,
        "You do not have write permission to /o"
    );
    assert_eq!(
        set_exe_permissions(current(), Some(metadata(false, 0o755, Some(0))), "/o", false)
            .unwrap_err()
            .message,
        "You don't have write permission to /o because it's owned by root.\nConsider updating deno through your package manager if its installed from it.\nOtherwise run `deno upgrade` as root."
    );
    assert!(set_exe_permissions(current(), Some(metadata(false, 0o755, Some(0))), "/o", true)
        .is_ok());
    assert!(set_exe_permissions(current(), Some(metadata(false, 0o755, None)), "/o", false)
        .is_ok());
}

#[test]
fn executable_is_replaced_step_by_step() {
    let failed = || Err(IoFailure { message: "no".to_string(), raw_os_error: None });
    assert!(matches!(replace_exe(true), (ReplacePhase::Clearing, ReplaceAction::MoveAside)));
    assert!(matches!(replace_exe(false), (ReplacePhase::Clearing, ReplaceAction::RemoveOld)));
    assert!(matches!(move_exe(), (ReplacePhase::Renaming, ReplaceAction::Rename)));
    let step = replace_exe_step;
    assert!(matches!(
        step(ReplacePhase::Clearing, failed()),
        (ReplacePhase::Finished, ReplaceAction::Finish(Err(_)))
    ));
    assert!(matches!(
        step(ReplacePhase::Clearing, Ok(())),
        (ReplacePhase::Renaming, ReplaceAction::Rename)
    ));
    assert!(matches!(
        step(ReplacePhase::Renaming, Ok(())),
        (ReplacePhase::Finished, ReplaceAction::Finish(Ok(())))
    ));
    assert!(matches!(
        step(ReplacePhase::Renaming, failed()),
        (ReplacePhase::Copying, ReplaceAction::Copy)
    ));
    assert!(matches!(
        step(ReplacePhase::Copying, failed()),
        (ReplacePhase::Finished, ReplaceAction::Finish(Err(_)))
    ));
}
