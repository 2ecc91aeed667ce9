//! The steps of an upgrade. The files, the network and the new executable are the caller's: each
//! step names the next thing to do, and what came of it leads to the next step.

use vstd::prelude::*;
use vstd::string::*;

use crate::paths::{same_path, FilePath};
use crate::shared::{AnyError, ReleaseChannel, VersionInfo};
use crate::upgrade::{
    get_download_url, print_release_notes, select_specific_version_for_upgrade,
    try_find_latest_version_to_upgrade, ReleaseNotes, RequestedVersion, UpgradeFlags,
};

verus! {

/// The permissions of a file.
#[derive(Debug, Clone, Copy, PartialEq, Eq, Structural)]
pub struct Permissions {
    pub readonly: bool,
    /// The mode bits, where the system has them.
    pub mode: u32,
}

/// What is known of a file.
#[derive(Debug, Clone, Copy, PartialEq, Eq, Structural)]
pub struct FileMetadata {
    pub permissions: Permissions,
    /// The user that owns the file, where the system has users.
    pub owner: Option<u32>,
}

/// The permissions that the new executable gets: those of the file that it replaces or, where
/// there is none, those of the current executable. A file that the user cannot write is an error.
pub fn set_exe_permissions(
    current_exe: Result<FileMetadata, AnyError>,
    output_exe: Option<FileMetadata>,
    output_exe_path: &str,
    effective_user_is_root: bool,
) -> (r: Result<Permissions, AnyError>)
    ensures
        match output_exe {
            None => match current_exe {
                Ok(current) => r == Ok::<Permissions, AnyError>(current.permissions),
                Err(e) => r == Err::<Permissions, AnyError>(e),
            },
            Some(output) => if output.permissions.readonly {
                r matches Err(e) && e@ == seq![
                    "You do not have write permission to "@ + output_exe_path@,
                ]
            } else if output.owner == Some(0u32) && !effective_user_is_root {
                r matches Err(e) && e@ == seq![
                    "You don't have write permission to "@ + output_exe_path@
                        + " because it's owned by root.\nConsider updating deno through your package manager if its installed from it.\nOtherwise run `deno upgrade` as root."@,
                ]
            } else {
                r == Ok::<Permissions, AnyError>(output.permissions)
            },
        },
{
    let output = match output_exe {
        Some(output) => output,
        None => {
            return match current_exe {
                Ok(current) => Ok(current.permissions),
                Err(e) => Err(e),
            };
        },
    };
    if output.permissions.readonly {
        let mut message: String = "You do not have write permission to ".to_owned();
        message.append(output_exe_path);
        return Err(AnyError::new(message));
    }
    let owned_by_root = match output.owner {
        Some(owner) => owner == 0,
        None => false,
    };
    if owned_by_root && !effective_user_is_root {
        let mut message: String = "You don't have write permission to ".to_owned();
        message.append(output_exe_path);
        message.append(
            " because it's owned by root.\nConsider updating deno through your package manager if its installed from it.\nOtherwise run `deno upgrade` as root.",
        );
        return Err(AnyError::new(message));
    }
    Ok(output.permissions)
}

/// A failed file operation.
#[derive(Debug, Clone)]
pub struct IoFailure {
    pub message: String,
    pub raw_os_error: Option<i32>,
}

/// The advice for an executable that Windows does not let be replaced.
pub open spec fn access_denied_advice(args: Seq<char>, output_exe_path: Seq<char>) -> Seq<char> {
    "Could not replace the deno executable. This may be because an existing deno process is running. Please ensure there are no running deno processes (ex. Stop-Process -Name deno ; deno "@
        + args
        + "), close any editors before upgrading, and ensure you have sufficient permission to '"@
        + output_exe_path + "'."@
}

/// The outcome of replacing the executable, with advice where Windows denied the access. `args`
/// are the arguments of the running command, without the executable, joined by spaces.
pub fn check_windows_access_denied_error(
    output_result: Result<(), IoFailure>,
    output_exe_path: &str,
    is_windows: bool,
    args: &str,
) -> (r: Result<(), AnyError>)
    ensures
        match output_result {
            Ok(_) => r is Ok,
            Err(failure) => r matches Err(e) && e@ == if is_windows && failure.raw_os_error == Some(
                5i32,
            ) {
                seq![access_denied_advice(args@, output_exe_path@), failure.message@]
            } else {
                seq![failure.message@]
            },
        },
{
    let failure = match output_result {
        Ok(_) => {
            return Ok(());
        },
        Err(failure) => failure,
    };
    let access_denied = match failure.raw_os_error {
        Some(code) => code == 5,
        None => false,
    };
    let error = AnyError::new(failure.message);
    if !is_windows || !access_denied {
        return Err(error);
    }
    let mut advice: String =
        "Could not replace the deno executable. This may be because an existing deno process is running. Please ensure there are no running deno processes (ex. Stop-Process -Name deno ; deno ".to_owned();
    advice.append(args);
    advice.append("), close any editors before upgrading, and ensure you have sufficient permission to '");
    advice.append(output_exe_path);
    advice.append("'.");
    Err(error.context(advice))
}

/// What is done next to put a new executable in its place.
#[derive(Debug)]
pub enum ReplaceAction {
    /// Rename the running executable, which Windows does not let be removed.
    MoveAside,
    /// Remove the running executable.
    RemoveOld,
    /// Rename the new executable to the path that it goes to.
    Rename,
    /// Copy the new executable to that path: it cannot be renamed across devices.
    Copy,
    Finish(Result<(), IoFailure>),
}

/// What was done last to put a new executable in its place.
#[derive(Debug, Clone, Copy, PartialEq, Eq, Structural)]
pub enum ReplacePhase {
    Clearing,
    Renaming,
    Copying,
    Finished,
}

/// Begins to put a new executable in the place of the running one, which has to go first.
pub fn replace_exe(is_windows: bool) -> (r: (ReplacePhase, ReplaceAction))
    ensures
        r.0 is Clearing,
        is_windows ==> r.1 is MoveAside,
        !is_windows ==> r.1 is RemoveOld,
{
    if is_windows {
        (ReplacePhase::Clearing, ReplaceAction::MoveAside)
    } else {
        (ReplacePhase::Clearing, ReplaceAction::RemoveOld)
    }
}

/// Begins to put a new executable in a place where the running one is not.
pub fn move_exe() -> (r: (ReplacePhase, ReplaceAction))
    ensures
        r.0 is Renaming,
        r.1 is Rename,
{
    (ReplacePhase::Renaming, ReplaceAction::Rename)
}

/// Goes on after an action. Where the new executable cannot be renamed it is copied, and every other
/// failure is final. A finished replacement stays finished.
pub fn replace_exe_step(phase: ReplacePhase, done: Result<(), IoFailure>) -> (r: (
    ReplacePhase,
    ReplaceAction,
))
    ensures
        match (phase, done) {
            (ReplacePhase::Clearing, Ok(_)) => r.0 is Renaming && r.1 is Rename,
            (ReplacePhase::Renaming, Err(_)) => r.0 is Copying && r.1 is Copy,
            _ => r.0 is Finished && r.1 == ReplaceAction::Finish(done),
        },
{
    match (phase, done) {
        (ReplacePhase::Clearing, Ok(_)) => (ReplacePhase::Renaming, ReplaceAction::Rename),
        // Windows cannot rename files across device boundaries, so if rename fails,
        // we try again with copy.
        (ReplacePhase::Renaming, Err(_)) => (ReplacePhase::Copying, ReplaceAction::Copy),
        (_, done) => (ReplacePhase::Finished, ReplaceAction::Finish(done)),
    }
}

/// What does not change while an upgrade goes on.
#[derive(Debug, Clone)]
pub struct UpgradePlan {
    pub flags: UpgradeFlags,
    /// The running version.
    pub version: VersionInfo,
    /// The name of the archive that holds the executable.
    pub archive_name: String,
    pub current_exe_path: FilePath,
    /// The full path that the user asked the executable to be put at.
    pub full_path_output: Option<FilePath>,
    /// The permissions that the new executable gets.
    pub permissions: Permissions,
    pub is_windows: bool,
    /// The arguments of the running command, without the executable, joined by spaces.
    pub args: String,
}

impl UpgradePlan {
    /// A version is installed even if it is the running one.
    pub open spec fn forced(self) -> bool {
        self.flags.force || self.full_path_output is Some
    }

    /// Where the new executable goes.
    pub open spec fn output(self) -> FilePath {
        match self.full_path_output {
            Some(path) => path,
            None => self.current_exe_path,
        }
    }

    /// How the path that the new executable goes to is shown.
    pub open spec fn output_path(self) -> Seq<char> {
        self.output().text@
    }

    /// The release notes that belong to the new version, if any: canary builds have none.
    pub open spec fn notes_are(self, version: Seq<char>, notes: Option<ReleaseNotes>) -> bool {
        if self.flags.canary || crate::upgrade::minor_version(self.version.deno@)
            == crate::upgrade::minor_version(version) {
            notes is None
        } else {
            notes matches Some(notes) && crate::upgrade::notes_of(notes, version)
        }
    }

    /// The release notes of the new version can be found: both versions have a minor part.
    pub open spec fn has_notes(self, version: Seq<char>) -> bool {
        self.flags.canary || (crate::upgrade::has_minor_version(self.version.deno@)
            && crate::upgrade::has_minor_version(version))
    }
}

/// Where an upgrade stands: what the caller was told to do.
#[derive(Debug, Clone)]
pub enum UpgradePhase {
    LookingUp { channel: ReleaseChannel },
    Downloading { install_version: String, url: String },
    Unpacking { install_version: String },
    SettingPermissions { install_version: String, new_exe_path: String },
    CheckingExe { install_version: String, new_exe_path: String },
    RemovingExe { install_version: String },
    Installing { install_version: String },
    Finished,
}

/// How an upgrade ended.
#[derive(Debug, Clone)]
pub enum UpgradeOutcome {
    /// The version that was passed is the running one.
    AlreadyInstalled,
    /// The running version is the most recent one.
    MostRecent,
    /// The new version was tried and thrown away.
    DryRun { notes: Option<ReleaseNotes> },
    /// The new version was installed.
    Upgraded { install_version: String, notes: Option<ReleaseNotes> },
}

/// What the caller is to do next.
#[derive(Debug)]
pub enum UpgradeAction {
    /// Ask for the latest version on the channel.
    LookUp { channel: ReleaseChannel },
    /// Download the archive.
    Download { install_version: String, url: String },
    /// Unpack the archive into a new temporary directory.
    Unpack { install_version: String },
    SetPermissions { path: String, permissions: Permissions },
    /// Run the executable to see that it works.
    CheckExe { path: String },
    RemoveFile { path: String },
    /// Put the file in the place of the running executable.
    ReplaceExe { from: String, to: String },
    /// Move the file, or copy it where it cannot be moved.
    MoveFile { from: String, to: String },
    /// Say that the download could not be found, and exit with an error code.
    Abort,
    Finish { result: Result<UpgradeOutcome, AnyError> },
}

/// What came of an action.
#[derive(Debug)]
pub enum UpgradeEvent {
    LatestVersion(Result<String, AnyError>),
    /// The download, and whether there was one to be found.
    Downloaded(Result<bool, AnyError>),
    /// The path of the unpacked executable.
    Unpacked(Result<String, AnyError>),
    PermissionsSet(Result<(), AnyError>),
    /// The run of the new executable, and whether it was successful.
    ExeChecked(Result<bool, AnyError>),
    FileRemoved(Result<(), AnyError>),
    Installed(Result<(), IoFailure>),
}

/// An upgrade, with where it stands.
#[derive(Debug, Clone)]
pub struct Upgrade {
    pub plan: UpgradePlan,
    pub phase: UpgradePhase,
}

/// The upgrade is over with this error.
pub open spec fn failed(phase: UpgradePhase, action: UpgradeAction, error: Seq<Seq<char>>) -> bool {
    &&& phase is Finished
    &&& action matches UpgradeAction::Finish { result } && result matches Err(e) && e@ == error
}

/// The upgrade goes on with the download of the chosen version, or ends because the address of
/// the download cannot be made.
pub open spec fn goes_on_to_download(
    plan: UpgradePlan,
    install_version: Seq<char>,
    phase: UpgradePhase,
    action: UpgradeAction,
) -> bool {
    let address = crate::upgrade::download_address(
        install_version,
        plan.flags.canary,
        plan.archive_name@,
    );
    match crate::url::parsed_url(address) {
        Ok(parsed) => {
            &&& phase matches UpgradePhase::Downloading { install_version: v, url: u } && v@
                == install_version && u@ == parsed
            &&& action matches UpgradeAction::Download { install_version: v, url: u } && v@
                == install_version && u@ == parsed
        },
        Err(cause) => failed(
            phase,
            action,
            seq!["Failed to parse URL to download new release: "@ + address, cause],
        ),
    }
}

fn go_on_to_download(plan: &UpgradePlan, install_version: String) -> (r: (
    UpgradePhase,
    UpgradeAction,
))
    ensures
        goes_on_to_download(*plan, install_version@, r.0, r.1),
{
    match get_download_url(
        install_version.as_str(),
        plan.flags.canary,
        plan.archive_name.as_str(),
    ) {
        Ok(url) => (
            UpgradePhase::Downloading { install_version: install_version.clone(), url: url.clone() },
            UpgradeAction::Download { install_version, url },
        ),
        Err(e) => (UpgradePhase::Finished, UpgradeAction::Finish { result: Err(e) }),
    }
}

fn fail(error: AnyError) -> (r: (UpgradePhase, UpgradeAction))
    ensures
        failed(r.0, r.1, error@),
{
    (UpgradePhase::Finished, UpgradeAction::Finish { result: Err(error) })
}

impl Upgrade {
    /// The version that the flags ask for.
    pub open spec fn requested(plan: UpgradePlan) -> Option<Seq<char>> {
        match plan.flags.version {
            Some(passed) => Some(crate::upgrade::without_v(passed@)),
            None => None,
        }
    }

    /// The channel that the flags ask for.
    pub open spec fn channel(plan: UpgradePlan) -> ReleaseChannel {
        if plan.flags.canary {
            ReleaseChannel::Canary
        } else {
            ReleaseChannel::Stable
        }
    }

    /// The first step: what the flags ask for is looked up, downloaded, refused, or already there.
    pub open spec fn starts(plan: UpgradePlan, phase: UpgradePhase, action: UpgradeAction) -> bool {
        match Self::requested(plan) {
            None => {
                &&& phase == (UpgradePhase::LookingUp { channel: Self::channel(plan) })
                &&& action == (UpgradeAction::LookUp { channel: Self::channel(plan) })
            },
            Some(version) => if plan.flags.canary && !crate::upgrade::is_commit_hash(version) {
                failed(phase, action, seq!["Invalid commit hash passed"@])
            } else if !plan.flags.canary && crate::semver::parsed_version(version) is None {
                failed(phase, action, seq!["Invalid version passed"@])
            } else if !plan.forced() && crate::upgrade::current_is_passed(
                Self::channel(plan),
                version,
                plan.version,
            ) {
                &&& phase is Finished
                &&& action matches UpgradeAction::Finish { result } && result matches Ok(outcome)
                    && outcome is AlreadyInstalled
            } else {
                goes_on_to_download(plan, version, phase, action)
            },
        }
    }

    /// The event answers the action that the upgrade waits for, and the upgrade can go on with it.
    /// It cannot where the latest version cannot be compared with the running one, where the new
    /// executable does not work, or where a version without a dot makes the release notes
    /// unknown.
    pub open spec fn accepts(self, event: UpgradeEvent) -> bool {
        match (self.phase, event) {
            (
                UpgradePhase::LookingUp { channel },
                UpgradeEvent::LatestVersion(Ok(latest)),
            ) => crate::upgrade::can_compare(channel, latest@, self.plan.version),
            (UpgradePhase::LookingUp { channel }, UpgradeEvent::LatestVersion(Err(_))) => true,
            (UpgradePhase::Downloading { .. }, UpgradeEvent::Downloaded(_)) => true,
            (UpgradePhase::Unpacking { .. }, UpgradeEvent::Unpacked(_)) => true,
            (UpgradePhase::SettingPermissions { .. }, UpgradeEvent::PermissionsSet(_)) => true,
            (UpgradePhase::CheckingExe { .. }, UpgradeEvent::ExeChecked(Ok(success))) => success,
            (UpgradePhase::CheckingExe { .. }, UpgradeEvent::ExeChecked(Err(_))) => true,
            (
                UpgradePhase::RemovingExe { install_version },
                UpgradeEvent::FileRemoved(Ok(_)),
            ) => self.plan.has_notes(install_version@),
            (UpgradePhase::RemovingExe { .. }, UpgradeEvent::FileRemoved(Err(_))) => true,
            (
                UpgradePhase::Installing { install_version },
                UpgradeEvent::Installed(Ok(_)),
            ) => self.plan.has_notes(install_version@),
            (UpgradePhase::Installing { .. }, UpgradeEvent::Installed(Err(_))) => true,
            _ => false,
        }
    }

    /// The step that an accepted event leads to.
    pub open spec fn steps_to(
        self,
        event: UpgradeEvent,
        phase: UpgradePhase,
        action: UpgradeAction,
    ) -> bool {
        match (self.phase, event) {
            (
                UpgradePhase::LookingUp { channel },
                UpgradeEvent::LatestVersion(result),
            ) => match result {
                Err(e) => failed(phase, action, e@),
                Ok(latest) => if !self.plan.forced() && crate::upgrade::current_is_most_recent(
                    channel,
                    latest@,
                    self.plan.version,
                ) {
                    &&& phase is Finished
                    &&& action matches UpgradeAction::Finish { result } && result matches Ok(
                        outcome,
                    ) && outcome is MostRecent
                } else {
                    goes_on_to_download(self.plan, latest@, phase, action)
                },
            },
            (
                UpgradePhase::Downloading { install_version, url },
                UpgradeEvent::Downloaded(result),
            ) => match result {
                Err(e) => failed(
                    phase,
                    action,
                    seq![
                        "Failed downloading "@ + url@
                            + ". The version you requested may not have been built for the current architecture."@,
                    ] + e@,
                ),
                Ok(false) => phase is Finished && action is Abort,
                Ok(true) => {
                    &&& phase == (UpgradePhase::Unpacking { install_version })
                    &&& action == (UpgradeAction::Unpack { install_version })
                },
            },
            (
                UpgradePhase::Unpacking { install_version },
                UpgradeEvent::Unpacked(result),
            ) => match result {
                Err(e) => failed(phase, action, e@),
                Ok(path) => {
                    &&& phase == (UpgradePhase::SettingPermissions {
                        install_version,
                        new_exe_path: path,
                    })
                    &&& action == (UpgradeAction::SetPermissions {
                        path,
                        permissions: self.plan.permissions,
                    })
                },
            },
            (
                UpgradePhase::SettingPermissions { install_version, new_exe_path },
                UpgradeEvent::PermissionsSet(result),
            ) => match result {
                Err(e) => failed(phase, action, e@),
                Ok(_) => {
                    &&& phase == (UpgradePhase::CheckingExe { install_version, new_exe_path })
                    &&& action == (UpgradeAction::CheckExe { path: new_exe_path })
                },
            },
            (
                UpgradePhase::CheckingExe { install_version, new_exe_path },
                UpgradeEvent::ExeChecked(result),
            ) => match result {
                Err(e) => failed(phase, action, e@),
                Ok(_) => if self.plan.flags.dry_run {
                    &&& phase == (UpgradePhase::RemovingExe { install_version })
                    &&& action == (UpgradeAction::RemoveFile { path: new_exe_path })
                } else {
                    &&& phase == (UpgradePhase::Installing { install_version })
                    &&& if crate::paths::is_same_path(
                        self.plan.output().bytes@,
                        self.plan.current_exe_path.bytes@,
                        self.plan.is_windows,
                    ) {
                        action matches UpgradeAction::ReplaceExe { from, to } && from
                            == new_exe_path && to@ == self.plan.output_path()
                    } else {
                        action matches UpgradeAction::MoveFile { from, to } && from == new_exe_path
                            && to@ == self.plan.output_path()
                    }
                },
            },
            (
                UpgradePhase::RemovingExe { install_version },
                UpgradeEvent::FileRemoved(result),
            ) => match result {
                Err(e) => failed(phase, action, e@),
                Ok(_) => {
                    &&& phase is Finished
                    &&& action matches UpgradeAction::Finish { result } && result matches Ok(
                        outcome,
                    ) && outcome matches UpgradeOutcome::DryRun { notes } && self.plan.notes_are(
                        install_version@,
                        notes,
                    )
                },
            },
            (
                UpgradePhase::Installing { install_version },
                UpgradeEvent::Installed(result),
            ) => match result {
                Err(failure) => failed(
                    phase,
                    action,
                    if self.plan.is_windows && failure.raw_os_error == Some(5i32) {
                        seq![
                            access_denied_advice(self.plan.args@, self.plan.output_path()),
                            failure.message@,
                        ]
                    } else {
                        seq![failure.message@]
                    },
                ),
                Ok(_) => {
                    &&& phase is Finished
                    &&& action matches UpgradeAction::Finish { result } && result matches Ok(
                        outcome,
                    ) && outcome matches UpgradeOutcome::Upgraded { install_version: v, notes }
                        && v == install_version && self.plan.notes_are(install_version@, notes)
                },
            },
            _ => false,
        }
    }

    /// The path that the new executable goes to.
    fn output_exe_path(&self) -> (r: &FilePath)
        ensures
            *r == self.plan.output(),
    {
        match &self.plan.full_path_output {
            Some(path) => path,
            None => &self.plan.current_exe_path,
        }
    }

    /// The release notes of the new version; `None` where they cannot be found.
    fn release_notes(&self, install_version: &String) -> (r: Option<Option<ReleaseNotes>>)
        ensures
            r is Some <==> self.plan.has_notes(install_version@),
            r matches Some(notes) ==> self.plan.notes_are(install_version@, notes),
    {
        if self.plan.flags.canary {
            return Some(None);
        }
        if !crate::upgrade::has_dot(self.plan.version.deno.as_str()) || !crate::upgrade::has_dot(
            install_version.as_str(),
        ) {
            return None;
        }
        Some(print_release_notes(self.plan.version.deno.as_str(), install_version.as_str()))
    }

    /// Goes on after an action. `None` where the upgrade does not accept the event.
    pub fn step(self, event: UpgradeEvent) -> (r: Option<(Upgrade, UpgradeAction)>)
        ensures
            r is Some <==> self.accepts(event),
            r matches Some((next, action)) ==> next.plan == self.plan && self.steps_to(
                event,
                next.phase,
                action,
            ),
    {
        let (phase, action) = match (&self.phase, event) {
            (
                UpgradePhase::LookingUp { channel },
                UpgradeEvent::LatestVersion(result),
            ) => match result {
                Err(e) => fail(e),
                Ok(latest) => {
                    let force = self.plan.flags.force || self.plan.full_path_output.is_some();
                    match try_find_latest_version_to_upgrade(
                        latest,
                        *channel,
                        force,
                        &self.plan.version,
                    ) {
                        None => {
                            return None;
                        },
                        Some(None) => (
                            UpgradePhase::Finished,
                            UpgradeAction::Finish { result: Ok(UpgradeOutcome::MostRecent) },
                        ),
                        Some(Some(install_version)) => go_on_to_download(
                            &self.plan,
                            install_version,
                        ),
                    }
                },
            },
            (
                UpgradePhase::Downloading { install_version, url },
                UpgradeEvent::Downloaded(result),
            ) => match result {
                Err(e) => {
                    let mut message: String = "Failed downloading ".to_owned();
                    message.append(url.as_str());
                    message.append(
                        ". The version you requested may not have been built for the current architecture.",
                    );
                    fail(e.context(message))
                },
                Ok(false) => (UpgradePhase::Finished, UpgradeAction::Abort),
                Ok(true) => (
                    UpgradePhase::Unpacking { install_version: install_version.clone() },
                    UpgradeAction::Unpack { install_version: install_version.clone() },
                ),
            },
            (
                UpgradePhase::Unpacking { install_version },
                UpgradeEvent::Unpacked(result),
            ) => match result {
                Err(e) => fail(e),
                Ok(path) => (
                    UpgradePhase::SettingPermissions {
                        install_version: install_version.clone(),
                        new_exe_path: path.clone(),
                    },
                    UpgradeAction::SetPermissions { path, permissions: self.plan.permissions },
                ),
            },
            (
                UpgradePhase::SettingPermissions { install_version, new_exe_path },
                UpgradeEvent::PermissionsSet(result),
            ) => match result {
                Err(e) => fail(e),
                Ok(_) => (
                    UpgradePhase::CheckingExe {
                        install_version: install_version.clone(),
                        new_exe_path: new_exe_path.clone(),
                    },
                    UpgradeAction::CheckExe { path: new_exe_path.clone() },
                ),
            },
            (
                UpgradePhase::CheckingExe { install_version, new_exe_path },
                UpgradeEvent::ExeChecked(result),
            ) => match result {
                Err(e) => fail(e),
                Ok(false) => {
                    return None;
                },
                Ok(true) => if self.plan.flags.dry_run {
                    (
                        UpgradePhase::RemovingExe { install_version: install_version.clone() },
                        UpgradeAction::RemoveFile { path: new_exe_path.clone() },
                    )
                } else {
                    let to = self.output_exe_path();
                    let from = new_exe_path.clone();
                    let action = if same_path(
                        to.bytes.as_slice(),
                        self.plan.current_exe_path.bytes.as_slice(),
                        self.plan.is_windows,
                    ) {
                        UpgradeAction::ReplaceExe { from, to: to.text.clone() }
                    } else {
                        UpgradeAction::MoveFile { from, to: to.text.clone() }
                    };
                    (UpgradePhase::Installing { install_version: install_version.clone() }, action)
                },
            },
            (
                UpgradePhase::RemovingExe { install_version },
                UpgradeEvent::FileRemoved(result),
            ) => match result {
                Err(e) => fail(e),
                Ok(_) => {
                    let notes = match self.release_notes(install_version) {
                        Some(notes) => notes,
                        None => {
                            return None;
                        },
                    };
                    let outcome = UpgradeOutcome::DryRun { notes };
                    (UpgradePhase::Finished, UpgradeAction::Finish { result: Ok(outcome) })
                },
            },
            (
                UpgradePhase::Installing { install_version },
                UpgradeEvent::Installed(result),
            ) => match check_windows_access_denied_error(
                result,
                self.output_exe_path().text.as_str(),
                self.plan.is_windows,
                self.plan.args.as_str(),
            ) {
                Err(e) => fail(e),
                Ok(_) => {
                    let notes = match self.release_notes(install_version) {
                        Some(notes) => notes,
                        None => {
                            return None;
                        },
                    };
                    let outcome = UpgradeOutcome::Upgraded {
                        install_version: install_version.clone(),
                        notes,
                    };
                    (UpgradePhase::Finished, UpgradeAction::Finish { result: Ok(outcome) })
                },
            },
            _ => {
                return None;
            },
        };
        Some((Upgrade { plan: self.plan, phase }, action))
    }
}

/// Begins an upgrade.
pub fn upgrade(plan: UpgradePlan) -> (r: (Upgrade, UpgradeAction))
    ensures
        r.0.plan == plan,
        Upgrade::starts(plan, r.0.phase, r.1),
{
    let force = plan.flags.force || plan.full_path_output.is_some();
    let flags = UpgradeFlags {
        dry_run: plan.flags.dry_run,
        force: plan.flags.force,
        canary: plan.flags.canary,
        version: plan.flags.version.clone(),
        output: None,
    };
    let (phase, action) = match RequestedVersion::from_upgrade_flags(flags) {
        Err(e) => fail(e),
        Ok(RequestedVersion::Latest(channel)) => (
            UpgradePhase::LookingUp { channel },
            UpgradeAction::LookUp { channel },
        ),
        Ok(RequestedVersion::SpecificVersion(channel, passed)) => {
            match select_specific_version_for_upgrade(channel, passed, force, &plan.version) {
                Err(e) => fail(e),
                Ok(None) => (
                    UpgradePhase::Finished,
                    UpgradeAction::Finish { result: Ok(UpgradeOutcome::AlreadyInstalled) },
                ),
                Ok(Some(install_version)) => go_on_to_download(&plan, install_version),
            }
        },
    };
    (Upgrade { plan, phase }, action)
}

/// How far an upgrade is.
pub open spec fn progress(phase: UpgradePhase) -> nat {
    match phase {
        UpgradePhase::LookingUp { .. } => 0,
        UpgradePhase::Downloading { .. } => 1,
        UpgradePhase::Unpacking { .. } => 2,
        UpgradePhase::SettingPermissions { .. } => 3,
        UpgradePhase::CheckingExe { .. } => 4,
        UpgradePhase::RemovingExe { .. } => 5,
        UpgradePhase::Installing { .. } => 5,
        UpgradePhase::Finished => 6,
    }
}

/// The action writes to the place that the executable is installed at.
pub open spec fn installs(action: UpgradeAction) -> bool {
    action is ReplaceExe || action is MoveFile
}

/// Every step brings the upgrade nearer to its end, and a finished upgrade accepts no event: an
/// upgrade comes to its end after at most six steps.
pub proof fn upgrade_always_advances(
    upgrade: Upgrade,
    event: UpgradeEvent,
    phase: UpgradePhase,
    action: UpgradeAction,
)
    requires
        upgrade.accepts(event),
        upgrade.steps_to(event, phase, action),
    ensures
        progress(upgrade.phase) < progress(phase) <= 6,
        action is Finish || action is Abort <==> phase is Finished,
{
}

/// Nothing is installed but what was run successfully before, and nothing in a dry run.
pub proof fn only_a_checked_executable_is_installed(
    upgrade: Upgrade,
    event: UpgradeEvent,
    phase: UpgradePhase,
    action: UpgradeAction,
)
    requires
        upgrade.accepts(event),
        upgrade.steps_to(event, phase, action),
        installs(action),
    ensures
        !upgrade.plan.flags.dry_run,
        upgrade.phase is CheckingExe,
        event matches UpgradeEvent::ExeChecked(result) && result == Ok::<bool, AnyError>(true),
        action matches UpgradeAction::ReplaceExe { from, .. } ==> from
            == upgrade.phase->CheckingExe_new_exe_path,
        action matches UpgradeAction::MoveFile { from, .. } ==> from
            == upgrade.phase->CheckingExe_new_exe_path,
{
}

/// An upgrade begins by downloading or installing nothing where the running version is the one
/// that was passed, unless the user forces it or asks for another place.
pub proof fn running_version_is_not_installed_again(
    plan: UpgradePlan,
    phase: UpgradePhase,
    action: UpgradeAction,
)
    requires
        Upgrade::starts(plan, phase, action),
        !plan.forced(),
        plan.flags.version matches Some(passed) && crate::upgrade::current_is_passed(
            Upgrade::channel(plan),
            crate::upgrade::without_v(passed@),
            plan.version,
        ),
    ensures
        action is Finish,
{
}

/// Where the user forces the upgrade or asks for another place, the latest version is downloaded,
/// whatever version runs: such an upgrade never ends because the running version is the most recent
/// one.
pub proof fn forced_upgrade_is_not_skipped(
    upgrade: Upgrade,
    latest: String,
    phase: UpgradePhase,
    action: UpgradeAction,
)
    requires
        upgrade.phase is LookingUp,
        upgrade.accepts(UpgradeEvent::LatestVersion(Ok(latest))),
        upgrade.steps_to(UpgradeEvent::LatestVersion(Ok(latest)), phase, action),
        upgrade.plan.flags.force || upgrade.plan.full_path_output is Some,
    ensures
        match action {
            UpgradeAction::Download { install_version, url } => install_version@ == latest@
                && phase is Downloading && crate::url::parsed_url(
                crate::upgrade::download_address(
                    latest@,
                    upgrade.plan.flags.canary,
                    upgrade.plan.archive_name@,
                ),
            ) == Ok::<Seq<char>, Seq<char>>(url@),
            UpgradeAction::Finish { result } => result is Err && crate::url::parsed_url(
                crate::upgrade::download_address(
                    latest@,
                    upgrade.plan.flags.canary,
                    upgrade.plan.archive_name@,
                ),
            ) is Err,
            _ => false,
        },
{
}

/// Unless the upgrade is forced or goes to another place, it ends where the running version is the
/// latest one or, for releases, a newer one; otherwise the latest version is downloaded.
pub proof fn upgrade_ends_at_the_latest_version(
    upgrade: Upgrade,
    channel: ReleaseChannel,
    latest: String,
    phase: UpgradePhase,
    action: UpgradeAction,
)
    requires
        upgrade.phase == (UpgradePhase::LookingUp { channel }),
        upgrade.accepts(UpgradeEvent::LatestVersion(Ok(latest))),
        upgrade.steps_to(UpgradeEvent::LatestVersion(Ok(latest)), phase, action),
        !upgrade.plan.flags.force,
        upgrade.plan.full_path_output is None,
    ensures
        ({
            let version = upgrade.plan.version;
            let ended = action matches UpgradeAction::Finish { result } && result matches Ok(outcome)
                && outcome is MostRecent;
            &&& channel is Canary ==> (ended <==> version.git_commit_hash@ == latest@)
            &&& channel is Stable && version.is_canary ==> !ended
            &&& channel is Stable && !version.is_canary ==> (ended
                <==> crate::semver::version_at_least(
                crate::semver::parsed_version(version.deno@)->Some_0,
                crate::semver::parsed_version(latest@)->Some_0,
            ))
            &&& !ended ==> match action {
                UpgradeAction::Download { install_version, .. } => install_version@ == latest@,
                UpgradeAction::Finish { result } => result is Err,
                _ => false,
            }
        }),
{
}

/// A forced upgrade to a version that was passed downloads that version, also where it is the running
/// one. A leading `v` of the version does not count.
pub proof fn forced_version_is_downloaded(
    plan: UpgradePlan,
    passed: Seq<char>,
    phase: UpgradePhase,
    action: UpgradeAction,
)
    requires
        Upgrade::starts(plan, phase, action),
        plan.flags.version matches Some(given) && (given@ == passed || given@ == seq!['v'] + passed),
        passed.len() > 0 ==> passed[0] != 'v',
        plan.flags.force || plan.full_path_output is Some,
    ensures
        match action {
            UpgradeAction::Download { install_version, .. } => install_version@ == passed,
            UpgradeAction::Finish { result } => result is Err,
            _ => false,
        },
{
    assert((seq!['v'] + passed).skip(1) =~= passed);
}

/// What an upgrade begins with where a version was passed: a canary version is a commit hash of forty
/// lower-case hexadecimal digits, a release is a version, and everything else is refused. The running
/// version is not installed again, unless it is forced: a release is the running one where the texts
/// of the versions are the same and no canary build runs, a canary version where the commits are.
pub proof fn passed_version_is_checked(
    plan: UpgradePlan,
    passed: Seq<char>,
    phase: UpgradePhase,
    action: UpgradeAction,
)
    requires
        Upgrade::starts(plan, phase, action),
        plan.flags.version matches Some(given) && (given@ == passed || given@ == seq!['v'] + passed),
        passed.len() > 0 ==> passed[0] != 'v',
    ensures
        ({
            let is_hash = passed.len() == 40 && forall|i: int|
                0 <= i < 40 ==> ('0' <= #[trigger] passed[i] && passed[i] <= '9') || ('a'
                    <= passed[i] && passed[i] <= 'f');
            let valid = if plan.flags.canary {
                is_hash
            } else {
                crate::semver::parsed_version(passed) is Some
            };
            let running = if plan.flags.canary {
                plan.version.git_commit_hash@ == passed
            } else {
                !plan.version.is_canary && plan.version.deno@ == passed
            };
            let kept = running && !plan.flags.force && plan.full_path_output is None;
            match action {
                UpgradeAction::Finish { result } => match result {
                    Ok(outcome) => valid && kept && outcome is AlreadyInstalled,
                    Err(e) => if valid {
                        !kept && crate::url::parsed_url(
                            crate::upgrade::download_address(
                                passed,
                                plan.flags.canary,
                                plan.archive_name@,
                            ),
                        ) is Err
                    } else {
                        e@ == seq![
                            if plan.flags.canary {
                                "Invalid commit hash passed"@
                            } else {
                                "Invalid version passed"@
                            },
                        ]
                    },
                },
                UpgradeAction::Download { install_version, .. } => valid && !kept
                    && install_version@ == passed,
                _ => false,
            }
        }),
{
    assert((seq!['v'] + passed).skip(1) =~= passed);
}

/// Without a version, the latest one is asked for: on the canary channel where the user asks for a
/// canary build, and on the stable one otherwise.
pub proof fn latest_version_is_asked_for(
    plan: UpgradePlan,
    phase: UpgradePhase,
    action: UpgradeAction,
)
    requires
        Upgrade::starts(plan, phase, action),
        plan.flags.version is None,
    ensures
        action matches UpgradeAction::LookUp { channel } && (channel is Canary
            <==> plan.flags.canary) && (channel is Stable <==> !plan.flags.canary) && phase == (
        UpgradePhase::LookingUp { channel }),
{
}

/// From the download to the check, an upgrade keeps its version, and the file that is checked is the one
/// that was unpacked, with the permissions of the plan. Every failure on the way ends the upgrade with
/// its error, and a version that cannot be found ends it at once.
pub proof fn download_is_unpacked_and_checked(
    upgrade: Upgrade,
    event: UpgradeEvent,
    phase: UpgradePhase,
    action: UpgradeAction,
)
    requires
        upgrade.accepts(event),
        upgrade.steps_to(event, phase, action),
    ensures
        upgrade.phase matches UpgradePhase::Downloading { install_version, url } ==> match event {
            UpgradeEvent::Downloaded(Ok(found)) => if found {
                phase == (UpgradePhase::Unpacking { install_version }) && action == (
                UpgradeAction::Unpack { install_version })
            } else {
                phase is Finished && action is Abort
            },
            UpgradeEvent::Downloaded(Err(cause)) => action matches UpgradeAction::Finish {
                result,
            } && result matches Err(e) && e@ == seq![
                "Failed downloading "@ + url@
                    + ". The version you requested may not have been built for the current architecture."@,
            ] + cause@,
            _ => false,
        },
        upgrade.phase matches UpgradePhase::Unpacking { install_version } ==> match event {
            UpgradeEvent::Unpacked(Ok(unpacked)) => phase == (UpgradePhase::SettingPermissions {
                install_version,
                new_exe_path: unpacked,
            }) && action == (UpgradeAction::SetPermissions {
                path: unpacked,
                permissions: upgrade.plan.permissions,
            }),
            UpgradeEvent::Unpacked(Err(cause)) => action matches UpgradeAction::Finish { result }
                && result matches Err(e) && e@ == cause@,
            _ => false,
        },
        upgrade.phase matches UpgradePhase::SettingPermissions { install_version, new_exe_path }
            ==> match event {
            UpgradeEvent::PermissionsSet(Ok(_)) => phase == (UpgradePhase::CheckingExe {
                install_version,
                new_exe_path,
            }) && action == (UpgradeAction::CheckExe { path: new_exe_path }),
            UpgradeEvent::PermissionsSet(Err(cause)) => action matches UpgradeAction::Finish {
                result,
            } && result matches Err(e) && e@ == cause@,
            _ => false,
        },
{
}

/// A new executable that works is thrown away in a dry run. Otherwise it takes the place of the running
/// one where no other place is asked for, and of the file at that place where there is one.
pub proof fn checked_executable_goes_to_its_place(
    upgrade: Upgrade,
    phase: UpgradePhase,
    action: UpgradeAction,
)
    requires
        upgrade.phase is CheckingExe,
        upgrade.accepts(UpgradeEvent::ExeChecked(Ok(true))),
        upgrade.steps_to(UpgradeEvent::ExeChecked(Ok(true)), phase, action),
    ensures
        ({
            let plan = upgrade.plan;
            let new_exe_path = upgrade.phase->CheckingExe_new_exe_path;
            &&& plan.flags.dry_run ==> phase is RemovingExe && action == (
            UpgradeAction::RemoveFile { path: new_exe_path })
            &&& !plan.flags.dry_run ==> phase is Installing
            &&& !plan.flags.dry_run && plan.full_path_output is None ==> match action {
                UpgradeAction::ReplaceExe { from, to } => from == new_exe_path && to@
                    == plan.current_exe_path.text@,
                _ => false,
            }
            &&& !plan.flags.dry_run && plan.full_path_output is Some ==> match action {
                UpgradeAction::ReplaceExe { from, to } => from == new_exe_path && to@
                    == plan.full_path_output->Some_0.text@ && crate::paths::is_same_path(
                    plan.full_path_output->Some_0.bytes@,
                    plan.current_exe_path.bytes@,
                    plan.is_windows,
                ),
                UpgradeAction::MoveFile { from, to } => from == new_exe_path && to@
                    == plan.full_path_output->Some_0.text@ && !crate::paths::is_same_path(
                    plan.full_path_output->Some_0.bytes@,
                    plan.current_exe_path.bytes@,
                    plan.is_windows,
                ),
                _ => false,
            }
        }),
{
    crate::paths::path_is_the_same_as_itself(
        upgrade.plan.current_exe_path.bytes@,
        upgrade.plan.is_windows,
    );
}

/// An upgrade that ends well says which version was installed, and points to the release notes of a
/// release whose major or minor number is another than that of the running version. Of a canary build,
/// and where only the patch number differs, there are none.
pub proof fn upgrade_ends_with_its_notes(
    upgrade: Upgrade,
    event: UpgradeEvent,
    phase: UpgradePhase,
    action: UpgradeAction,
)
    requires
        upgrade.accepts(event),
        upgrade.steps_to(event, phase, action),
        event is FileRemoved || event is Installed,
    ensures
        action matches UpgradeAction::Finish { result } && match result {
            Err(_) => true,
            Ok(outcome) => {
                let (installed, notes) = match outcome {
                    UpgradeOutcome::DryRun { notes } => (
                        upgrade.phase->RemovingExe_install_version@,
                        notes,
                    ),
                    UpgradeOutcome::Upgraded { install_version, notes } => (
                        upgrade.phase->Installing_install_version@,
                        notes,
                    ),
                    _ => (Seq::empty(), None),
                };
                &&& outcome is DryRun <==> upgrade.phase is RemovingExe
                &&& outcome is Upgraded <==> upgrade.phase is Installing
                &&& outcome is DryRun || outcome is Upgraded
                &&& outcome matches UpgradeOutcome::Upgraded { install_version, .. }
                    ==> install_version@ == installed
                &&& upgrade.plan.flags.canary ==> notes is None
                &&& !upgrade.plan.flags.canary ==> (notes is None
                    <==> crate::upgrade::minor_version(upgrade.plan.version.deno@)
                    == crate::upgrade::minor_version(installed))
                &&& notes matches Some(notes) ==> {
                    &&& notes.release_notes_url@
                        == "https://github.com/denoland/deno/releases/tag/v"@ + installed
                    &&& notes.blog_post_url@ == "https://deno.com/blog/v"@
                        + crate::upgrade::minor_version(installed)
                }
            },
        },
        phase is Finished,
{
}

/// An upgrade that fails at its last step says why; where Windows denied the access, with advice.
pub proof fn failed_installation_is_explained(
    upgrade: Upgrade,
    failure: IoFailure,
    phase: UpgradePhase,
    action: UpgradeAction,
)
    requires
        upgrade.phase is Installing,
        upgrade.accepts(UpgradeEvent::Installed(Err(failure))),
        upgrade.steps_to(UpgradeEvent::Installed(Err(failure)), phase, action),
    ensures
        action matches UpgradeAction::Finish { result } && result matches Err(e) && e@.last()
            == failure.message@ && (e@.len() == 2 <==> upgrade.plan.is_windows
            && failure.raw_os_error == Some(5i32)) && (e@.len() == 1 || e@.len() == 2),
{
}

/// The running executable is moved aside on Windows, and removed elsewhere, before the new one takes its
/// place. A new one that cannot be renamed is copied, and whatever the copy gives ends the matter.
pub proof fn executable_is_replaced_in_order(
    is_windows: bool,
    first: (ReplacePhase, ReplaceAction),
    cleared: Result<(), IoFailure>,
    second: (ReplacePhase, ReplaceAction),
    renamed: Result<(), IoFailure>,
    third: (ReplacePhase, ReplaceAction),
    copied: Result<(), IoFailure>,
    fourth: (ReplacePhase, ReplaceAction),
)
    requires
        call_ensures(replace_exe, (is_windows,), first),
        call_ensures(replace_exe_step, (first.0, cleared), second),
        call_ensures(replace_exe_step, (second.0, renamed), third),
        call_ensures(replace_exe_step, (third.0, copied), fourth),
    ensures
        if is_windows {
            first.1 is MoveAside
        } else {
            first.1 is RemoveOld
        },
        cleared is Err ==> second.1 == ReplaceAction::Finish(cleared),
        cleared is Ok ==> second.1 is Rename,
        cleared is Ok && renamed is Ok ==> third.1 == ReplaceAction::Finish(renamed),
        cleared is Ok && renamed is Err ==> third.1 is Copy && fourth.1 == ReplaceAction::Finish(
            copied,
        ),
{
}

/// An upgrade goes on with what answers its last action, and with nothing else. Two versions that cannot be
/// compared stop it, and so does a new executable that does not work: what is compared are releases that
/// are both versions, and everything else as it is written.
pub proof fn upgrade_waits_for_its_answer(
    upgrade: Upgrade,
    event: UpgradeEvent,
    r: Option<(Upgrade, UpgradeAction)>,
)
    requires
        call_ensures(Upgrade::step, (upgrade, event), r),
    ensures
        r matches Some((next, _)) ==> next.plan == upgrade.plan,
        match (upgrade.phase, event) {
            (UpgradePhase::LookingUp { channel }, UpgradeEvent::LatestVersion(Err(e))) => r is Some,
            (UpgradePhase::LookingUp { channel }, UpgradeEvent::LatestVersion(Ok(latest))) => {
                &&& channel is Canary ==> r is Some
                &&& channel is Stable ==> (r is Some <==> upgrade.plan.version.is_canary || (
                crate::semver::parsed_version(upgrade.plan.version.deno@) is Some
                    && crate::semver::parsed_version(latest@) is Some))
                &&& channel is Rc || channel is Lts ==> r is None
            },
            (UpgradePhase::Downloading { .. }, UpgradeEvent::Downloaded(_)) => r is Some,
            (UpgradePhase::Unpacking { .. }, UpgradeEvent::Unpacked(_)) => r is Some,
            (UpgradePhase::SettingPermissions { .. }, UpgradeEvent::PermissionsSet(_)) => r is Some,
            (UpgradePhase::CheckingExe { .. }, UpgradeEvent::ExeChecked(result)) => r is Some
                <==> result != Ok::<bool, AnyError>(false),
            (UpgradePhase::RemovingExe { .. }, UpgradeEvent::FileRemoved(_)) => true,
            (UpgradePhase::Installing { .. }, UpgradeEvent::Installed(_)) => true,
            _ => r is None,
        },
{
}

/// The new executable gets the permissions of the file that it takes the place of or, where there is none,
/// those of the current executable. A file that cannot be written is an error, and so is one that is
/// owned by root, unless root asks.
pub proof fn permissions_are_those_of_the_replaced_file(
    current_exe: Result<FileMetadata, AnyError>,
    output_exe: Option<FileMetadata>,
    output_exe_path: &str,
    effective_user_is_root: bool,
    r: Result<Permissions, AnyError>,
)
    requires
        call_ensures(
            set_exe_permissions,
            (current_exe, output_exe, output_exe_path, effective_user_is_root),
            r,
        ),
    ensures
        output_exe is None ==> (r is Ok <==> current_exe is Ok) && (r matches Ok(permissions)
            ==> permissions == current_exe->Ok_0.permissions) && (r matches Err(e)
            ==> e == current_exe->Err_0),
        output_exe matches Some(output) ==> {
            &&& r is Err <==> output.permissions.readonly || (output.owner == Some(0u32)
                && !effective_user_is_root)
            &&& r matches Ok(permissions) ==> permissions == output.permissions
            &&& output.permissions.readonly ==> (r matches Err(e) && e@ == seq![
                "You do not have write permission to "@ + output_exe_path@,
            ])
            &&& !output.permissions.readonly && output.owner == Some(0u32)
                && !effective_user_is_root ==> (r matches Err(e) && e@ == seq![
                "You don't have write permission to "@ + output_exe_path@
                    + " because it's owned by root.\nConsider updating deno through your package manager if its installed from it.\nOtherwise run `deno upgrade` as root."@,
            ])
        },
{
}

/// Only Windows denies the access to a running executable by the error number 5, and only that error gets
/// advice, in front of what the system says.
pub proof fn only_denied_access_gets_advice(
    failure: IoFailure,
    output_exe_path: &str,
    is_windows: bool,
    args: &str,
    r: Result<(), AnyError>,
)
    requires
        call_ensures(
            check_windows_access_denied_error,
            (Err(failure), output_exe_path, is_windows, args),
            r,
        ),
    ensures
        r matches Err(e) && e@.last() == failure.message@ && (is_windows && failure.raw_os_error
            == Some(5i32) ==> e@.len() == 2 && e@[0]
            == "Could not replace the deno executable. This may be because an existing deno process is running. Please ensure there are no running deno processes (ex. Stop-Process -Name deno ; deno "@
            + args@
            + "), close any editors before upgrading, and ensure you have sufficient permission to '"@
            + output_exe_path@ + "'."@) && (!is_windows || failure.raw_os_error != Some(5i32)
            ==> e@.len() == 1),
{
}

/// An upgrade begins with its plan, and with a first step that follows from it: a lookup, a download, or an end.
pub proof fn upgrade_begins_with_its_plan(plan: UpgradePlan, r: (Upgrade, UpgradeAction))
    requires
        call_ensures(upgrade, (plan,), r),
    ensures
        r.0.plan == plan,
        plan.flags.version is None ==> r.1 is LookUp && r.0.phase is LookingUp,
        plan.flags.version is Some ==> r.1 is Download || r.1 is Finish,
        r.1 is Download <==> r.0.phase is Downloading,
        r.1 is Finish <==> r.0.phase is Finished,
{
}

/// A new executable for another place is moved there, and copied where it cannot be moved.
pub proof fn executable_is_moved_in_order(
    first: (ReplacePhase, ReplaceAction),
    renamed: Result<(), IoFailure>,
    second: (ReplacePhase, ReplaceAction),
)
    requires
        call_ensures(move_exe, (), first),
        call_ensures(replace_exe_step, (first.0, renamed), second),
    ensures
        first.1 is Rename,
        renamed is Ok ==> second.1 == ReplaceAction::Finish(renamed),
        renamed is Err ==> second.1 is Copy,
{
}

} // verus!
