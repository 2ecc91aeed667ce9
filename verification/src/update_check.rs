//! The background check for new releases: the file that remembers the last check, when to look
//! for a new release, and when to tell the user about one.

use vstd::prelude::*;
use vstd::string::*;

use crate::semver::Version;
use crate::shared::{AnyError, ReleaseChannel, VersionInfo};
use crate::text::{split_char, str_eq, trim};
use crate::time::DateTime;

verus! {

/// How often to query the server for a new version, in hours.
pub const UPGRADE_CHECK_INTERVAL: i64 = 24;

/// One hour in nanoseconds.
pub const HOUR_NANOS: i64 = 3_600_000_000_000;

/// What the check file remembers.
#[derive(Debug, Clone)]
pub struct CheckVersionFile {
    pub last_prompt: DateTime,
    pub last_checked: DateTime,
    pub current_version: String,
    pub latest_version: String,
}

/// The contents of a [`CheckVersionFile`].
#[verifier::ext_equal]
pub struct CheckVersionFileView {
    pub last_prompt: (i64, u32),
    pub last_checked: (i64, u32),
    pub current_version: Seq<char>,
    pub latest_version: Seq<char>,
}

impl View for CheckVersionFile {
    type V = CheckVersionFileView;

    open spec fn view(&self) -> CheckVersionFileView {
        CheckVersionFileView {
            last_prompt: self.last_prompt@,
            last_checked: self.last_checked@,
            current_version: self.current_version@,
            latest_version: self.latest_version@,
        }
    }
}

/// The contents of an optional [`CheckVersionFile`].
pub open spec fn opt_file(file: Option<CheckVersionFile>) -> Option<CheckVersionFileView> {
    match file {
        Some(file) => Some(file@),
        None => None,
    }
}

/// What a check file with the given text says. The text has four parts between exclamation
/// marks: the time of the last prompt, the time of the last check, the latest version and the
/// version that was current at the check. White space around the versions does not count, and
/// neither of them is empty.
pub open spec fn parsed_check_file(text: Seq<char>) -> Option<CheckVersionFileView> {
    let parts = crate::text::split(text, '!');
    if parts.len() == 4 {
        let latest_version = crate::text::trimmed(parts[2]);
        let current_version = crate::text::trimmed(parts[3]);
        match (
            crate::time::rfc3339_instant(parts[0]),
            crate::time::rfc3339_instant(parts[1]),
        ) {
            (Some(last_prompt), Some(last_checked)) => if latest_version.len() > 0
                && current_version.len() > 0 {
                Some(
                    CheckVersionFileView {
                        last_prompt,
                        last_checked,
                        current_version,
                        latest_version,
                    },
                )
            } else {
                None
            },
            _ => None,
        }
    } else {
        None
    }
}

/// The text that a check file is written as.
pub open spec fn check_file_text(file: CheckVersionFileView) -> Seq<char> {
    crate::time::rfc3339_text(file.last_prompt.0, file.last_prompt.1) + "!"@
        + crate::time::rfc3339_text(file.last_checked.0, file.last_checked.1) + "!"@
        + file.latest_version + "!"@ + file.current_version
}

/// A version text that survives being stored: it is not empty, has no white space around it and
/// no exclamation mark in it.
pub open spec fn storable_version(version: Seq<char>) -> bool {
    &&& version.len() > 0
    &&& !version.contains('!')
    &&& crate::text::trimmed(version) == version
}

/// An instant that survives being stored: one in the years 0 to 9999.
pub open spec fn storable_instant(t: (i64, u32)) -> bool {
    crate::time::FOUR_DIGIT_MIN_SECS <= t.0 <= crate::time::FOUR_DIGIT_MAX_SECS
}

/// A check file that reads back as what was written.
pub open spec fn storable(file: CheckVersionFileView) -> bool {
    &&& storable_instant(file.last_prompt)
    &&& storable_instant(file.last_checked)
    &&& storable_version(file.latest_version)
    &&& storable_version(file.current_version)
}

impl CheckVersionFile {
    /// Reads the text of a check file.
    pub fn parse(content: String) -> (r: Option<CheckVersionFile>)
        ensures
            opt_file(r) == parsed_check_file(content@),
    {
        let split_content = split_char(content.as_str(), '!');
        if split_content.len() != 4 {
            return None;
        }
        let latest_version = trim(split_content[2].as_str());
        if latest_version.as_str().is_empty() {
            return None;
        }
        let current_version = trim(split_content[3].as_str());
        if current_version.as_str().is_empty() {
            return None;
        }
        let last_prompt = match DateTime::parse_from_rfc3339(split_content[0].as_str()) {
            Some(t) => t,
            None => {
                return None;
            },
        };
        let last_checked = match DateTime::parse_from_rfc3339(split_content[1].as_str()) {
            Some(t) => t,
            None => {
                return None;
            },
        };
        Some(CheckVersionFile { last_prompt, last_checked, current_version, latest_version })
    }

    /// The text of the check file. A storable file reads back as it was.
    pub fn serialize(&self) -> (r: String)
        ensures
            r@ == check_file_text(self@),
            storable(self@) ==> parsed_check_file(r@) == Some(self@),
    {
        let last_prompt = self.last_prompt.to_rfc3339();
        let last_checked = self.last_checked.to_rfc3339();
        let mut text = last_prompt.clone();
        text.append("!");
        text.append(last_checked.as_str());
        text.append("!");
        text.append(self.latest_version.as_str());
        text.append("!");
        text.append(self.current_version.as_str());
        proof {
            if storable(self@) {
                check_file_round_trip(self@);
            }
        }
        text
    }

    /// The same file with another time of the last prompt.
    pub fn with_last_prompt(self, dt: DateTime) -> (r: CheckVersionFile)
        ensures
            r@ == (CheckVersionFileView { last_prompt: dt@, ..self@ }),
    {
        CheckVersionFile {
            last_prompt: dt,
            last_checked: self.last_checked,
            current_version: self.current_version,
            latest_version: self.latest_version,
        }
    }
}

/// More than the check interval lies between `since` and `now`.
pub open spec fn interval_over(now: (i64, u32), since: (i64, u32)) -> bool {
    crate::time::elapsed_nanos(now, since) > UPGRADE_CHECK_INTERVAL * HOUR_NANOS
}

/// Both texts are versions, and `current` is not older than `latest`.
pub open spec fn known_up_to_date(current: Seq<char>, latest: Seq<char>) -> bool {
    match (crate::semver::parsed_version(current), crate::semver::parsed_version(latest)) {
        (Some(current), Some(latest)) => crate::semver::version_at_least(current, latest),
        _ => false,
    }
}

/// The version that the user is to be told about. There is one if the file was written by the
/// version that runs now, knows another version that is not `up_to_date`, and the last prompt is
/// more than the check interval ago.
pub open spec fn prompt(
    file: Option<CheckVersionFileView>,
    current_version: Seq<char>,
    up_to_date: bool,
    now: (i64, u32),
) -> Option<Seq<char>> {
    match file {
        Some(file) => if file.current_version == current_version && file.latest_version
            != current_version && !up_to_date && interval_over(now, file.last_prompt) {
            Some(file.latest_version)
        } else {
            None
        },
        None => None,
    }
}

/// The version that the user is to be told about, where the versions' own order says what is up
/// to date.
pub open spec fn prompt_by_order(
    file: Option<CheckVersionFileView>,
    current_version: Seq<char>,
    now: (i64, u32),
) -> Option<Seq<char>> {
    let up_to_date = match file {
        Some(file) => known_up_to_date(current_version, file.latest_version),
        None => false,
    };
    prompt(file, current_version, up_to_date, now)
}

/// A new version is to be looked for: there is no readable file, or its check is more than the
/// check interval ago.
pub open spec fn check_due(file: Option<CheckVersionFileView>, now: (i64, u32)) -> bool {
    match file {
        Some(file) => interval_over(now, file.last_checked),
        None => true,
    }
}

/// Whether the text `current` is a version that is not older than the version `latest`.
pub fn is_known_up_to_date(current: &str, latest: &str) -> (r: bool)
    ensures
        r == known_up_to_date(current@, latest@),
{
    if let Some(current) = Version::parse_standard(current) {
        if let Some(latest) = Version::parse_standard(latest) {
            return current.at_least(&latest);
        }
    }
    false
}

fn is_interval_over(now: &DateTime, since: &DateTime) -> (r: bool)
    ensures
        r == interval_over(now@, since@),
{
    now.signed_duration_since(since).exceeds_hours(UPGRADE_CHECK_INTERVAL)
}

/// Decides when to look for a new version and when to tell the user about one.
#[derive(Debug, Clone)]
pub struct UpdateChecker {
    pub maybe_file: Option<CheckVersionFile>,
}

impl UpdateChecker {
    /// A checker on the text of the check file, which is empty where there is no such file.
    pub fn new(check_file: String) -> (r: UpdateChecker)
        ensures
            opt_file(r.maybe_file) == parsed_check_file(check_file@),
    {
        UpdateChecker { maybe_file: CheckVersionFile::parse(check_file) }
    }

    /// Whether to look for a new version.
    pub fn should_check_for_new_version(&self, current_time: &DateTime) -> (r: bool)
        ensures
            r == check_due(opt_file(self.maybe_file), current_time@),
    {
        match &self.maybe_file {
            Some(file) => is_interval_over(current_time, &file.last_checked),
            None => true,
        }
    }

    /// Returns the version if a new one is available and it should be prompted about.
    pub fn should_prompt(&self, current_version: &str, current_time: &DateTime) -> (r: Option<
        String,
    >)
        ensures
            crate::text::opt_text(r) == prompt_by_order(
                opt_file(self.maybe_file),
                current_version@,
                current_time@,
            ),
    {
        let up_to_date = match &self.maybe_file {
            Some(file) => is_known_up_to_date(current_version, file.latest_version.as_str()),
            None => false,
        };
        self.should_prompt_unless(up_to_date, current_version, current_time)
    }

    /// The version to prompt about, given whether the current version is known to be up to date.
    pub fn should_prompt_unless(
        &self,
        up_to_date: bool,
        current_version: &str,
        current_time: &DateTime,
    ) -> (r: Option<String>)
        ensures
            crate::text::opt_text(r) == prompt(
                opt_file(self.maybe_file),
                current_version@,
                up_to_date,
                current_time@,
            ),
    {
        let file = match &self.maybe_file {
            Some(file) => file,
            None => {
                return None;
            },
        };
        // A file of another version means that the user has probably upgraded since the last
        // check: wait for the next one.
        if !str_eq(file.current_version.as_str(), current_version) {
            return None;
        }
        if str_eq(file.latest_version.as_str(), current_version) {
            return None;
        }
        if up_to_date {
            return None;
        }
        if is_interval_over(current_time, &file.last_prompt) {
            Some(file.latest_version.clone())
        } else {
            None
        }
    }

    /// The text to write to the check file when the user has been told about the new version;
    /// `None` where there is no file to keep.
    pub fn store_prompted(self, current_time: DateTime) -> (r: Option<String>)
        ensures
            r is Some <==> self.maybe_file is Some,
            r matches Some(text) ==> {
                let file = CheckVersionFileView {
                    last_prompt: current_time@,
                    ..self.maybe_file->Some_0@
                };
                &&& text@ == check_file_text(file)
                &&& storable(file) ==> parsed_check_file(text@) == Some(file)
            },
    {
        match self.maybe_file {
            Some(file) => Some(file.with_last_prompt(current_time).serialize()),
            None => None,
        }
    }
}

/// The file that a check at `now` leaves, with a last prompt in the past, so that the next run
/// can tell the user.
pub open spec fn file_after_check(
    file: CheckVersionFileView,
    latest_version: Seq<char>,
    current_version: Seq<char>,
    now: (i64, u32),
) -> bool {
    &&& file.last_checked == now
    &&& file.latest_version == latest_version
    &&& file.current_version == current_version
    &&& crate::time::line_nanos(file.last_prompt) == crate::time::line_nanos(now) - (
    UPGRADE_CHECK_INTERVAL + 1) * HOUR_NANOS
    &&& file.last_prompt.1 < 1_000_000_000
}

/// The text to write to the check file after the latest version was asked for at `current_time`.
/// Where the channel or the version could not be found out there is none, and the file stays as
/// it is.
pub fn fetch_and_store_latest_version(
    release_channel: Result<ReleaseChannel, AnyError>,
    latest_version: Result<String, AnyError>,
    current_version: &str,
    current_time: DateTime,
) -> (r: Option<String>)
    requires
        crate::time::MIN_SECS <= current_time@.0 - (UPGRADE_CHECK_INTERVAL + 1) * 3600,
    ensures
        r is Some <==> release_channel is Ok && latest_version is Ok,
        r matches Some(text) ==> exists|file: CheckVersionFileView|
            {
                &&& #[trigger] file_after_check(
                    file,
                    latest_version->Ok_0@,
                    current_version@,
                    current_time@,
                )
                &&& text@ == check_file_text(file)
                &&& storable(file) ==> parsed_check_file(text@) == Some(file)
            },
{
    let _channel = match release_channel {
        Ok(channel) => channel,
        Err(_) => {
            return None;
        },
    };
    let latest_version = match latest_version {
        Ok(version) => version,
        Err(_) => {
            return None;
        },
    };
    let file = CheckVersionFile {
        // put a date in the past here so that prompt can be shown on next run
        last_prompt: current_time.minus_hours(UPGRADE_CHECK_INTERVAL + 1),
        last_checked: current_time,
        current_version: current_version.to_owned(),
        latest_version,
    };
    assert(file_after_check(file@, latest_version@, current_version@, current_time@));
    Some(file.serialize())
}

/// Whether to check for upgrades: only where the environment does not hold the variable
/// `DENO_NO_UPDATE_CHECK`, whatever its value.
pub fn upgrade_check_enabled(no_update_check_is_set: bool) -> (r: bool)
    ensures
        r == !no_update_check_is_set,
{
    !no_update_check_is_set
}

/// What the user is told about a new version.
#[derive(Debug, Clone, PartialEq, Eq)]
pub struct UpgradeNotice {
    pub headline: String,
    /// The current and the new version, for a release.
    pub versions: Option<(String, String)>,
    pub hint: String,
}

impl UpgradeNotice {
    /// The notice says that there is a new canary build, without its version.
    pub open spec fn is_for_canary(self) -> bool {
        &&& self.headline@ == "A new canary release of Deno is available."@
        &&& self.versions is None
        &&& self.hint@ == "Run `deno upgrade --canary` to install it."@
    }

    /// The notice says that the release `latest` can take the place of `current`.
    pub open spec fn is_for_release(self, current: Seq<char>, latest: Seq<char>) -> bool {
        &&& self.headline@ == "A new release of Deno is available:"@
        &&& self.versions matches Some((c, l)) && c@ == current && l@ == latest
        &&& self.hint@ == "Run `deno upgrade` to install it."@
    }

    fn new(version: &VersionInfo, upgrade_version: String) -> (r: UpgradeNotice)
        ensures
            version.is_canary ==> r.is_for_canary(),
            !version.is_canary ==> r.is_for_release(version.deno@, upgrade_version@),
    {
        if version.is_canary {
            UpgradeNotice {
                headline: "A new canary release of Deno is available.".to_owned(),
                versions: None,
                hint: "Run `deno upgrade --canary` to install it.".to_owned(),
            }
        } else {
            UpgradeNotice {
                headline: "A new release of Deno is available:".to_owned(),
                versions: Some((version.deno.clone(), upgrade_version)),
                hint: "Run `deno upgrade` to install it.".to_owned(),
            }
        }
    }
}

/// What a run of the executable does about new versions.
#[derive(Debug, Clone)]
pub struct UpgradeCheck {
    /// Ask for the latest version in the background, and store it.
    pub fetch: bool,
    /// Show this to the user.
    pub notice: Option<UpgradeNotice>,
    /// Write this to the check file.
    pub write: Option<String>,
}

/// Decides what a run of the executable does about new versions. A notice can be shown only where
/// the log level and the terminal allow it (`can_show`), and is stored as shown only where it is.
pub fn check_for_upgrades(
    enabled: bool,
    check_file: String,
    current_time: DateTime,
    version: &VersionInfo,
    can_show: bool,
) -> (r: UpgradeCheck)
    ensures
        ({
            let file = parsed_check_file(check_file@);
            let upgrade_version = prompt_by_order(
                file,
                version.release_version_or_canary_commit_hash@,
                current_time@,
            );
            &&& r.fetch == (enabled && check_due(file, current_time@))
            &&& r.notice is Some <==> enabled && can_show && upgrade_version is Some
            &&& r.notice matches Some(notice) ==> if version.is_canary {
                notice.is_for_canary()
            } else {
                notice.is_for_release(version.deno@, upgrade_version->Some_0)
            }
            &&& r.write is Some <==> r.notice is Some
            &&& r.write matches Some(text) ==> text@ == check_file_text(
                CheckVersionFileView { last_prompt: current_time@, ..file->Some_0 },
            )
            &&& r.write matches Some(text) ==> storable(
                (CheckVersionFileView { last_prompt: current_time@, ..file->Some_0 }),
            ) ==> parsed_check_file(text@) == Some(
                CheckVersionFileView { last_prompt: current_time@, ..file->Some_0 },
            )
        }),
{
    if !enabled {
        return UpgradeCheck { fetch: false, notice: None, write: None };
    }
    let update_checker = UpdateChecker::new(check_file);
    let fetch = update_checker.should_check_for_new_version(&current_time);
    let current_version = version.release_version_or_canary_commit_hash.as_str();
    if let Some(upgrade_version) = update_checker.should_prompt(current_version, &current_time) {
        if can_show {
            let notice = UpgradeNotice::new(version, upgrade_version);
            let write = update_checker.store_prompted(current_time);
            return UpgradeCheck { fetch, notice: Some(notice), write };
        }
    }
    UpgradeCheck { fetch, notice: None, write: None }
}

#[derive(Debug, Clone, PartialEq, Eq)]
pub struct LspVersionUpgradeInfo {
    pub latest_version: String,
    pub is_canary: bool,
}

/// What the language server tells its client about a new version: nothing where the latest
/// version is the current one, or where a release is known to be up to date.
pub open spec fn lsp_upgrade(
    release_channel: ReleaseChannel,
    latest_version: Seq<char>,
    current_version: Seq<char>,
    up_to_date: bool,
) -> Option<(Seq<char>, bool)> {
    if current_version == latest_version {
        None
    } else if release_channel is Canary {
        Some((latest_version, true))
    } else if up_to_date {
        None
    } else {
        Some((latest_version, false))
    }
}

/// The contents of an optional [`LspVersionUpgradeInfo`].
pub open spec fn opt_info(info: Option<LspVersionUpgradeInfo>) -> Option<(Seq<char>, bool)> {
    match info {
        Some(info) => Some((info.latest_version@, info.is_canary)),
        None => None,
    }
}

/// An upgrade is on the stable or the canary channel: the others have no upgrades yet.
pub open spec fn lsp_channel_is_served(
    release_channel: Result<ReleaseChannel, AnyError>,
    latest_version: Result<String, AnyError>,
    current_version: Seq<char>,
) -> bool {
    match (release_channel, latest_version) {
        (Ok(channel), Ok(latest)) => latest@ != current_version ==> channel is Stable
            || channel is Canary,
        _ => true,
    }
}

/// The upgrade that the language server tells its client about, given the channel of the
/// executable, the latest version on it, and the current version.
pub fn check_for_upgrades_for_lsp_with_provider(
    release_channel: Result<ReleaseChannel, AnyError>,
    latest_version: Result<String, AnyError>,
    current_version: &str,
) -> (r: Result<Option<LspVersionUpgradeInfo>, AnyError>)
    requires
        lsp_channel_is_served(release_channel, latest_version, current_version@),
    ensures
        r is Ok <==> release_channel is Ok && latest_version is Ok,
        release_channel matches Err(e) ==> r == Err::<Option<LspVersionUpgradeInfo>, AnyError>(e),
        (release_channel is Ok && latest_version is Err) ==> r->Err_0 == latest_version->Err_0,
        r matches Ok(info) ==> opt_info(info) == lsp_upgrade(
            release_channel->Ok_0,
            latest_version->Ok_0@,
            current_version@,
            known_up_to_date(current_version@, latest_version->Ok_0@),
        ),
{
    let release_channel = match release_channel {
        Ok(channel) => channel,
        Err(e) => {
            return Err(e);
        },
    };
    let latest_version = match latest_version {
        Ok(version) => version,
        Err(e) => {
            return Err(e);
        },
    };
    let up_to_date = is_known_up_to_date(current_version, latest_version.as_str());
    Ok(lsp_upgrade_unless(up_to_date, release_channel, latest_version, current_version))
}

/// The upgrade that the language server tells its client about, given whether the current version
/// is known to be up to date.
pub fn lsp_upgrade_unless(
    up_to_date: bool,
    release_channel: ReleaseChannel,
    latest_version: String,
    current_version: &str,
) -> (r: Option<LspVersionUpgradeInfo>)
    requires
        latest_version@ != current_version@ ==> release_channel is Stable
            || release_channel is Canary,
    ensures
        opt_info(r) == lsp_upgrade(
            release_channel,
            latest_version@,
            current_version@,
            up_to_date,
        ),
{
    // Nothing to upgrade
    if str_eq(current_version, latest_version.as_str()) {
        return None;
    }
    match release_channel {
        ReleaseChannel::Canary => Some(LspVersionUpgradeInfo { latest_version, is_canary: true }),
        _ => if up_to_date {
            None
        } else {
            Some(LspVersionUpgradeInfo { latest_version, is_canary: false })
        },
    }
}

/// The upgrade that the language server tells its client about; none where the check for upgrades
/// is not enabled, whatever was found out.
pub fn check_for_upgrades_for_lsp(
    enabled: bool,
    release_channel: Result<ReleaseChannel, AnyError>,
    latest_version: Result<String, AnyError>,
    current_version: &str,
) -> (r: Result<Option<LspVersionUpgradeInfo>, AnyError>)
    requires
        enabled ==> lsp_channel_is_served(release_channel, latest_version, current_version@),
    ensures
        r is Ok <==> !enabled || (release_channel is Ok && latest_version is Ok),
        (enabled && release_channel is Err) ==> r->Err_0 == release_channel->Err_0,
        (enabled && release_channel is Ok && latest_version is Err) ==> r->Err_0
            == latest_version->Err_0,
        r matches Ok(info) ==> opt_info(info) == if enabled {
            lsp_upgrade(
                release_channel->Ok_0,
                latest_version->Ok_0@,
                current_version@,
                known_up_to_date(current_version@, latest_version->Ok_0@),
            )
        } else {
            None
        },
{
    if !enabled {
        return Ok(None);
    }
    check_for_upgrades_for_lsp_with_provider(release_channel, latest_version, current_version)
}

/// After a check, none is due until more than the check interval has passed. Until then, and as
/// long as the same version runs, the user is told about the version that the check found, if it
/// is another one and not known to be outdated.
pub proof fn check_holds_for_the_interval(
    file: CheckVersionFileView,
    latest_version: Seq<char>,
    current_version: Seq<char>,
    checked: (i64, u32),
    up_to_date: bool,
    now: (i64, u32),
)
    requires
        file_after_check(file, latest_version, current_version, checked),
        crate::time::line_nanos(checked) <= crate::time::line_nanos(now),
    ensures
        check_due(Some(file), now) <==> interval_over(now, checked),
        prompt(Some(file), current_version, up_to_date, now) == if latest_version != current_version
            && !up_to_date {
            Some(latest_version)
        } else {
            None
        },
{
}

/// After the user was told, they are not told again until more than the check interval has
/// passed; and then they are, if they were to be told before.
pub proof fn prompt_is_not_repeated(
    file: CheckVersionFileView,
    prompted: (i64, u32),
    current_version: Seq<char>,
    up_to_date: bool,
    now: (i64, u32),
)
    requires
        prompt(Some(file), current_version, up_to_date, prompted) is Some,
    ensures
        prompt(
            Some(CheckVersionFileView { last_prompt: prompted, ..file }),
            current_version,
            up_to_date,
            now,
        ) == if interval_over(now, prompted) {
            prompt(Some(file), current_version, up_to_date, prompted)
        } else {
            None
        },
{
}

/// No file makes the checker tell the user about the version that runs, about a version that the
/// running one is known to be up to date with, or on behalf of another version than the one that
/// runs.
pub proof fn prompt_is_about_another_version(
    file: Option<CheckVersionFileView>,
    current_version: Seq<char>,
    now: (i64, u32),
)
    ensures
        prompt_by_order(file, current_version, now) matches Some(version) ==> {
            &&& version != current_version
            &&& !known_up_to_date(current_version, version)
            &&& file is Some && file->Some_0.current_version == current_version
        },
{
}

/// Writing a file and reading it gives the file back, given how the instants' texts are written
/// and read.
proof fn check_file_round_trip(file: CheckVersionFileView)
    requires
        storable(file),
        !crate::time::rfc3339_text(file.last_prompt.0, file.last_prompt.1).contains('!'),
        !crate::time::rfc3339_text(file.last_checked.0, file.last_checked.1).contains('!'),
        crate::time::rfc3339_instant(
            crate::time::rfc3339_text(file.last_prompt.0, file.last_prompt.1),
        ) == Some(file.last_prompt),
        crate::time::rfc3339_instant(
            crate::time::rfc3339_text(file.last_checked.0, file.last_checked.1),
        ) == Some(file.last_checked),
    ensures
        parsed_check_file(check_file_text(file)) == Some(file),
{
    reveal_strlit("!");
    assert("!"@ =~= seq!['!']);
    crate::text::split_of_four(
        crate::time::rfc3339_text(file.last_prompt.0, file.last_prompt.1),
        crate::time::rfc3339_text(file.last_checked.0, file.last_checked.1),
        file.latest_version,
        file.current_version,
        '!',
    );
}

/// A check or a prompt is due again when more than twenty-four hours have passed since the last one: not
/// after twenty-four hours, and in the next nanosecond.
pub proof fn interval_is_a_day(now: (i64, u32), since: (i64, u32))
    ensures
        interval_over(now, since) <==> crate::time::elapsed_nanos(now, since) > 86_400_000_000_000,
        now.1 < 1_000_000_000 && since.1 < 1_000_000_000 ==> (interval_over(now, since) <==> (now.0
            - since.0) * 1_000_000_000 + (now.1 - since.1) > 86_400_000_000_000),
{
}

/// The user is told about a new version exactly where the file was written by the running version, knows
/// another version that the running one is not known to be up to date with, and more than a day has
/// passed since the last prompt; and it is the latest version that they are told about.
pub proof fn prompt_needs_all_conditions(
    checker: &UpdateChecker,
    current_version: &str,
    current_time: &DateTime,
    r: Option<String>,
)
    requires
        call_ensures(UpdateChecker::should_prompt, (checker, current_version, current_time), r),
    ensures
        checker.maybe_file is None ==> r is None,
        checker.maybe_file matches Some(file) ==> {
            let newer = match (
                crate::semver::parsed_version(current_version@),
                crate::semver::parsed_version(file.latest_version@),
            ) {
                (Some(current), Some(latest)) => !crate::semver::version_at_least(current, latest),
                _ => true,
            };
            let nanos = crate::time::elapsed_nanos(current_time@, file.last_prompt@);
            &&& r is Some <==> file.current_version@ == current_version@ && file.latest_version@
                != current_version@ && newer && nanos > 86_400_000_000_000
            &&& r matches Some(version) ==> version@ == file.latest_version@
        },
{
}

/// A new version is looked for where there is no readable file, and where the last check is more than a
/// day ago.
pub proof fn check_is_due_after_a_day(
    checker: &UpdateChecker,
    current_time: &DateTime,
    r: bool,
)
    requires
        call_ensures(UpdateChecker::should_check_for_new_version, (checker, current_time), r),
    ensures
        checker.maybe_file is None ==> r,
        checker.maybe_file matches Some(file) ==> (r <==> crate::time::elapsed_nanos(
            current_time@,
            file.last_checked@,
        ) > 86_400_000_000_000),
{
}

/// What is stored when the user was told: the same file with the time at which they were told, and
/// nothing where there is no file.
pub proof fn told_user_is_remembered(checker: UpdateChecker, current_time: DateTime, r: Option<String>)
    requires
        call_ensures(UpdateChecker::store_prompted, (checker, current_time), r),
    ensures
        r is Some <==> checker.maybe_file is Some,
        r matches Some(text) ==> {
            let file = checker.maybe_file->Some_0;
            text@ == crate::time::rfc3339_text(current_time@.0, current_time@.1) + "!"@
                + crate::time::rfc3339_text(file.last_checked@.0, file.last_checked@.1) + "!"@
                + file.latest_version@ + "!"@ + file.current_version@
        },
{
}

/// A check file has exactly four parts: the time of the last prompt, the time of the last check, the
/// latest version and the version that was running. White space around the versions does not count, and
/// a file without one of them, or with a wrong time, cannot be read.
pub proof fn check_file_has_four_parts(
    prompted: Seq<char>,
    checked: Seq<char>,
    latest: Seq<char>,
    current: Seq<char>,
    content: String,
    r: Option<CheckVersionFile>,
)
    requires
        !prompted.contains('!'),
        !checked.contains('!'),
        !latest.contains('!'),
        !current.contains('!'),
        content@ == prompted + seq!['!'] + checked + seq!['!'] + latest + seq!['!'] + current,
        call_ensures(CheckVersionFile::parse, (content,), r),
    ensures
        r is Some <==> crate::time::rfc3339_instant(prompted) is Some
            && crate::time::rfc3339_instant(checked) is Some && crate::text::trimmed(latest).len()
            > 0 && crate::text::trimmed(current).len() > 0,
        r matches Some(file) ==> {
            &&& crate::time::rfc3339_instant(prompted) == Some(file.last_prompt@)
            &&& crate::time::rfc3339_instant(checked) == Some(file.last_checked@)
            &&& file.latest_version@ == crate::text::trimmed(latest)
            &&& file.current_version@ == crate::text::trimmed(current)
        },
{
    crate::text::split_of_four(prompted, checked, latest, current, '!');
}

/// A text with fewer or more than four parts is no check file.
pub proof fn other_texts_are_no_check_file(content: String, r: Option<CheckVersionFile>)
    requires
        call_ensures(CheckVersionFile::parse, (content,), r),
        content@.filter(|c: char| c == '!').len() != 3,
    ensures
        r is None,
{
    parts_are_counted(content@, '!');
}

proof fn parts_are_counted(s: Seq<char>, sep: char)
    ensures
        crate::text::split(s, sep).len() == s.filter(|c: char| c == sep).len() + 1,
    decreases s.len(),
{
    reveal(Seq::filter);
    if s.len() > 0 {
        parts_are_counted(s.drop_last(), sep);
    }
}

/// A run that does not check for upgrades does nothing about them. One that does looks for a new version
/// where there is no readable file or its check is more than a day ago. It shows a notice only where it can
/// be shown and the user is to be told, and remembers having told exactly where it has.
pub proof fn disabled_check_does_nothing(
    enabled: bool,
    check_file: String,
    current_time: DateTime,
    version: &VersionInfo,
    can_show: bool,
    r: UpgradeCheck,
)
    requires
        call_ensures(check_for_upgrades, (enabled, check_file, current_time, version, can_show), r),
    ensures
        !enabled ==> !r.fetch && r.notice is None && r.write is None,
        !can_show ==> r.notice is None && r.write is None,
        r.write is Some <==> r.notice is Some,
        enabled && parsed_check_file(check_file@) is None ==> r.fetch && r.notice is None,
        parsed_check_file(check_file@) matches Some(file) ==> {
            let running = version.release_version_or_canary_commit_hash@;
            let newer = match (
                crate::semver::parsed_version(running),
                crate::semver::parsed_version(file.latest_version),
            ) {
                (Some(current), Some(latest)) => !crate::semver::version_at_least(current, latest),
                _ => true,
            };
            let since_check = crate::time::elapsed_nanos(current_time@, file.last_checked);
            let since_prompt = crate::time::elapsed_nanos(current_time@, file.last_prompt);
            &&& enabled ==> (r.fetch <==> since_check > 86_400_000_000_000)
            &&& enabled && can_show ==> (r.notice is Some <==> file.current_version == running
                && file.latest_version != running && newer && since_prompt > 86_400_000_000_000)
            &&& r.write matches Some(text) ==> text@ == crate::time::rfc3339_text(
                current_time@.0,
                current_time@.1,
            ) + "!"@ + crate::time::rfc3339_text(file.last_checked.0, file.last_checked.1) + "!"@
                + file.latest_version + "!"@ + file.current_version
        },
        r.notice matches Some(notice) ==> {
            &&& version.is_canary ==> notice.headline@
                == "A new canary release of Deno is available."@ && notice.versions is None
                && notice.hint@ == "Run `deno upgrade --canary` to install it."@
            &&& !version.is_canary ==> notice.headline@ == "A new release of Deno is available:"@
                && notice.hint@ == "Run `deno upgrade` to install it."@ && (
            notice.versions matches Some((current, latest)) && current@ == version.deno@ && latest@
                == parsed_check_file(check_file@)->Some_0.latest_version)
        },
{
}

/// After a check, the file holds the version that was found and the one that runs, the time of the check,
/// and a last prompt twenty-five hours before it, so that the user can be told at once.
pub proof fn check_is_stored(
    release_channel: Result<ReleaseChannel, AnyError>,
    latest_version: Result<String, AnyError>,
    current_version: &str,
    current_time: DateTime,
    r: Option<String>,
) -> (last_prompt: (i64, u32))
    requires
        call_ensures(
            fetch_and_store_latest_version,
            (release_channel, latest_version, current_version, current_time),
            r,
        ),
    ensures
        r is Some <==> release_channel is Ok && latest_version is Ok,
        r matches Some(text) ==> {
            &&& last_prompt.0 * 1_000_000_000 + last_prompt.1 == current_time@.0 * 1_000_000_000
                + current_time@.1 - 90_000_000_000_000
            &&& text@ == crate::time::rfc3339_text(last_prompt.0, last_prompt.1) + "!"@
                + crate::time::rfc3339_text(current_time@.0, current_time@.1) + "!"@
                + latest_version->Ok_0@ + "!"@ + current_version@
        },
{
    if let Some(text) = r {
        let file = choose|file: CheckVersionFileView|
            {
                &&& #[trigger] file_after_check(
                    file,
                    latest_version->Ok_0@,
                    current_version@,
                    current_time@,
                )
                &&& text@ == check_file_text(file)
                &&& storable(file) ==> parsed_check_file(text@) == Some(file)
            };
        file.last_prompt
    } else {
        (0, 0)
    }
}

/// The language server tells its client about every other canary build, and about a release that is not
/// known to be outdated; never about the version that runs, and nothing where the check is not enabled.
pub proof fn client_is_told_about_other_versions(
    enabled: bool,
    release_channel: ReleaseChannel,
    latest_version: String,
    current_version: &str,
    r: Result<Option<LspVersionUpgradeInfo>, AnyError>,
)
    requires
        call_ensures(
            check_for_upgrades_for_lsp,
            (enabled, Ok(release_channel), Ok(latest_version), current_version),
            r,
        ),
        release_channel is Stable || release_channel is Canary,
    ensures
        r is Ok,
        !enabled || current_version@ == latest_version@ ==> r->Ok_0 is None,
        enabled && current_version@ != latest_version@ && release_channel is Canary ==> (
        r->Ok_0 matches Some(info) && info.is_canary && info.latest_version@ == latest_version@),
        enabled && current_version@ != latest_version@ && release_channel is Stable ==> {
            let outdated = match (
                crate::semver::parsed_version(current_version@),
                crate::semver::parsed_version(latest_version@),
            ) {
                (Some(current), Some(latest)) => crate::semver::version_at_least(current, latest),
                _ => false,
            };
            &&& outdated ==> r->Ok_0 is None
            &&& !outdated ==> (r->Ok_0 matches Some(info) && !info.is_canary && info.latest_version@
                == latest_version@)
        },
{
}

/// Where the channel or the latest version could not be found out, the language server says so, unless the
/// check is not enabled.
pub proof fn failed_lookup_is_handed_on(
    release_channel: Result<ReleaseChannel, AnyError>,
    latest_version: Result<String, AnyError>,
    current_version: &str,
    r: Result<Option<LspVersionUpgradeInfo>, AnyError>,
)
    requires
        call_ensures(
            check_for_upgrades_for_lsp,
            (true, release_channel, latest_version, current_version),
            r,
        ),
        release_channel is Err || latest_version is Err,
    ensures
        r matches Err(e) && match release_channel {
            Err(cause) => e == cause,
            Ok(_) => latest_version == Err::<String, AnyError>(e),
        },
{
}

/// The check for upgrades is on unless the environment turns it off.
pub proof fn environment_turns_the_check_off(no_update_check_is_set: bool, r: bool)
    requires
        call_ensures(upgrade_check_enabled, (no_update_check_is_set,), r),
    ensures
        r <==> !no_update_check_is_set,
{
}

/// What is told without a look at the versions' order: the version of the file where the order does not say
/// that the running one is up to date, and never otherwise.
pub proof fn known_order_silences_the_prompt(
    checker: &UpdateChecker,
    current_version: &str,
    current_time: &DateTime,
    silenced: Option<String>,
    told: Option<String>,
)
    requires
        call_ensures(
            UpdateChecker::should_prompt_unless,
            (checker, true, current_version, current_time),
            silenced,
        ),
        call_ensures(
            UpdateChecker::should_prompt_unless,
            (checker, false, current_version, current_time),
            told,
        ),
    ensures
        silenced is None,
        told matches Some(version) ==> version@ != current_version@ && (
        checker.maybe_file matches Some(file) && file.latest_version@ == version@
            && file.current_version@ == current_version@),
{
}

/// A stored file is read back as it was, where its times are in the years 0 to 9999 and its versions can be
/// stored.
pub proof fn stored_file_is_read_back(
    file: &CheckVersionFile,
    text: String,
    r: Option<CheckVersionFile>,
)
    requires
        call_ensures(CheckVersionFile::serialize, (file,), text),
        call_ensures(CheckVersionFile::parse, (text,), r),
        -62167219200 <= file.last_prompt@.0 <= 253402300799,
        -62167219200 <= file.last_checked@.0 <= 253402300799,
        file.latest_version@.len() > 0 && !file.latest_version@.contains('!')
            && crate::text::trimmed(file.latest_version@) == file.latest_version@,
        file.current_version@.len() > 0 && !file.current_version@.contains('!')
            && crate::text::trimmed(file.current_version@) == file.current_version@,
    ensures
        r matches Some(read) && read.last_prompt@ == file.last_prompt@ && read.last_checked@
            == file.last_checked@ && read.latest_version@ == file.latest_version@
            && read.current_version@ == file.current_version@,
{
}

/// A version is up to date with another one exactly where both are versions and it is not the older one; a text
/// that is no version is never known to be up to date.
pub proof fn only_versions_are_up_to_date(current: &str, latest: &str, r: bool)
    requires
        call_ensures(is_known_up_to_date, (current, latest), r),
    ensures
        crate::semver::parsed_version(current@) is None || crate::semver::parsed_version(
            latest@,
        ) is None ==> !r,
        crate::semver::parsed_version(current@) is Some && crate::semver::parsed_version(
            latest@,
        ) is Some ==> r == crate::semver::version_at_least(
            crate::semver::parsed_version(current@)->Some_0,
            crate::semver::parsed_version(latest@)->Some_0,
        ),
{
}

} // verus!
