//! Upgrading the executable: which version to install, and where it comes from.

use vstd::prelude::*;
use vstd::string::*;

use crate::semver::Version;
use crate::shared::{AnyError, ReleaseChannel, VersionInfo};
use crate::text::{chars_of, str_eq, string_of, trim, trim_leading};
use crate::url::parse_url;

verus! {

#[derive(Debug, Clone, Copy, PartialEq, Eq, Structural)]
pub enum UpgradeCheckKind {
    Execution,
    Lsp,
}

/// Finds out about versions: the running one, and the latest one on a channel.
#[derive(Debug, Clone)]
pub struct RealVersionProvider {
    pub version: VersionInfo,
    pub check_kind: UpgradeCheckKind,
}

impl RealVersionProvider {
    pub fn new(version: VersionInfo, check_kind: UpgradeCheckKind) -> (r: RealVersionProvider)
        ensures
            r.version == version,
            r.check_kind == check_kind,
    {
        RealVersionProvider { version, check_kind }
    }

    /// The running version: a release version or, for a canary build, a commit.
    pub fn current_version(&self) -> (r: String)
        ensures
            r@ == self.version.release_version_or_canary_commit_hash@,
    {
        self.version.release_version_or_canary_commit_hash.clone()
    }

    /// The channel that the executable was released on.
    pub fn get_current_exe_release_channel(&self) -> (r: Result<ReleaseChannel, AnyError>)
        ensures
            r is Ok,
            r->Ok_0 == if self.version.is_canary {
                ReleaseChannel::Canary
            } else {
                ReleaseChannel::Stable
            },
    {
        if self.version.is_canary {
            Ok(ReleaseChannel::Canary)
        } else {
            Ok(ReleaseChannel::Stable)
        }
    }
}

/// The name of the archive that holds the executable for a target.
pub fn archive_name(target: &str) -> (r: String)
    ensures
        r@ == "deno-"@ + target@ + ".zip"@,
{
    let mut name: String = "deno-".to_owned();
    name.append(target);
    name.append(".zip");
    name
}

/// The position of the last `c` in `s`, or -1.
pub open spec fn last_index_of(s: Seq<char>, c: char) -> int
    decreases s.len(),
{
    if s.len() == 0 {
        -1
    } else if s.last() == c {
        s.len() - 1
    } else {
        last_index_of(s.drop_last(), c)
    }
}

/// The major and minor part of a version: what stands before its last dot.
pub open spec fn minor_version(version: Seq<char>) -> Seq<char> {
    version.take(last_index_of(version, '.'))
}

/// There is a dot in the version.
pub open spec fn has_minor_version(version: Seq<char>) -> bool {
    last_index_of(version, '.') >= 0
}

/// The position of the last dot of a text.
fn last_dot(v: &Vec<char>) -> (r: Option<usize>)
    ensures
        r is Some <==> has_minor_version(v@),
        r matches Some(i) ==> i == last_index_of(v@, '.') && i < v@.len(),
{
    let mut end: usize = v.len();
    assert(v@.take(end as int) =~= v@);
    while end > 0
        invariant
            end <= v.len(),
            last_index_of(v@, '.') == last_index_of(v@.take(end as int), '.'),
        decreases end,
    {
        assert(v@.take(end as int).drop_last() =~= v@.take(end - 1));
        if v[end - 1] == '.' {
            return Some(end - 1);
        }
        end -= 1;
    }
    None
}

/// Whether there is a dot in the version.
pub fn has_dot(version: &str) -> (r: bool)
    ensures
        r == has_minor_version(version@),
{
    last_dot(&chars_of(version)).is_some()
}

/// The major and minor part of a version.
pub fn get_minor_version(version: &str) -> (r: String)
    requires
        has_minor_version(version@),
    ensures
        r@ == minor_version(version@),
{
    let v = chars_of(version);
    let end: usize = match last_dot(&v) {
        Some(end) => end,
        None => 0,
    };
    assert(version@.subrange(0, end as int) =~= version@.take(end as int));
    string_of(&v, 0, end)
}

/// Where the user can read about a new version.
#[derive(Debug, Clone, PartialEq, Eq)]
pub struct ReleaseNotes {
    pub release_notes_url: String,
    pub blog_post_url: String,
}

/// The notes are those of the given version.
pub open spec fn notes_of(notes: ReleaseNotes, version: Seq<char>) -> bool {
    &&& notes.release_notes_url@ == "https://github.com/denoland/deno/releases/tag/v"@ + version
    &&& notes.blog_post_url@ == "https://deno.com/blog/v"@ + minor_version(version)
}

/// The notes to print about a new version: none where only the patch number differs.
pub fn print_release_notes(current_version: &str, new_version: &str) -> (r: Option<ReleaseNotes>)
    requires
        has_minor_version(current_version@),
        has_minor_version(new_version@),
    ensures
        r is Some <==> minor_version(current_version@) != minor_version(new_version@),
        r matches Some(notes) ==> notes_of(notes, new_version@),
{
    let new_minor = get_minor_version(new_version);
    if str_eq(get_minor_version(current_version).as_str(), new_minor.as_str()) {
        return None;
    }
    let mut release_notes_url: String = "https://github.com/denoland/deno/releases/tag/v".to_owned();
    release_notes_url.append(new_version);
    let mut blog_post_url: String = "https://deno.com/blog/v".to_owned();
    blog_post_url.append(new_minor.as_str());
    Some(ReleaseNotes { release_notes_url, blog_post_url })
}

/// What the user asked for.
#[derive(Debug, Clone)]
pub struct UpgradeFlags {
    pub dry_run: bool,
    pub force: bool,
    pub canary: bool,
    pub version: Option<String>,
    pub output: Option<String>,
}

/// The version that the user asked for.
#[derive(Debug, Clone, PartialEq, Eq)]
pub enum RequestedVersion {
    Latest(ReleaseChannel),
    SpecificVersion(ReleaseChannel, String),
}

/// A lower-case hexadecimal digit.
pub open spec fn is_hex_digit(c: char) -> bool {
    '0' <= c <= '9' || 'a' <= c <= 'f'
}

/// The text is a full commit hash.
pub open spec fn is_commit_hash(s: Seq<char>) -> bool {
    s.len() == 40 && forall|i: int| 0 <= i < s.len() ==> is_hex_digit(#[trigger] s[i])
}

/// The text without one leading `v`.
pub open spec fn without_v(s: Seq<char>) -> Seq<char> {
    if s.len() > 0 && s[0] == 'v' {
        s.skip(1)
    } else {
        s
    }
}

fn is_hash(v: &Vec<char>) -> (r: bool)
    ensures
        r == is_commit_hash(v@),
{
    if v.len() != 40 {
        return false;
    }
    let mut i: usize = 0;
    while i < v.len()
        invariant
            i <= v.len(),
            forall|j: int| 0 <= j < i ==> is_hex_digit(#[trigger] v@[j]),
        decreases v.len() - i,
    {
        let c = v[i];
        if !(('0' <= c && c <= '9') || ('a' <= c && c <= 'f')) {
            assert(!is_hex_digit(v@[i as int]));
            return false;
        }
        i += 1;
    }
    true
}

impl RequestedVersion {
    /// The version that the flags ask for: the latest one on the channel, or the one that was
    /// passed, with or without a leading `v`. A passed canary version is a commit hash, a passed
    /// release is a version.
    pub fn from_upgrade_flags(upgrade_flags: UpgradeFlags) -> (r: Result<
        RequestedVersion,
        AnyError,
    >)
        ensures
            ({
                let channel = if upgrade_flags.canary {
                    ReleaseChannel::Canary
                } else {
                    ReleaseChannel::Stable
                };
                match upgrade_flags.version {
                    None => r == Ok::<RequestedVersion, AnyError>(RequestedVersion::Latest(channel)),
                    Some(passed) => {
                        let passed = without_v(passed@);
                        let valid = if upgrade_flags.canary {
                            is_commit_hash(passed)
                        } else {
                            crate::semver::parsed_version(passed) is Some
                        };
                        &&& r is Ok <==> valid
                        &&& r matches Ok(requested) ==> requested
                            matches RequestedVersion::SpecificVersion(c, v) && c == channel && v@
                            == passed
                        &&& r matches Err(e) ==> e@ == seq![
                            if upgrade_flags.canary {
                                "Invalid commit hash passed"@
                            } else {
                                "Invalid version passed"@
                            },
                        ]
                    },
                }
            }),
    {
        let is_canary = upgrade_flags.canary;
        let passed_version = match upgrade_flags.version {
            Some(version) => version,
            None => {
                let channel = if is_canary {
                    ReleaseChannel::Canary
                } else {
                    ReleaseChannel::Stable
                };
                return Ok(RequestedVersion::Latest(channel));
            },
        };
        let chars = chars_of(passed_version.as_str());
        let from: usize = if chars.len() > 0 && chars[0] == 'v' {
            1
        } else {
            0
        };
        let stripped = string_of(&chars, from, chars.len());
        assert(stripped@ =~= without_v(passed_version@));
        if is_canary {
            if !is_hash(&chars_of(stripped.as_str())) {
                return Err(AnyError::new("Invalid commit hash passed".to_owned()));
            }
            Ok(RequestedVersion::SpecificVersion(ReleaseChannel::Canary, stripped))
        } else {
            if Version::parse_standard(stripped.as_str()).is_none() {
                return Err(AnyError::new("Invalid version passed".to_owned()));
            }
            Ok(RequestedVersion::SpecificVersion(ReleaseChannel::Stable, stripped))
        }
    }
}

/// The channel has releases to upgrade to: the others have none yet.
pub open spec fn is_served(channel: ReleaseChannel) -> bool {
    channel is Stable || channel is Canary
}

/// The running version is the one that was passed.
pub open spec fn current_is_passed(
    release_channel: ReleaseChannel,
    passed: Seq<char>,
    version: VersionInfo,
) -> bool {
    if release_channel is Stable {
        !version.is_canary && version.deno@ == passed
    } else {
        version.git_commit_hash@ == passed
    }
}

/// The version to install where a version was passed: none where it is the running one, unless
/// the installation is forced.
pub fn select_specific_version_for_upgrade(
    release_channel: ReleaseChannel,
    passed: String,
    force: bool,
    version: &VersionInfo,
) -> (r: Result<Option<String>, AnyError>)
    requires
        is_served(release_channel),
    ensures
        r == Ok::<Option<String>, AnyError>(
            if !force && current_is_passed(release_channel, passed@, *version) {
                None
            } else {
                Some(passed)
            },
        ),
{
    let current_is_passed = match release_channel {
        ReleaseChannel::Stable => !version.is_canary && str_eq(
            version.deno.as_str(),
            passed.as_str(),
        ),
        _ => str_eq(version.git_commit_hash.as_str(), passed.as_str()),
    };
    if !force && current_is_passed {
        return Ok(None);
    }
    Ok(Some(passed))
}

/// The running version is at least as recent as the latest one.
pub open spec fn current_is_most_recent(
    release_channel: ReleaseChannel,
    latest: Seq<char>,
    version: VersionInfo,
) -> bool {
    if release_channel is Stable {
        !version.is_canary && crate::update_check::known_up_to_date(version.deno@, latest)
    } else {
        version.git_commit_hash@ == latest
    }
}

/// The running version and the latest one can be compared: a release with a release by their
/// versions, everything else as texts.
pub open spec fn can_compare(
    release_channel: ReleaseChannel,
    latest: Seq<char>,
    version: VersionInfo,
) -> bool {
    &&& is_served(release_channel)
    &&& release_channel is Stable && !version.is_canary ==> {
        &&& crate::semver::parsed_version(version.deno@) is Some
        &&& crate::semver::parsed_version(latest) is Some
    }
}

/// The latest version, unless the running one is as recent and the installation is not forced.
pub fn latest_unless_most_recent(
    latest_version: String,
    current_is_most_recent: bool,
    force: bool,
) -> (r: Option<String>)
    ensures
        r == if !force && current_is_most_recent {
            None
        } else {
            Some(latest_version)
        },
{
    if !force && current_is_most_recent {
        None
    } else {
        Some(latest_version)
    }
}

/// The version to install where the latest one was asked for.
pub fn find_latest_version_to_upgrade(
    latest_version: String,
    release_channel: ReleaseChannel,
    force: bool,
    version: &VersionInfo,
) -> (r: Option<String>)
    requires
        can_compare(release_channel, latest_version@, *version),
    ensures
        r == if !force && current_is_most_recent(release_channel, latest_version@, *version) {
            None
        } else {
            Some(latest_version)
        },
{
    let current_is_most_recent = match release_channel {
        ReleaseChannel::Stable => !version.is_canary && crate::update_check::is_known_up_to_date(
            version.deno.as_str(),
            latest_version.as_str(),
        ),
        _ => str_eq(version.git_commit_hash.as_str(), latest_version.as_str()),
    };
    latest_unless_most_recent(latest_version, current_is_most_recent, force)
}

/// The version to install where the latest one was asked for; `None` where the running version
/// and the latest one cannot be compared.
pub fn try_find_latest_version_to_upgrade(
    latest_version: String,
    release_channel: ReleaseChannel,
    force: bool,
    version: &VersionInfo,
) -> (r: Option<Option<String>>)
    ensures
        r is Some <==> can_compare(release_channel, latest_version@, *version),
        r matches Some(selected) ==> selected == if !force && current_is_most_recent(
            release_channel,
            latest_version@,
            *version,
        ) {
            None
        } else {
            Some(latest_version)
        },
{
    match release_channel {
        ReleaseChannel::Rc => {
            return None;
        },
        ReleaseChannel::Lts => {
            return None;
        },
        ReleaseChannel::Stable => if !version.is_canary {
            if Version::parse_standard(version.deno.as_str()).is_none() {
                return None;
            }
            if Version::parse_standard(latest_version.as_str()).is_none() {
                return None;
            }
        },
        ReleaseChannel::Canary => {},
    }
    Some(find_latest_version_to_upgrade(latest_version, release_channel, force, version))
}

/// The version in the server's answer: without white space around it and, for a release, without
/// any `v` at its start.
pub fn normalize_version_from_server(release_channel: ReleaseChannel, text: &str) -> (r: String)
    requires
        is_served(release_channel),
    ensures
        r@ == if release_channel is Stable {
            crate::text::strip_leading(crate::text::trimmed(text@), 'v')
        } else {
            crate::text::trimmed(text@)
        },
{
    let text = trim(text);
    match release_channel {
        ReleaseChannel::Stable => trim_leading(text.as_str(), 'v'),
        _ => text,
    }
}

/// The address of the server that knows the latest version: the one that the environment gives,
/// or the usual one.
pub fn base_upgrade_url(from_environment: Option<String>) -> (r: String)
    ensures
        r@ == match from_environment {
            Some(url) => url@,
            None => "https://dl.deno.land"@,
        },
{
    match from_environment {
        Some(url) => url,
        None => "https://dl.deno.land".to_owned(),
    }
}

/// The address of the latest version on a channel.
pub open spec fn latest_version_url(
    release_channel: ReleaseChannel,
    target_tuple: Seq<char>,
    check_kind: UpgradeCheckKind,
    base: Seq<char>,
) -> Seq<char> {
    let file_name = if release_channel is Stable {
        "release-latest.txt"@
    } else {
        "canary-"@ + target_tuple + "-latest.txt"@
    };
    let query_param = match check_kind {
        UpgradeCheckKind::Execution => ""@,
        UpgradeCheckKind::Lsp => "?lsp"@,
    };
    base + "/"@ + file_name + query_param
}

pub fn get_latest_version_url(
    release_channel: ReleaseChannel,
    target_tuple: &str,
    check_kind: UpgradeCheckKind,
    base: &str,
) -> (r: String)
    requires
        is_served(release_channel),
    ensures
        r@ == latest_version_url(release_channel, target_tuple@, check_kind, base@),
{
    let mut file_name: String = String::new();
    match release_channel {
        ReleaseChannel::Stable => file_name.append("release-latest.txt"),
        _ => {
            file_name.append("canary-");
            file_name.append(target_tuple);
            file_name.append("-latest.txt");
        },
    }
    let query_param = match check_kind {
        UpgradeCheckKind::Execution => "",
        UpgradeCheckKind::Lsp => "?lsp",
    };
    let mut url: String = base.to_owned();
    url.append("/");
    url.append(file_name.as_str());
    url.append(query_param);
    proof {
        assert(Seq::<char>::empty() + "release-latest.txt"@ =~= "release-latest.txt"@);
        assert(Seq::<char>::empty() + "canary-"@ =~= "canary-"@);
    }
    url
}

/// The URL that the latest version on a channel is fetched from.
pub fn fetch_latest_version_url(
    release_channel: ReleaseChannel,
    target_tuple: &str,
    check_kind: UpgradeCheckKind,
    base: &str,
) -> (r: Result<String, AnyError>)
    requires
        is_served(release_channel),
    ensures
        match crate::url::parsed_url(
            latest_version_url(release_channel, target_tuple@, check_kind, base@),
        ) {
            Ok(url) => r matches Ok(u) && u@ == url,
            Err(cause) => r matches Err(e) && e@ == seq![cause],
        },
{
    let address = get_latest_version_url(release_channel, target_tuple, check_kind, base);
    match parse_url(address.as_str()) {
        Ok(url) => Ok(url),
        Err(cause) => Err(AnyError::new(cause)),
    }
}

/// The text of the address that a version is downloaded from.
pub open spec fn download_address(
    version: Seq<char>,
    is_canary: bool,
    archive_name: Seq<char>,
) -> Seq<char> {
    if is_canary {
        "https://dl.deno.land/canary"@ + "/"@ + version + "/"@ + archive_name
    } else {
        "https://github.com/denoland/deno/releases"@ + "/download/v"@ + version + "/"@
            + archive_name
    }
}

/// The address that a version is downloaded from.
pub fn get_download_url(version: &str, is_canary: bool, archive_name: &str) -> (r: Result<
    String,
    AnyError,
>)
    ensures
        ({
            let address = download_address(version@, is_canary, archive_name@);
            match crate::url::parsed_url(address) {
                Ok(url) => r matches Ok(u) && u@ == url,
                Err(cause) => r matches Err(e) && e@ == seq![
                    "Failed to parse URL to download new release: "@ + address,
                    cause,
                ],
            }
        }),
{
    let mut address: String = String::new();
    if is_canary {
        address.append("https://dl.deno.land/canary");
        address.append("/");
    } else {
        address.append("https://github.com/denoland/deno/releases");
        address.append("/download/v");
    }
    address.append(version);
    address.append("/");
    address.append(archive_name);
    proof {
        assert(address@ =~= download_address(version@, is_canary, archive_name@));
    }
    match parse_url(address.as_str()) {
        Ok(url) => Ok(url),
        Err(cause) => {
            let mut message: String = "Failed to parse URL to download new release: ".to_owned();
            message.append(address.as_str());
            Err(AnyError::new(cause).context(message))
        },
    }
}

/// The minor part of a version is what stands before its last dot, and a version without a dot has none.
pub proof fn minor_version_ends_at_the_last_dot(before: Seq<char>, behind: Seq<char>)
    requires
        !behind.contains('.'),
    ensures
        has_minor_version(before + seq!['.'] + behind),
        minor_version(before + seq!['.'] + behind) == before,
        !has_minor_version(behind),
    decreases behind.len(),
{
    let version = before + seq!['.'] + behind;
    if behind.len() == 0 {
        assert(version.last() == '.');
        assert(version.take(version.len() - 1) =~= before);
    } else {
        let shorter = behind.drop_last();
        assert(behind[behind.len() - 1] != '.');
        assert(!shorter.contains('.')) by {
            if shorter.contains('.') {
                let i = choose|i: int| 0 <= i < shorter.len() && shorter[i] == '.';
                assert(behind[i] == '.');
            }
        }
        minor_version_ends_at_the_last_dot(before, shorter);
        let cut = before + seq!['.'] + shorter;
        assert(version.drop_last() =~= cut);
        let at = last_index_of(cut, '.');
        last_index_lies_within(cut, '.');
        assert(version.take(at) =~= cut.take(at));
    }
}

proof fn last_index_lies_within(s: Seq<char>, c: char)
    ensures
        -1 <= last_index_of(s, c) < s.len(),
    decreases s.len(),
{
    if s.len() > 0 && s.last() != c {
        last_index_lies_within(s.drop_last(), c);
    }
}

/// One leading `v` of a version does not count; a version without one stays as it is.
pub proof fn leading_v_does_not_count(version: Seq<char>)
    ensures
        without_v(seq!['v'] + version) == version,
        version.len() == 0 || version[0] != 'v' ==> without_v(version) == version,
{
    assert((seq!['v'] + version).skip(1) =~= version);
}

/// A commit hash has forty digits, each of them one of `0` to `9` and `a` to `f`.
pub proof fn commit_hash_has_forty_digits(s: Seq<char>)
    ensures
        is_commit_hash(s) <==> s.len() == 40 && forall|i: int|
            0 <= i < s.len() ==> "0123456789abcdef"@.contains(#[trigger] s[i]),
{
    reveal_strlit("0123456789abcdef");
    let digits = "0123456789abcdef"@;
    assert forall|c: char| #[trigger] is_hex_digit(c) <==> digits.contains(c) by {
        if is_hex_digit(c) {
            let k: int = if c <= '9' {
                c as u32 - '0' as u32
            } else {
                10 + (c as u32 - 'a' as u32)
            };
            assert(digits[k] == c);
        }
    }
    if is_commit_hash(s) {
        assert forall|i: int| 0 <= i < s.len() implies digits.contains(#[trigger] s[i]) by {
            assert(is_hex_digit(s[i]));
        }
    } else if s.len() == 40 {
        let i = choose|i: int| 0 <= i < s.len() && !is_hex_digit(#[trigger] s[i]);
        assert(!digits.contains(s[i]));
    }
}

/// A release is downloaded from its page on GitHub, a canary build from the download server.
pub proof fn releases_and_canary_builds_have_their_places(version: Seq<char>, archive: Seq<char>)
    ensures
        download_address(version, false, archive)
            == "https://github.com/denoland/deno/releases/download/v"@ + version + "/"@ + archive,
        download_address(version, true, archive) == "https://dl.deno.land/canary/"@ + version + "/"@
            + archive,
{
    reveal_strlit("https://github.com/denoland/deno/releases/download/v");
    reveal_strlit("https://github.com/denoland/deno/releases");
    reveal_strlit("/download/v");
    reveal_strlit("https://dl.deno.land/canary/");
    reveal_strlit("https://dl.deno.land/canary");
    reveal_strlit("/");
    assert("https://github.com/denoland/deno/releases"@ + "/download/v"@
        =~= "https://github.com/denoland/deno/releases/download/v"@);
    assert("https://dl.deno.land/canary"@ + "/"@ =~= "https://dl.deno.land/canary/"@);
}

/// The latest release has one address for all targets, the latest canary build one for each target. The
/// language server says in the query that it asks.
pub proof fn latest_versions_have_their_addresses(
    release_channel: ReleaseChannel,
    target: &str,
    check_kind: UpgradeCheckKind,
    base: &str,
    r: String,
)
    requires
        call_ensures(get_latest_version_url, (release_channel, target, check_kind, base), r),
    ensures
        release_channel is Stable && check_kind is Execution ==> r@ == base@
            + "/release-latest.txt"@,
        release_channel is Stable && check_kind is Lsp ==> r@ == base@
            + "/release-latest.txt?lsp"@,
        release_channel is Canary && check_kind is Execution ==> r@ == base@ + "/canary-"@ + target@
            + "-latest.txt"@,
        release_channel is Canary && check_kind is Lsp ==> r@ == base@ + "/canary-"@ + target@
            + "-latest.txt?lsp"@,
{
    reveal_strlit("/release-latest.txt");
    reveal_strlit("/release-latest.txt?lsp");
    reveal_strlit("release-latest.txt");
    reveal_strlit("/canary-");
    reveal_strlit("canary-");
    reveal_strlit("-latest.txt");
    reveal_strlit("-latest.txt?lsp");
    reveal_strlit("?lsp");
    reveal_strlit("/");
    reveal_strlit("");
    assert("/"@ + "release-latest.txt"@ =~= "/release-latest.txt"@);
    assert("/release-latest.txt"@ + "?lsp"@ =~= "/release-latest.txt?lsp"@);
    assert("/"@ + "canary-"@ =~= "/canary-"@);
    assert("-latest.txt"@ + "?lsp"@ =~= "-latest.txt?lsp"@);
    assert(base@ + "/"@ + "release-latest.txt"@ + ""@ =~= base@ + "/release-latest.txt"@);
    assert(base@ + "/"@ + "release-latest.txt"@ + "?lsp"@ =~= base@ + "/release-latest.txt?lsp"@);
    assert(base@ + "/"@ + ("canary-"@ + target@ + "-latest.txt"@) + ""@ =~= base@ + "/canary-"@
        + target@ + "-latest.txt"@);
    assert(base@ + "/"@ + ("canary-"@ + target@ + "-latest.txt"@) + "?lsp"@ =~= base@ + "/canary-"@
        + target@ + "-latest.txt?lsp"@);
}

/// The version in the server's answer is what stands between the white space around it. Of a release,
/// every `v` at its start is taken away; the commit of a canary build stays as it is.
pub proof fn version_is_read_between_white_space(
    release_channel: ReleaseChannel,
    text: &str,
    r: String,
) -> (kept: (int, int))
    requires
        is_served(release_channel),
        call_ensures(normalize_version_from_server, (release_channel, text), r),
    ensures
        0 <= kept.0 <= kept.1 <= text@.len(),
        r@ == text@.subrange(kept.0, kept.1),
        forall|i: int|
            0 <= i < kept.0 ==> crate::text::is_white_space(#[trigger] text@[i]) || (
            release_channel is Stable && text@[i] == 'v'),
        forall|i: int|
            kept.1 <= i < text@.len() ==> crate::text::is_white_space(#[trigger] text@[i]),
        release_channel is Stable && r@.len() > 0 ==> r@[0] != 'v',
        release_channel is Canary && r@.len() > 0 ==> !crate::text::is_white_space(r@[0]),
        r@.len() > 0 ==> !crate::text::is_white_space(r@.last()),
{
    let (from, to) = crate::text::only_white_space_is_trimmed(text@);
    let trimmed = crate::text::trimmed(text@);
    let skipped = crate::text::only_the_leading_run_is_stripped(trimmed, 'v');
    let start = if release_channel is Stable {
        from + skipped
    } else {
        from
    };
    assert(r@ =~= text@.subrange(start, to));
    assert forall|i: int| from <= i < start implies #[trigger] text@[i] == 'v' by {
        assert(trimmed[i - from] == text@[i]);
    }
    (start, to)
}

/// A release has notes under its own version and a post under its minor version, and they are printed
/// only where the minor version changes.
pub proof fn notes_are_printed_for_minor_versions(
    current_version: &str,
    new_version: &str,
    r: Option<ReleaseNotes>,
)
    requires
        call_ensures(print_release_notes, (current_version, new_version), r),
    ensures
        minor_version(current_version@) == minor_version(new_version@) ==> r is None,
        minor_version(current_version@) != minor_version(new_version@) ==> (r matches Some(notes)
            && notes.release_notes_url@ == "https://github.com/denoland/deno/releases/tag/v"@
            + new_version@ && notes.blog_post_url@ == "https://deno.com/blog/v"@ + minor_version(
            new_version@,
        )),
{
}

/// The running version is the version of a release, and the commit of a canary build; the channel is the
/// canary one exactly for canary builds.
pub proof fn provider_knows_the_running_version(
    provider: &RealVersionProvider,
    version: String,
    channel: Result<ReleaseChannel, AnyError>,
)
    requires
        call_ensures(RealVersionProvider::current_version, (provider,), version),
        call_ensures(RealVersionProvider::get_current_exe_release_channel, (provider,), channel),
    ensures
        version@ == provider.version.release_version_or_canary_commit_hash@,
        provider.version.is_canary ==> channel == Ok::<ReleaseChannel, AnyError>(
            ReleaseChannel::Canary,
        ),
        !provider.version.is_canary ==> channel == Ok::<ReleaseChannel, AnyError>(
            ReleaseChannel::Stable,
        ),
{
}

/// The archive for a target, and the server that is asked where the environment does not name one.
pub proof fn archive_and_server_have_their_names(
    target: &str,
    archive: String,
    from_environment: Option<String>,
    base: String,
)
    requires
        call_ensures(archive_name, (target,), archive),
        call_ensures(base_upgrade_url, (from_environment,), base),
    ensures
        "deno-"@.is_prefix_of(archive@),
        ".zip"@.is_suffix_of(archive@),
        archive@.subrange(5, archive@.len() - 4) == target@,
        from_environment matches Some(url) ==> base@ == url@,
        from_environment is None ==> base@ == "https://dl.deno.land"@,
{
    reveal_strlit("deno-");
    reveal_strlit(".zip");
    assert(archive@.subrange(5, archive@.len() - 4) =~= target@);
    assert("deno-"@.is_prefix_of(archive@)) by {
        assert(archive@.subrange(0, 5) =~= "deno-"@);
    }
    assert(".zip"@.is_suffix_of(archive@)) by {
        assert(archive@.subrange(archive@.len() - 4, archive@.len() as int) =~= ".zip"@);
    }
}

/// A version is downloaded from its address where that is a URL; otherwise the error names the address and
/// the cause.
pub proof fn wrong_download_address_is_named(
    version: &str,
    is_canary: bool,
    archive: &str,
    r: Result<String, AnyError>,
)
    requires
        call_ensures(get_download_url, (version, is_canary, archive), r),
    ensures
        ({
            let address = if is_canary {
                "https://dl.deno.land/canary/"@ + version@ + "/"@ + archive@
            } else {
                "https://github.com/denoland/deno/releases/download/v"@ + version@ + "/"@ + archive@
            };
            match crate::url::parsed_url(address) {
                Ok(url) => r matches Ok(text) && text@ == url,
                Err(cause) => r matches Err(e) && e@ == seq![
                    "Failed to parse URL to download new release: "@ + address,
                    cause,
                ],
            }
        }),
{
    releases_and_canary_builds_have_their_places(version@, archive@);
}

/// The latest version is fetched from its address where that is a URL.
pub proof fn latest_version_is_fetched_from_its_address(
    release_channel: ReleaseChannel,
    target: &str,
    check_kind: UpgradeCheckKind,
    base: &str,
    address: String,
    r: Result<String, AnyError>,
)
    requires
        is_served(release_channel),
        call_ensures(get_latest_version_url, (release_channel, target, check_kind, base), address),
        call_ensures(fetch_latest_version_url, (release_channel, target, check_kind, base), r),
    ensures
        match crate::url::parsed_url(address@) {
            Ok(url) => r matches Ok(text) && text@ == url,
            Err(cause) => r matches Err(e) && e@ == seq![cause],
        },
{
}

/// What the flags ask for: without a version the latest one on the channel, and otherwise the version that was
/// passed, without a leading `v`, where it is one that the channel has.
pub proof fn flags_ask_for_a_version(
    flags: UpgradeFlags,
    r: Result<RequestedVersion, AnyError>,
    passed: Seq<char>,
)
    requires
        call_ensures(RequestedVersion::from_upgrade_flags, (flags,), r),
        flags.version matches Some(given) ==> given@ == passed || given@ == seq!['v'] + passed,
        passed.len() > 0 ==> passed[0] != 'v',
    ensures
        flags.version is None ==> (r matches Ok(RequestedVersion::Latest(channel)) && (
        channel is Canary <==> flags.canary) && (channel is Stable <==> !flags.canary)),
        flags.version is Some ==> {
            &&& flags.canary ==> (r is Ok <==> passed.len() == 40 && forall|i: int|
                0 <= i < passed.len() ==> "0123456789abcdef"@.contains(#[trigger] passed[i]))
            &&& !flags.canary ==> (r is Ok <==> crate::semver::parsed_version(passed) is Some)
            &&& r matches Ok(requested) ==> (requested matches RequestedVersion::SpecificVersion(
                channel,
                version,
            ) && version@ == passed && (channel is Canary <==> flags.canary) && (channel is Stable
                <==> !flags.canary))
            &&& r matches Err(e) ==> e@ == seq![
                if flags.canary {
                    "Invalid commit hash passed"@
                } else {
                    "Invalid version passed"@
                },
            ]
        },
{
    assert((seq!['v'] + passed).skip(1) =~= passed);
    commit_hash_has_forty_digits(passed);
}

/// Forcing always selects the version; without force, the running version is not selected again.
pub proof fn forcing_always_selects(
    release_channel: ReleaseChannel,
    passed: String,
    latest: String,
    force: bool,
    version: &VersionInfo,
    specific: Result<Option<String>, AnyError>,
    found: Option<Option<String>>,
)
    requires
        is_served(release_channel),
        call_ensures(
            select_specific_version_for_upgrade,
            (release_channel, passed, force, version),
            specific,
        ),
        call_ensures(
            try_find_latest_version_to_upgrade,
            (latest, release_channel, force, version),
            found,
        ),
    ensures
        force ==> specific == Ok::<Option<String>, AnyError>(Some(passed)),
        force ==> (found matches Some(selected) ==> selected == Some(latest)),
        !force && release_channel is Canary ==> {
            &&& specific == Ok::<Option<String>, AnyError>(
                if version.git_commit_hash@ == passed@ {
                    None
                } else {
                    Some(passed)
                },
            )
            &&& found == Some(
                if version.git_commit_hash@ == latest@ {
                    None
                } else {
                    Some(latest)
                },
            )
        },
        !force && release_channel is Stable ==> specific == Ok::<Option<String>, AnyError>(
            if !version.is_canary && version.deno@ == passed@ {
                None
            } else {
                Some(passed)
            },
        ),
        release_channel is Stable && version.is_canary ==> found == Some(Some(latest)),
{
}

} // verus!
