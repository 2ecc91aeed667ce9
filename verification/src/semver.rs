//! Release versions and their order.

use vstd::prelude::*;

verus! {

/// A version: its three numbers and the parts of its pre-release and of its build metadata.
#[derive(Debug, Clone, PartialEq, Eq)]
pub struct Version {
    pub major: u64,
    pub minor: u64,
    pub patch: u64,
    pub pre: Vec<String>,
    pub build: Vec<String>,
}

/// What a [`Version`] holds.
#[verifier::ext_equal]
pub struct VersionView {
    pub major: u64,
    pub minor: u64,
    pub patch: u64,
    pub pre: Seq<Seq<char>>,
    pub build: Seq<Seq<char>>,
}

impl View for Version {
    type V = VersionView;

    open spec fn view(&self) -> VersionView {
        VersionView {
            major: self.major,
            minor: self.minor,
            patch: self.patch,
            pre: crate::text::texts(self.pre@),
            build: crate::text::texts(self.build@),
        }
    }
}

/// What an optional [`Version`] holds.
pub open spec fn opt_version(v: Option<Version>) -> Option<VersionView> {
    match v {
        Some(v) => Some(v@),
        None => None,
    }
}

/// The version that `deno_semver::Version::parse_standard` reads in a text; `None` where
/// it finds an error.
pub uninterp spec fn parsed_version(text: Seq<char>) -> Option<VersionView>;

/// Whether `deno_semver` orders version `a` at or after version `b`.
pub uninterp spec fn version_at_least(a: VersionView, b: VersionView) -> bool;

/// Both versions have the same major, minor and patch number.
pub open spec fn same_release(a: VersionView, b: VersionView) -> bool {
    a.major == b.major && a.minor == b.minor && a.patch == b.patch
}

/// The major, minor and patch numbers of `a`, compared in this order, come after those of `b`.
pub open spec fn later_release(a: VersionView, b: VersionView) -> bool {
    ||| a.major > b.major
    ||| a.major == b.major && a.minor > b.minor
    ||| a.major == b.major && a.minor == b.minor && a.patch > b.patch
}

impl Version {
    /// Reads a version. Calls `deno_semver::Version::parse_standard`, whose result is a function
    /// of the text.
    #[verifier::external_body]
    fn parse_with_semver(text: &str) -> (r: Option<Version>)
        ensures
            opt_version(r) == parsed_version(text@),
    {
        let v = deno_semver::Version::parse_standard(text).ok()?;
        let pre = v.pre.iter().map(|part| part.to_string()).collect();
        let build = v.build.iter().map(|part| part.to_string()).collect();
        Some(Version { major: v.major, minor: v.minor, patch: v.patch, pre, build })
    }

    /// Compares two versions with the `>=` of `deno_semver::Version`, which is a function of the
    /// fields. The release numbers decide where they differ. Where they do not, a version without
    /// a pre-release comes after every one that has one, and the same pre-release makes the two
    /// equal.
    #[verifier::external_body]
    fn at_least_with_semver(&self, other: &Version) -> (r: bool)
        ensures
            r == version_at_least(self@, other@),
            !same_release(self@, other@) ==> r == later_release(self@, other@),
            same_release(self@, other@) && self@.pre.len() == 0 ==> r,
            same_release(self@, other@) && self@.pre.len() > 0 && other@.pre.len() == 0 ==> !r,
            same_release(self@, other@) && self@.pre == other@.pre ==> r,
    {
        let outside = |v: &Version| deno_semver::Version {
            major: v.major,
            minor: v.minor,
            patch: v.patch,
            pre: v.pre.iter().map(|part| part.as_str().into()).collect(),
            build: v.build.iter().map(|part| part.as_str().into()).collect(),
        };
        outside(self) >= outside(other)
    }

    /// The version that the text holds, if it holds one.
    pub fn parse_standard(text: &str) -> (r: Option<Version>)
        ensures
            opt_version(r) == parsed_version(text@),
    {
        Version::parse_with_semver(text)
    }

    /// Whether this version is the same as `other` or newer.
    pub fn at_least(&self, other: &Version) -> (r: bool)
        ensures
            r == version_at_least(self@, other@),
            !same_release(self@, other@) ==> r == later_release(self@, other@),
            same_release(self@, other@) && self@.pre.len() == 0 ==> r,
            same_release(self@, other@) && self@.pre.len() > 0 && other@.pre.len() == 0 ==> !r,
            same_release(self@, other@) && self@.pre == other@.pre ==> r,
    {
        self.at_least_with_semver(other)
    }
}

/// A release with a higher major number is newer, whatever the others are; with the same major number the
/// minor number decides, and with the same minor number the patch number. A release is newer than every
/// pre-release of it, and not older than itself.
pub proof fn numbers_are_compared_in_order(a: &Version, b: &Version, r: bool)
    requires
        call_ensures(Version::at_least, (a, b), r),
    ensures
        a.major > b.major ==> r,
        a.major < b.major ==> !r,
        a.major == b.major && a.minor > b.minor ==> r,
        a.major == b.major && a.minor < b.minor ==> !r,
        a.major == b.major && a.minor == b.minor && a.patch > b.patch ==> r,
        a.major == b.major && a.minor == b.minor && a.patch < b.patch ==> !r,
        a.major == b.major && a.minor == b.minor && a.patch == b.patch && a.pre@.len() == 0 ==> r,
        a.major == b.major && a.minor == b.minor && a.patch == b.patch && a.pre@.len() > 0
            && b.pre@.len() == 0 ==> !r,
{
    assert(crate::text::texts(a.pre@).len() == a.pre@.len());
    assert(crate::text::texts(b.pre@).len() == b.pre@.len());
}

} // verus!
