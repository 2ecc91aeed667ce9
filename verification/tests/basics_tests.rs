use deno_tools::paths::{parts_of, same_path, PrefixKind};
use deno_tools::semver::Version;
use deno_tools::shared::AnyError;
use deno_tools::text::{
    debug_text, decimal_text, has_prefix, has_suffix, has_text, remove_char, replace_text,
    signed_text, split_char, split_words, trim, trim_leading,
};
use deno_tools::time::{DateTime, TimeDelta};
use deno_tools::url::{join_url, make_relative, parse_url};

#[test]
fn texts_are_split_and_trimmed() {
    assert_eq!(split_char("a!b!!", '!'), vec!["a", "b", "", ""]);
    assert_eq!(split_char("", '!'), vec![""]);
    assert_eq!(split_words("  a\u{3000}bc\n"), vec!["a", "bc"]);
    assert!(split_words(" \t").is_empty());
    assert_eq!(trim("\u{2003}a b\r\n"), "a b");
    assert_eq!(trim(" "), "");
    assert_eq!(trim_leading("vvav", 'v'), "av");
}

#[test]
fn texts_are_searched() {
    assert!(has_text("xabyab", "yab"));
    assert!(has_text("x", ""));
    assert!(!has_text("ab", "abc"));
    assert!(has_prefix("file:///", "file:"));
    assert!(!has_prefix("fil", "file:"));
    assert!(has_suffix("a/builders.rs", "builders.rs"));
    assert!(!has_suffix("rs", "builders.rs"));
}

#[test]
fn texts_are_replaced() {
    assert_eq!(replace_text("aXXXb", "XX", "y"), "ayXb");
    assert_eq!(replace_text("XX", "XX", "XXX"), "XXX");
    assert_eq!(replace_text("ab", "c", "d"), "ab");
    assert_eq!(remove_char("a\u{200B}\u{200B}b", '\u{200B}'), "ab");
}

#[test]
fn numbers_are_written() {
    assert_eq!(decimal_text(0), "0");
    assert_eq!(decimal_text(u64::MAX), "18446744073709551615");
    assert_eq!(signed_text(-7), "-7");
    assert_eq!(signed_text(i32::MAX), "2147483647");
    assert_eq!(debug_text(None), "None");
    assert_eq!(debug_text(Some(-1)), "Some(-1)");
}

#[test]
fn errors_have_causes() {
    let e = AnyError::new("a".to_string()).context("b".to_string()).context("c".to_string());
    assert_eq!(e.message, "c");
    assert_eq!(e.causes, vec!["b", "a"]);
}

#[test]
fn instants_are_read_and_written() {
    let t = DateTime::parse_from_rfc3339("2020-02-29T12:30:00.5+02:00").unwrap();
    assert_eq!(t.timestamp(), 1_582_972_200);
    assert_eq!(t.timestamp_subsec_nanos(), 500_000_000);
    assert_eq!(t.to_rfc3339(), "2020-02-29T10:30:00.500+00:00");
    assert!(DateTime::parse_from_rfc3339("2020-02-30T00:00:00Z").is_none());
    assert!(DateTime::parse_from_rfc3339("").is_none());
    assert!(DateTime::from_timestamp(i64::MAX, 0).is_none());
    assert!(DateTime::from_timestamp(0, 1_000_000_000).is_none());
    assert!(DateTime::from_timestamp(59, 1_000_000_000).is_some());
    assert!(DateTime::from_timestamp(-1, 1_999_999_999).is_some());
}

#[test]
fn spans_between_instants() {
    let at = |secs, nanos| DateTime::from_timestamp(secs, nanos).unwrap();
    let span = |a: DateTime, b: DateTime| a.signed_duration_since(&b);
    assert_eq!(span(at(100, 5), at(40, 6)), TimeDelta { secs: 59, nanos: 999_999_999 });
    assert_eq!(span(at(40, 6), at(100, 5)), TimeDelta { secs: -59, nanos: -999_999_999 });
    // a leap second takes time when the other instant is later in the day
    assert_eq!(span(at(60, 0), at(59, 1_500_000_000)), TimeDelta { secs: 0, nanos: 500_000_000 });
    assert!(TimeDelta { secs: 3600, nanos: 1 }.exceeds_hours(1));
    assert!(!TimeDelta { secs: 3600, nanos: 0 }.exceeds_hours(1));
    let earlier = at(86_400, 7).minus_hours(25);
    assert_eq!(earlier.timestamp(), -3600);
    assert_eq!(earlier.timestamp_subsec_nanos(), 7);
}

#[test]
fn versions_are_read_and_ordered() {
    let version = |text| Version::parse_standard(text).unwrap();
    let v = version("1.2.3-rc.1+build");
    assert_eq!((v.major, v.minor, v.patch), (1, 2, 3));
    assert_eq!(v.pre, vec!["rc", "1"]);
    assert_eq!(v.build, vec!["build"]);
    assert!(Version::parse_standard("1.2").is_none());
    assert!(version("1.2.3").at_least(&v));
    assert!(!v.at_least(&version("1.2.3")));
    assert!(v.at_least(&version("1.2.3-rc.1")));
    assert!(version("2.0.0").at_least(&version("1.9.9")));
    assert!(!version("1.2.3-rc.1").at_least(&version("1.2.3-rc.2")));
}

#[test]
fn urls_are_normalized() {
    assert_eq!(parse_url("HTTP://Deno.land:80/a/../b").unwrap(), "http://deno.land/b");
    assert_eq!(parse_url("b").unwrap_err(), "relative URL without a base");
    assert_eq!(make_relative("file:///a/b/c", "file:///a/d").unwrap(), "../d");
    assert_eq!(make_relative("file:///a", "http://a"), None);
    assert_eq!(make_relative("a", "file:///b"), None);
    assert_eq!(join_url("file:///a/b", "../c/./d").unwrap(), "file:///c/d");
    assert_eq!(join_url("file:///a/b", "http://c").unwrap(), "http://c/");
    assert_eq!(join_url("a", "b"), None);
    assert_eq!(join_url("data:a", "b"), None);
}

fn texts(parts: &[Vec<u8>]) -> Vec<String> {
    parts.iter().map(|part| String::from_utf8(part.clone()).unwrap()).collect()
}

#[test]
fn paths_are_taken_apart() {
    let unix = |path: &str| parts_of(path.as_bytes(), false);
    let path = unix("/usr//bin/./deno/");
    assert_eq!(texts(&path.components), vec!["usr", "bin", "deno"]);
    assert!(path.rooted);
    assert_eq!(texts(&unix("./a/../b").components), vec![".", "a", "..", "b"]);
    assert_eq!(texts(&unix("a\\b").components), vec!["a\\b"]);
    assert!(unix("/").components.is_empty());
    assert_eq!(parts_of(b"/a\xff", false).components, vec![b"a\xff".to_vec()]);

    let windows = |path: &str| {
        let parts = parts_of(path.as_bytes(), true);
        (parts.kind, texts(&parts.names), parts.rooted, texts(&parts.components))
    };
    let names = |names: &[&str]| names.iter().map(|name| name.to_string()).collect::<Vec<_>>();
    let expected = |kind, prefix: &[&str], rooted, components: &[&str]| {
        (kind, names(prefix), rooted, names(components))
    };
    assert_eq!(windows(r"c:\a/b"), expected(PrefixKind::Disk, &["C"], true, &["a", "b"]));
    assert_eq!(windows("C:"), expected(PrefixKind::Disk, &["C"], false, &[]));
    assert_eq!(windows("/c:/x"), expected(PrefixKind::Nothing, &[], true, &["c:", "x"]));
    assert_eq!(
        windows(r"\\host\share"),
        expected(PrefixKind::Share, &["host", "share"], true, &[])
    );
    assert_eq!(windows(r"\\host"), expected(PrefixKind::Nothing, &[], true, &["host"]));
    assert_eq!(windows(r"\\.\COM1\a"), expected(PrefixKind::Device, &["COM1"], true, &["a"]));
    assert_eq!(
        windows(r"\\?\d:\.\a/b\"),
        expected(PrefixKind::VerbatimDisk, &["D"], true, &[".", "a/b"])
    );
    assert_eq!(
        windows(r"\\?\UNC\host\share\a"),
        expected(PrefixKind::VerbatimShare, &["host", "share"], true, &["a"])
    );
    assert_eq!(windows(r"\\?\x\a"), expected(PrefixKind::Verbatim, &["x"], true, &["a"]));
}

#[test]
fn paths_are_compared_by_components() {
    let unix = |a: &str, b: &str| same_path(a.as_bytes(), b.as_bytes(), false);
    assert!(unix("/usr/bin/./deno", "/usr/bin/deno"));
    assert!(unix("/usr//bin/deno/.", "/usr/bin/deno"));
    assert!(!unix("/usr/bin/../bin/deno", "/usr/bin/deno"));
    assert!(!unix("usr/bin/deno", "/usr/bin/deno"));
    assert!(!unix("./deno", "deno"));
    assert!(!unix("/a\\b", "/a/b"));
    assert!(!unix("C:/deno", "c:/deno"));
    assert!(!same_path(b"/\xfe", b"/\xff", false));
    let windows = |a: &str, b: &str| same_path(a.as_bytes(), b.as_bytes(), true);
    assert!(windows("C:/bin/deno.exe", r"c:\bin\.\deno.exe"));
    assert!(!windows(r"C:\Bin\deno.exe", r"C:\bin\deno.exe"));
    assert!(!windows("C:", r"C:\"));
    assert!(!windows("C:x", r"C:\x"));
    assert!(!windows("/c:/x", "/C:/x"));
    assert!(!windows(r"\\host\a\b", r"\host\a\b"));
    assert!(windows(r"\\host\a", r"//host/a/"));
    assert!(windows(r"\\?\C:\a", r"\\?\c:\\a\"));
    assert!(!windows(r"\\?\C:\a\.\b", r"\\?\C:\a\b"));
    assert!(!windows(r"\\?\C:\a", r"C:\a"));
}
