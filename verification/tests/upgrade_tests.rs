use deno_tools::shared::{ReleaseChannel, VersionInfo};
use deno_tools::upgrade::{
    archive_name, base_upgrade_url, fetch_latest_version_url, find_latest_version_to_upgrade,
    get_download_url,
    get_latest_version_url, get_minor_version, has_dot, latest_unless_most_recent,
    normalize_version_from_server, print_release_notes, select_specific_version_for_upgrade,
    try_find_latest_version_to_upgrade, RealVersionProvider, RequestedVersion, UpgradeCheckKind,
    UpgradeFlags,
};

fn latest_url(channel: ReleaseChannel, target: &str, kind: UpgradeCheckKind) -> String {
    get_latest_version_url(channel, target, kind, &base_upgrade_url(None))
}

#[test]
fn test_get_latest_version_url() {
    assert_eq!(
        latest_url(ReleaseChannel::Canary, "aarch64-apple-darwin", UpgradeCheckKind::Execution),
        "https://dl.deno.land/canary-aarch64-apple-darwin-latest.txt"
    );
    assert_eq!(
        latest_url(ReleaseChannel::Canary, "aarch64-apple-darwin", UpgradeCheckKind::Lsp),
        "https://dl.deno.land/canary-aarch64-apple-darwin-latest.txt?lsp"
    );
    assert_eq!(
        latest_url(ReleaseChannel::Canary, "x86_64-pc-windows-msvc", UpgradeCheckKind::Execution),
        "https://dl.deno.land/canary-x86_64-pc-windows-msvc-latest.txt"
    );
    assert_eq!(
        latest_url(ReleaseChannel::Canary, "x86_64-pc-windows-msvc", UpgradeCheckKind::Lsp),
        "https://dl.deno.land/canary-x86_64-pc-windows-msvc-latest.txt?lsp"
    );
    assert_eq!(
        latest_url(ReleaseChannel::Stable, "aarch64-apple-darwin", UpgradeCheckKind::Execution),
        "https://dl.deno.land/release-latest.txt"
    );
    assert_eq!(
        latest_url(ReleaseChannel::Stable, "aarch64-apple-darwin", UpgradeCheckKind::Lsp),
        "https://dl.deno.land/release-latest.txt?lsp"
    );
    assert_eq!(
        latest_url(ReleaseChannel::Stable, "x86_64-pc-windows-msvc", UpgradeCheckKind::Execution),
        "https://dl.deno.land/release-latest.txt"
    );
    assert_eq!(
        latest_url(ReleaseChannel::Stable, "x86_64-pc-windows-msvc", UpgradeCheckKind::Lsp),
        "https://dl.deno.land/release-latest.txt?lsp"
    );
}

#[test]
fn test_normalize_version_server() {
    // should strip v for stable
    assert_eq!(normalize_version_from_server(ReleaseChannel::Stable, "v1.0.0"), "1.0.0");
    // should not replace v after start
    assert_eq!(
        normalize_version_from_server(ReleaseChannel::Stable, "  v1.0.0-test-v\n\n  "),
        "1.0.0-test-v"
    );
    // should not strip v for canary
    assert_eq!(
        normalize_version_from_server(ReleaseChannel::Canary, "  v1452345asdf   \n\n   "),
        "v1452345asdf"
    );
}

#[test]
fn every_leading_v_is_stripped() {
    assert_eq!(normalize_version_from_server(ReleaseChannel::Stable, "vv1"), "1");
    assert_eq!(normalize_version_from_server(ReleaseChannel::Stable, ""), "");
}

#[test]
fn base_url_can_come_from_the_environment() {
    let base = base_upgrade_url(Some("http://localhost:4545".to_string()));
    assert_eq!(
        get_latest_version_url(ReleaseChannel::Stable, "t", UpgradeCheckKind::Lsp, &base),
        "http://localhost:4545/release-latest.txt?lsp"
    );
    let fetch = |base| {
        fetch_latest_version_url(ReleaseChannel::Canary, "t", UpgradeCheckKind::Execution, base)
    };
    assert_eq!(fetch("HTTP://A").unwrap(), "http://a/canary-t-latest.txt");
    assert_eq!(fetch("nowhere").unwrap_err().message, "relative URL without a base");
}

#[test]
fn archive_is_named_by_the_target() {
    assert_eq!(archive_name("x86_64-unknown-linux-gnu"), "deno-x86_64-unknown-linux-gnu.zip");
}

#[test]
fn download_url_by_channel() {
    assert_eq!(
        get_download_url("1.46.0", false, "deno-t.zip").unwrap(),
        "https://github.com/denoland/deno/releases/download/v1.46.0/deno-t.zip"
    );
    assert_eq!(
        get_download_url("0123abc", true, "deno-t.zip").unwrap(),
        "https://dl.deno.land/canary/0123abc/deno-t.zip"
    );
    // the URL is normalized
    assert_eq!(
        get_download_url("a b", true, "../x y.zip").unwrap(),
        "https://dl.deno.land/canary/x%20y.zip"
    );
}

#[test]
fn minor_version_is_before_the_last_dot() {
    assert_eq!(get_minor_version("1.46.3"), "1.46");
    assert_eq!(get_minor_version("1.46.3-rc.1"), "1.46.3-rc");
    assert_eq!(get_minor_version("."), "");
    assert!(has_dot("1.2"));
    assert!(!has_dot("12"));
}

#[test]
fn release_notes_for_a_new_minor_version() {
    assert!(print_release_notes("1.46.1", "1.46.2").is_none());
    let notes = print_release_notes("1.45.5", "1.46.2").unwrap();
    assert_eq!(
        notes.release_notes_url,
        "https://github.com/denoland/deno/releases/tag/v1.46.2"
    );
    assert_eq!(notes.blog_post_url, "https://deno.com/blog/v1.46");
}

fn flags(canary: bool, version: Option<&str>) -> UpgradeFlags {
    UpgradeFlags {
        dry_run: false,
        force: false,
        canary,
        version: version.map(|v| v.to_string()),
        output: None,
    }
}

#[test]
fn requested_version_from_flags() {
    let request = |canary, version| RequestedVersion::from_upgrade_flags(flags(canary, version));
    assert_eq!(request(false, None).unwrap(), RequestedVersion::Latest(ReleaseChannel::Stable));
    assert_eq!(request(true, None).unwrap(), RequestedVersion::Latest(ReleaseChannel::Canary));
    assert_eq!(
        request(false, Some("v1.46.0")).unwrap(),
        RequestedVersion::SpecificVersion(ReleaseChannel::Stable, "1.46.0".to_string())
    );
    assert_eq!(
        request(false, Some("1.46.0")).unwrap(),
        RequestedVersion::SpecificVersion(ReleaseChannel::Stable, "1.46.0".to_string())
    );
    // one `v` is stripped, and versions may have another one
    assert_eq!(
        request(false, Some("vv1.46.0")).unwrap(),
        RequestedVersion::SpecificVersion(ReleaseChannel::Stable, "v1.46.0".to_string())
    );
    let hash = "61fbfabe440f1cfffa7b8d17426ffdece4d430d0";
    assert_eq!(
        request(true, Some(hash)).unwrap(),
        RequestedVersion::SpecificVersion(ReleaseChannel::Canary, hash.to_string())
    );
}

#[test]
fn invalid_versions_are_refused() {
    let message = |canary, version| {
        RequestedVersion::from_upgrade_flags(flags(canary, Some(version))).unwrap_err().message
    };
    assert_eq!(message(false, "latest!"), "Invalid version passed");
    assert_eq!(message(false, ""), "Invalid version passed");
    assert_eq!(message(true, "1.46.0"), "Invalid commit hash passed");
    assert_eq!(
        message(true, "61FBFABE440F1CFFFA7B8D17426FFDECE4D430D0"),
        "Invalid commit hash passed"
    );
    assert_eq!(
        message(true, "61fbfabe440f1cfffa7b8d17426ffdece4d430d"),
        "Invalid commit hash passed"
    );
    assert_eq!(
        message(true, "61fbfabe440f1cfffa7b8d17426ffdece4d430d0\n"),
        "Invalid commit hash passed"
    );
}

fn version_info(is_canary: bool) -> VersionInfo {
    VersionInfo {
        deno: "1.46.0".to_string(),
        git_commit_hash: "0123".to_string(),
        release_version_or_canary_commit_hash: if is_canary { "0123" } else { "1.46.0" }.to_string(),
        is_canary,
    }
}

#[test]
fn passed_version_that_runs_already() {
    let select = |channel, version: &str, force, is_canary| {
        select_specific_version_for_upgrade(
            channel,
            version.to_string(),
            force,
            &version_info(is_canary),
        )
        .unwrap()
    };
    let some = |version: &str| Some(version.to_string());
    assert_eq!(select(ReleaseChannel::Stable, "1.46.0", false, false), None);
    assert_eq!(select(ReleaseChannel::Stable, "1.46.0", true, false), some("1.46.0"));
    assert_eq!(select(ReleaseChannel::Stable, "1.45.0", false, false), some("1.45.0"));
    assert_eq!(select(ReleaseChannel::Stable, "1.46.0", false, true), some("1.46.0"));
    assert_eq!(select(ReleaseChannel::Canary, "0123", false, false), None);
    assert_eq!(select(ReleaseChannel::Canary, "4567", false, true), some("4567"));
}

#[test]
fn latest_version_that_runs_already() {
    let find = |channel, version: &str, force, is_canary| {
        find_latest_version_to_upgrade(
            version.to_string(),
            channel,
            force,
            &version_info(is_canary),
        )
    };
    let some = |version: &str| Some(version.to_string());
    assert_eq!(find(ReleaseChannel::Stable, "1.46.0", false, false), None);
    assert_eq!(find(ReleaseChannel::Stable, "1.45.9", false, false), None);
    assert_eq!(find(ReleaseChannel::Stable, "1.45.9", true, false), some("1.45.9"));
    assert_eq!(find(ReleaseChannel::Stable, "1.46.1", false, false), some("1.46.1"));
    assert_eq!(find(ReleaseChannel::Stable, "1.0.0", false, true), some("1.0.0"));
    assert_eq!(find(ReleaseChannel::Canary, "0123", false, true), None);
    assert_eq!(find(ReleaseChannel::Canary, "4567", false, true), some("4567"));
    assert_eq!(latest_unless_most_recent("2".to_string(), true, false), None);
    assert_eq!(latest_unless_most_recent("2".to_string(), true, true), some("2"));
    assert_eq!(latest_unless_most_recent("2".to_string(), false, false), some("2"));
}

#[test]
fn versions_that_cannot_be_compared() {
    let find = |channel, version: &str, is_canary| {
        try_find_latest_version_to_upgrade(
            version.to_string(),
            channel,
            false,
            &version_info(is_canary),
        )
    };
    assert_eq!(find(ReleaseChannel::Stable, "abc", false), None);
    assert_eq!(find(ReleaseChannel::Stable, "abc", true), Some(Some("abc".to_string())));
    assert_eq!(find(ReleaseChannel::Stable, "1.46.0", false), Some(None));
    assert_eq!(find(ReleaseChannel::Rc, "1.46.0", false), None);
    assert_eq!(find(ReleaseChannel::Lts, "1.46.0", false), None);
}

#[test]
fn provider_knows_the_running_version() {
    let provider = RealVersionProvider::new(version_info(true), UpgradeCheckKind::Lsp);
    assert_eq!(provider.current_version(), "0123");
    assert_eq!(provider.get_current_exe_release_channel(), Ok(ReleaseChannel::Canary));
    assert_eq!(provider.check_kind, UpgradeCheckKind::Lsp);
    let provider = RealVersionProvider::new(version_info(false), UpgradeCheckKind::Execution);
    assert_eq!(provider.get_current_exe_release_channel(), Ok(ReleaseChannel::Stable));
}

#[test]
fn channels_have_names_and_identifiers() {
    let channels = [
        (ReleaseChannel::Stable, "latest", "stable"),
        (ReleaseChannel::Canary, "canary", "canary"),
        (ReleaseChannel::Rc, "release candidate", "rc"),
        (ReleaseChannel::Lts, "LTS (long term support)", "lts"),
    ];
    for (channel, name, id) in channels {
        assert_eq!(channel.name(), name);
        assert_eq!(channel.serialize(), id);
        assert_eq!(ReleaseChannel::deserialize(id), Ok(channel));
    }
    assert_eq!(
        ReleaseChannel::deserialize("Stable").unwrap_err().message,
        "Unrecognized release channel: Stable"
    );
}
