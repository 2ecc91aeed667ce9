use deno_tools::shared::{AnyError, ReleaseChannel, VersionInfo};
use deno_tools::time::DateTime;
use deno_tools::update_check::{
    check_for_upgrades, check_for_upgrades_for_lsp, check_for_upgrades_for_lsp_with_provider,
    fetch_and_store_latest_version, is_known_up_to_date, lsp_upgrade_unless, upgrade_check_enabled,
    CheckVersionFile, LspVersionUpgradeInfo, UpdateChecker, UPGRADE_CHECK_INTERVAL,
};

const HOUR: i64 = 3600;

/// The world around the update checker.
struct TestEnvironment {
    file_text: String,
    is_canary: bool,
    current_version: String,
    latest_version: Result<String, String>,
    time: DateTime,
}

impl TestEnvironment {
    fn new() -> Self {
        Self {
            file_text: String::new(),
            is_canary: false,
            current_version: String::new(),
            latest_version: Ok(String::new()),
            time: DateTime::from_timestamp(1_700_000_000, 123_456_789).unwrap(),
        }
    }

    fn add_hours(&mut self, hours: i64) {
        self.time = DateTime::from_timestamp(
            self.time.timestamp() + hours * HOUR,
            self.time.timestamp_subsec_nanos(),
        )
        .unwrap();
    }

    fn release_channel(&self) -> Result<ReleaseChannel, AnyError> {
        if self.is_canary {
            Ok(ReleaseChannel::Canary)
        } else {
            Ok(ReleaseChannel::Stable)
        }
    }

    fn latest_version(&self) -> Result<String, AnyError> {
        self.latest_version.clone().map_err(AnyError::new)
    }

    fn checker(&self) -> UpdateChecker {
        UpdateChecker::new(self.file_text.clone())
    }

    fn fetch_and_store(&mut self) {
        let text = fetch_and_store_latest_version(
            self.release_channel(),
            self.latest_version(),
            &self.current_version,
            self.time,
        );
        if let Some(text) = text {
            self.file_text = text;
        }
    }

    fn should_check(&self, checker: &UpdateChecker) -> bool {
        checker.should_check_for_new_version(&self.time)
    }

    fn should_prompt(&self, checker: &UpdateChecker) -> Option<String> {
        checker.should_prompt(&self.current_version, &self.time)
    }

    fn lsp_info(&self) -> Option<LspVersionUpgradeInfo> {
        check_for_upgrades_for_lsp_with_provider(
            self.release_channel(),
            self.latest_version(),
            &self.current_version,
        )
        .unwrap()
    }
}

#[test]
fn test_parse_upgrade_check_file() {
    let file = CheckVersionFile::parse(
        "2020-01-01T00:00:00+00:00!2020-01-01T00:00:00+00:00!1.2.3!1.2.2".to_string(),
    )
    .unwrap();
    assert_eq!(file.last_prompt.to_rfc3339(), "2020-01-01T00:00:00+00:00".to_string());
    assert_eq!(file.last_checked.to_rfc3339(), "2020-01-01T00:00:00+00:00".to_string());
    assert_eq!(file.latest_version, "1.2.3".to_string());
    assert_eq!(file.current_version, "1.2.2".to_string());

    let result = CheckVersionFile::parse("2020-01-01T00:00:00+00:00!".to_string());
    assert!(result.is_none());

    let result = CheckVersionFile::parse("garbage!test".to_string());
    assert!(result.is_none());

    let result = CheckVersionFile::parse("test".to_string());
    assert!(result.is_none());
}

#[test]
fn test_serialize_upgrade_check_file() {
    let file = CheckVersionFile {
        last_prompt: DateTime::parse_from_rfc3339("2020-01-01T00:00:00Z").unwrap(),
        last_checked: DateTime::parse_from_rfc3339("2020-01-01T00:00:00Z").unwrap(),
        latest_version: "1.2.3".to_string(),
        current_version: "1.2.2".to_string(),
    };
    assert_eq!(
        file.serialize(),
        "2020-01-01T00:00:00+00:00!2020-01-01T00:00:00+00:00!1.2.3!1.2.2"
    );
}

#[test]
fn test_update_checker() {
    let mut env = TestEnvironment::new();
    env.current_version = "1.0.0".to_string();
    env.latest_version = Ok("1.1.0".to_string());
    let checker = env.checker();

    // no version, so we should check, but not prompt
    assert!(env.should_check(&checker));
    assert_eq!(env.should_prompt(&checker), None);

    // store the latest version
    env.fetch_and_store();

    // reload
    let checker = env.checker();

    // should not check for latest version because we just did
    assert!(!env.should_check(&checker));
    // but should prompt
    assert_eq!(env.should_prompt(&checker), Some("1.1.0".to_string()));

    // fast forward an hour and bump the latest version
    env.add_hours(1);
    env.latest_version = Ok("1.2.0".to_string());
    assert!(!env.should_check(&checker));
    assert_eq!(env.should_prompt(&checker), Some("1.1.0".to_string()));

    // fast forward again and it should check for a newer version
    env.add_hours(UPGRADE_CHECK_INTERVAL);
    assert!(env.should_check(&checker));
    assert_eq!(env.should_prompt(&checker), Some("1.1.0".to_string()));

    env.fetch_and_store();

    // reload and store that we prompted
    let checker = env.checker();
    assert!(!env.should_check(&checker));
    assert_eq!(env.should_prompt(&checker), Some("1.2.0".to_string()));
    env.file_text = checker.store_prompted(env.time).unwrap();

    // reload and it should now say not to prompt
    let checker = env.checker();
    assert!(!env.should_check(&checker));
    assert_eq!(env.should_prompt(&checker), None);

    // but if we fast forward past the upgrade interval it should prompt again
    env.add_hours(UPGRADE_CHECK_INTERVAL + 1);
    assert!(env.should_check(&checker));
    assert_eq!(env.should_prompt(&checker), Some("1.2.0".to_string()));

    // upgrade the version and it should stop prompting
    env.current_version = "1.2.0".to_string();
    assert!(env.should_check(&checker));
    assert_eq!(env.should_prompt(&checker), None);

    // now try failing when fetching the latest version
    env.add_hours(UPGRADE_CHECK_INTERVAL + 1);
    env.latest_version = Err("Failed".to_string());
    env.latest_version = Ok("1.3.0".to_string());

    // this will silently fail
    env.fetch_and_store();
    assert!(env.should_check(&checker));
    assert_eq!(env.should_prompt(&checker), None);
}

#[test]
fn test_update_checker_current_newer_than_latest() {
    let mut env = TestEnvironment::new();
    env.file_text = CheckVersionFile {
        last_prompt: env.time.minus_hours(UPGRADE_CHECK_INTERVAL + 1),
        last_checked: env.time,
        latest_version: "1.26.2".to_string(),
        current_version: "1.27.0".to_string(),
    }
    .serialize();
    env.current_version = "1.27.0".to_string();
    env.latest_version = Ok("1.26.2".to_string());
    let checker = env.checker();

    // since currently running version is newer than latest available (eg. CDN
    // propagation might be delated) we should not prompt
    assert_eq!(env.should_prompt(&checker), None);
}

#[test]
fn test_should_not_prompt_if_current_cli_version_has_changed() {
    let mut env = TestEnvironment::new();
    env.file_text = CheckVersionFile {
        last_prompt: env.time.minus_hours(UPGRADE_CHECK_INTERVAL + 1),
        last_checked: env.time,
        latest_version: "1.26.2".to_string(),
        current_version: "1.25.0".to_string(),
    }
    .serialize();
    // simulate an upgrade done to a canary version
    env.current_version = "61fbfabe440f1cfffa7b8d17426ffdece4d430d0".to_string();
    let checker = env.checker();
    assert_eq!(env.should_prompt(&checker), None);
}

#[test]
fn test_upgrades_lsp() {
    let mut env = TestEnvironment::new();
    env.current_version = "1.0.0".to_string();
    env.latest_version = Ok("2.0.0".to_string());

    // greater
    assert_eq!(
        env.lsp_info(),
        Some(LspVersionUpgradeInfo { latest_version: "2.0.0".to_string(), is_canary: false })
    );
    // equal
    env.latest_version = Ok("1.0.0".to_string());
    assert_eq!(env.lsp_info(), None);
    // less
    env.latest_version = Ok("0.9.0".to_string());
    assert_eq!(env.lsp_info(), None);
    // canary equal
    env.current_version = "123".to_string();
    env.latest_version = Ok("123".to_string());
    env.is_canary = true;
    assert_eq!(env.lsp_info(), None);
    // canary different
    env.latest_version = Ok("1234".to_string());
    assert_eq!(
        env.lsp_info(),
        Some(LspVersionUpgradeInfo { latest_version: "1234".to_string(), is_canary: true })
    );
}

#[test]
fn check_file_needs_all_its_parts() {
    let time = "2020-01-01T00:00:00+00:00";
    let parse = |text: String| CheckVersionFile::parse(text);
    assert!(parse(format!("{time}!{time}!1.2.3!1.2.2!")).is_none());
    assert!(parse(format!("{time}!{time}! !1.2.2")).is_none());
    assert!(parse(format!("{time}!{time}!1.2.3!\t")).is_none());
    assert!(parse(format!("yesterday!{time}!1.2.3!1.2.2")).is_none());
    assert!(parse(format!("{time}!yesterday!1.2.3!1.2.2")).is_none());
    assert!(parse(format!("{time}!{time}!1.2.3!1.2.2")).is_some());
}

#[test]
fn check_file_versions_are_trimmed() {
    let file = CheckVersionFile::parse(
        "2020-01-01T00:00:00+00:00!2020-01-02T00:00:00+00:00! 1.2.3\n!\u{a0}1.2.2 ".to_string(),
    )
    .unwrap();
    assert_eq!(file.latest_version, "1.2.3");
    assert_eq!(file.current_version, "1.2.2");
    assert_eq!(file.last_prompt.timestamp(), 1_577_836_800);
    assert_eq!(file.last_checked.timestamp(), 1_577_923_200);
}

#[test]
fn check_file_reads_back_as_written() {
    let file = CheckVersionFile {
        last_prompt: DateTime::from_timestamp(1_700_000_000, 5).unwrap(),
        last_checked: DateTime::from_timestamp(-1, 999_999_999).unwrap(),
        latest_version: "2.0.0".to_string(),
        current_version: "abc".to_string(),
    };
    let read = CheckVersionFile::parse(file.serialize()).unwrap();
    assert_eq!(read.last_prompt, file.last_prompt);
    assert_eq!(read.last_checked, file.last_checked);
    assert_eq!(read.latest_version, file.latest_version);
    assert_eq!(read.current_version, file.current_version);
}

#[test]
fn last_prompt_is_replaced() {
    let file = CheckVersionFile {
        last_prompt: DateTime::from_timestamp(10, 0).unwrap(),
        last_checked: DateTime::from_timestamp(20, 0).unwrap(),
        latest_version: "b".to_string(),
        current_version: "a".to_string(),
    };
    let file = file.with_last_prompt(DateTime::from_timestamp(30, 7).unwrap());
    assert_eq!(
        file.serialize(),
        "1970-01-01T00:00:30.000000007+00:00!1970-01-01T00:00:20+00:00!b!a"
    );
}

#[test]
fn check_is_due_only_after_the_interval() {
    let mut env = TestEnvironment::new();
    env.current_version = "1.0.0".to_string();
    env.latest_version = Ok("1.1.0".to_string());
    env.fetch_and_store();
    let checker = env.checker();
    env.add_hours(UPGRADE_CHECK_INTERVAL);
    assert!(!env.should_check(&checker));
    env.time = DateTime::from_timestamp(
        env.time.timestamp(),
        env.time.timestamp_subsec_nanos() + 1,
    )
    .unwrap();
    assert!(env.should_check(&checker));
}

#[test]
fn failed_fetch_stores_nothing() {
    let time = DateTime::from_timestamp(1_700_000_000, 0).unwrap();
    let error = || AnyError::new("offline".to_string());
    assert!(fetch_and_store_latest_version(
        Ok(ReleaseChannel::Stable),
        Err(error()),
        "1.0.0",
        time
    )
    .is_none());
    assert!(
        fetch_and_store_latest_version(Err(error()), Ok("1.1.0".to_string()), "1.0.0", time)
            .is_none()
    );
    assert_eq!(
        fetch_and_store_latest_version(
            Ok(ReleaseChannel::Stable),
            Ok("1.1.0".to_string()),
            "1.0.0",
            time
        )
        .unwrap(),
        "2023-11-13T21:13:20+00:00!2023-11-14T22:13:20+00:00!1.1.0!1.0.0"
    );
}

#[test]
fn versions_decide_what_is_up_to_date() {
    assert!(is_known_up_to_date("1.2.3", "1.2.3"));
    assert!(is_known_up_to_date("1.10.0", "1.9.9"));
    assert!(!is_known_up_to_date("1.2.3-rc.1", "1.2.3"));
    assert!(is_known_up_to_date("1.2.3", "1.2.3-rc.1"));
    assert!(!is_known_up_to_date("abc", "1.2.3"));
    assert!(!is_known_up_to_date("1.2.3", "abc"));
}

#[test]
fn prompt_can_be_told_that_all_is_up_to_date() {
    let mut env = TestEnvironment::new();
    env.current_version = "abc".to_string();
    env.latest_version = Ok("def".to_string());
    env.is_canary = true;
    env.fetch_and_store();
    let checker = env.checker();
    assert_eq!(
        checker.should_prompt_unless(false, "abc", &env.time),
        Some("def".to_string())
    );
    assert_eq!(checker.should_prompt_unless(true, "abc", &env.time), None);
    assert_eq!(checker.should_prompt_unless(false, "def", &env.time), None);
}

fn version_info(is_canary: bool) -> VersionInfo {
    VersionInfo {
        deno: "1.0.0".to_string(),
        git_commit_hash: "0123".to_string(),
        release_version_or_canary_commit_hash: if is_canary { "0123" } else { "1.0.0" }.to_string(),
        is_canary,
    }
}

#[test]
fn check_does_nothing_when_disabled() {
    let time = DateTime::from_timestamp(1_700_000_000, 0).unwrap();
    let check = check_for_upgrades(false, String::new(), time, &version_info(false), true);
    assert!(!check.fetch);
    assert!(check.notice.is_none());
    assert!(check.write.is_none());
}

#[test]
fn check_tells_the_user_and_remembers_it() {
    let time = DateTime::from_timestamp(1_700_000_000, 0).unwrap();
    let file = "2023-11-01T00:00:00+00:00!2023-11-14T22:00:00+00:00!1.1.0!1.0.0".to_string();
    let check = check_for_upgrades(true, file.clone(), time, &version_info(false), true);
    assert!(!check.fetch);
    let notice = check.notice.unwrap();
    assert_eq!(notice.headline, "A new release of Deno is available:");
    assert_eq!(notice.versions, Some(("1.0.0".to_string(), "1.1.0".to_string())));
    assert_eq!(notice.hint, "Run `deno upgrade` to install it.");
    assert_eq!(
        check.write.unwrap(),
        "2023-11-14T22:13:20+00:00!2023-11-14T22:00:00+00:00!1.1.0!1.0.0"
    );

    let check = check_for_upgrades(true, file, time, &version_info(false), false);
    assert!(check.notice.is_none());
    assert!(check.write.is_none());
}

#[test]
fn check_tells_about_canary_builds() {
    let time = DateTime::from_timestamp(1_700_000_000, 0).unwrap();
    let file = "2023-11-01T00:00:00+00:00!2023-11-01T00:00:00+00:00!4567!0123".to_string();
    let check = check_for_upgrades(true, file, time, &version_info(true), true);
    assert!(check.fetch);
    let notice = check.notice.unwrap();
    assert_eq!(notice.headline, "A new canary release of Deno is available.");
    assert_eq!(notice.versions, None);
    assert_eq!(notice.hint, "Run `deno upgrade --canary` to install it.");
}

#[test]
fn variable_disables_the_check() {
    assert!(upgrade_check_enabled(false));
    assert!(!upgrade_check_enabled(true));
}

#[test]
fn lsp_check_passes_errors_on() {
    let error = |message: &str| AnyError::new(message.to_string());
    assert_eq!(
        check_for_upgrades_for_lsp(true, Err(error("a")), Err(error("b")), "1.0.0"),
        Err(error("a"))
    );
    assert_eq!(
        check_for_upgrades_for_lsp(
            true,
            Ok(ReleaseChannel::Stable),
            Err(error("b")),
            "1.0.0"
        ),
        Err(error("b"))
    );
    assert_eq!(
        check_for_upgrades_for_lsp(false, Err(error("a")), Err(error("b")), "1.0.0"),
        Ok(None)
    );
    assert_eq!(
        check_for_upgrades_for_lsp(
            true,
            Ok(ReleaseChannel::Stable),
            Ok("1.1.0".to_string()),
            "1.0.0"
        ),
        Ok(Some(LspVersionUpgradeInfo { latest_version: "1.1.0".to_string(), is_canary: false }))
    );
}

#[test]
fn lsp_upgrade_by_a_given_order() {
    let info = |is_canary| {
        Some(LspVersionUpgradeInfo { latest_version: "b".to_string(), is_canary })
    };
    let upgrade = |up_to_date, channel| {
        lsp_upgrade_unless(up_to_date, channel, "b".to_string(), "a")
    };
    assert_eq!(upgrade(false, ReleaseChannel::Stable), info(false));
    assert_eq!(upgrade(true, ReleaseChannel::Stable), None);
    assert_eq!(upgrade(true, ReleaseChannel::Canary), info(true));
    assert_eq!(
        lsp_upgrade_unless(false, ReleaseChannel::Lts, "a".to_string(), "a"),
        None
    );
}
