use deno_tools::builders::{
    failed_position, BacktraceSymbol, CommandCwd, ContextPaths, ProcessOutcome, TestCommandOutput,
    TestContext, TestContextBuilder, TextMatch,
};
use deno_tools::env_vars::EnvVars;

fn paths() -> ContextPaths {
    ContextPaths {
        deno_dir: "/tmp/deno_dir".to_string(),
        separate_temp_dir: "/tmp/separate".to_string(),
        testdata_path: "/testdata".to_string(),
        deno_exe_path: "/bin/deno".to_string(),
    }
}

fn sorted(envs: &EnvVars) -> Vec<(String, String)> {
    let mut entries = envs.entries().clone();
    entries.sort();
    entries
}

fn vars(entries: &[(&str, &str)]) -> Vec<(String, String)> {
    entries.iter().map(|(k, v)| (k.to_string(), v.to_string())).collect()
}

#[test]
fn variables_have_one_value() {
    let mut envs = EnvVars::new();
    envs.insert("A", "1");
    envs.insert("B", "2");
    envs.insert("A", "3");
    assert_eq!(sorted(&envs), vars(&[("A", "3"), ("B", "2")]));
    let mut other = EnvVars::new();
    other.insert("B", "4");
    other.insert("C", "5");
    envs.insert_all(&other);
    assert_eq!(sorted(&envs), vars(&[("A", "3"), ("B", "4"), ("C", "5")]));
}

#[test]
fn contexts_are_built_by_their_settings() {
    let (context, setup) = TestContextBuilder::new().build(paths());
    assert_eq!(context.deno_dir(), "/tmp/deno_dir");
    assert_eq!(context.temp_dir(), "/tmp/deno_dir");
    assert_eq!(context.testdata_path(), "/testdata");
    assert_eq!(context.deno_exe, "/bin/deno");
    assert!(!setup.start_http_server);
    assert_eq!(setup.copy_dir, None);

    let mut builder = TestContextBuilder::default();
    builder.use_separate_deno_dir().use_copy_temp_dir("npm/a").use_http_server().cwd("sub");
    builder.deno_exe = Some("/other/deno".to_string());
    let (context, setup) = builder.build(paths());
    assert_eq!(context.temp_dir(), "/tmp/separate");
    assert_eq!(context.testdata_path(), "/tmp/separate");
    assert_eq!(context.deno_exe, "/other/deno");
    assert_eq!(context.cwd, Some("sub".to_string()));
    assert!(setup.start_http_server);
    assert_eq!(setup.copy_dir, Some("npm/a".to_string()));

    let (context, setup) = TestContext::with_http_server(paths());
    assert!(setup.start_http_server);
    assert_eq!(context.new_lsp_command().deno_exe, "/bin/deno");
}

#[test]
fn npm_tests_have_their_variables() {
    let mut npm = EnvVars::new();
    npm.insert("NPM_CONFIG_REGISTRY", "http://localhost:4545/npm/registry/");
    let mut builder = TestContextBuilder::for_npm(&npm);
    assert!(builder.use_http_server);
    builder.use_sync_npm_download().env("X", "1");
    assert_eq!(
        sorted(&builder.envs),
        vars(&[
            ("DENO_UNSTABLE_NPM_SYNC_DOWNLOAD", "1"),
            ("NPM_CONFIG_REGISTRY", "http://localhost:4545/npm/registry/"),
            ("X", "1"),
        ])
    );
}

#[test]
fn command_is_planned() {
    let mut builder = TestContextBuilder::new();
    builder.env("A", "context").env("B", "context");
    let (context, _) = builder.build(paths());
    let mut command = context.new_command();
    command.args("run  --allow-read\t$TESTDATA/a.ts $TESTDATA$TESTDATA").env("A", "command").stdin("in");
    let plan = command.run("/exe");
    assert_eq!(plan.program, "/bin/deno");
    assert_eq!(
        plan.args,
        vec!["run", "--allow-read", "/testdata/a.ts", "/testdata/testdata"]
    );
    assert_eq!(plan.cwd, CommandCwd::TestData);
    assert_eq!(
        sorted(&plan.envs),
        vars(&[("A", "command"), ("B", "context"), ("DENO_DIR", "/tmp/deno_dir")])
    );
    assert_eq!(plan.stdin, Some("in".to_string()));
    assert!(!plan.env_clear);
    assert!(!plan.split_output);

    let mut command = context.new_command();
    command
        .command_name("deno")
        .args_vec(vec!["a b".to_string(), "$TESTDATA".to_string()])
        .env_clear()
        .split_output()
        .cwd("sub");
    let plan = command.run("/exe");
    assert_eq!(plan.program, "/exe");
    assert_eq!(plan.args, vec!["a b", "/testdata"]);
    assert_eq!(plan.cwd, CommandCwd::WithinTestData("sub".to_string()));
    assert!(plan.env_clear);
    assert!(plan.split_output);
    // clearing the environment clears the directory too
    assert_eq!(sorted(&plan.envs), vars(&[("A", "context"), ("B", "context")]));
}

#[test]
fn commands_run_in_the_wanted_directory() {
    let mut builder = TestContextBuilder::new();
    builder.cwd("of_context");
    let (context, _) = builder.build(paths());
    assert_eq!(
        context.new_command().run("/exe").cwd,
        CommandCwd::WithinTestData("of_context".to_string())
    );
    let mut command = context.new_command();
    command.cwd("of_command");
    assert_eq!(
        command.run("/exe").cwd,
        CommandCwd::WithinTestData("of_command".to_string())
    );
    let mut builder = TestContextBuilder::new();
    builder.use_temp_cwd();
    let (context, _) = builder.build(paths());
    assert_eq!(context.new_command().run("/exe").cwd, CommandCwd::TempDir);
}

fn outcome(combined: Option<&str>, split: Option<(&str, &str)>) -> ProcessOutcome {
    ProcessOutcome {
        combined: combined.map(|t| t.to_string()),
        std_out_err: split.map(|(o, e)| (o.to_string(), e.to_string())),
        exit_code: Some(0),
        signal: None,
    }
}

fn output(outcome: ProcessOutcome) -> TestCommandOutput {
    let (context, _) = TestContextBuilder::new().build(paths());
    let mut command = context.new_command();
    if outcome.std_out_err.is_some() {
        command.split_output();
    }
    command.output(&vec!["run".to_string()], outcome)
}

#[test]
fn output_is_split_or_combined() {
    let split = output(outcome(None, Some(("x", "y"))));
    assert_eq!(split.std_out_err, Some(("x".to_string(), "y".to_string())));
    assert_eq!(split.combined, None);
    let combined = output(outcome(Some("xy"), None));
    assert_eq!(combined.combined, Some("xy".to_string()));
    assert_eq!(combined.std_out_err, None);
}

#[test]
fn zero_width_spaces_of_tests_are_left_out() {
    let (context, _) = TestContextBuilder::new().build(paths());
    let mut command = context.new_command();
    let test = vec!["test".to_string()];
    let text = "a\u{200B}b";
    assert_eq!(
        command.output(&test, outcome(Some(text), None)).combined_output(),
        "ab"
    );
    let run = vec!["run".to_string(), "test".to_string()];
    assert_eq!(command.output(&run, outcome(Some(text), None)).combined_output(), text);
    assert_eq!(command.output(&vec![], outcome(Some(text), None)).combined_output(), text);
    command.split_output();
    let mut split = command.output(&test, outcome(None, Some((text, "\u{200B}"))));
    assert_eq!(split.stdout(), "ab");
    assert_eq!(split.stderr(), "");
}

#[test]
fn texts_are_compared() {
    let mut o = output(outcome(Some("ab"), None));
    assert_eq!(o.testdata_dir(), "/testdata");
    assert_eq!(o.assert_matches_text("ab", false), TextMatch::Matches);
    assert_eq!(o.assert_matches_text("abc", true), TextMatch::Different);
    assert_eq!(o.assert_matches_text("a[WILDCARD]", true), TextMatch::Matches);
    assert_eq!(o.assert_matches_text("a[WILDCARD]", false), TextMatch::PatternFailed);
    assert_eq!(
        o.assert_matches_file(Ok("ab".to_string()), "/testdata/x.out", false),
        Ok(TextMatch::Matches)
    );
    assert_eq!(
        o.assert_matches_file(Err("not found".to_string()), "/testdata/x.out", false)
            .unwrap_err()
            .message,
        "failed loading /testdata/x.out\n\nnot found"
    );
    let mut o = output(outcome(None, Some(("out", "err"))));
    assert_eq!(o.assert_stdout_matches_text("out", false), TextMatch::Matches);
    assert_eq!(o.assert_stderr_matches_text("out", false), TextMatch::Different);
    assert_eq!(
        o.assert_stdout_matches_file(Ok("[WILDCARD]".to_string()), "p", true),
        Ok(TextMatch::Matches)
    );
    assert_eq!(
        o.assert_stderrr_matches_file(Ok("err".to_string()), "p", true),
        Ok(TextMatch::Matches)
    );
}

#[test]
fn exit_codes_are_compared() {
    let mut o = output(outcome(Some(""), None));
    assert_eq!(o.assert_exit_code(0, "a.rs:1:2"), Ok(()));
    assert_eq!(
        o.assert_exit_code(1, "a.rs:1:2").unwrap_err().message,
        "bad exit code, expected: 1, actual: 0 at a.rs:1:2"
    );
    o.exit_code = Some(-11);
    assert_eq!(
        o.assert_exit_code(i32::MIN, "p").unwrap_err().message,
        "bad exit code, expected: -2147483648, actual: -11 at p"
    );
    o.exit_code = None;
    assert_eq!(
        o.assert_exit_code(0, "p").unwrap_err().message,
        "process terminated without status code on non unix platform, expected exit code: None at p"
    );
    o.signal = Some(9);
    assert_eq!(o.signal(), Some(9));
    assert_eq!(
        o.assert_exit_code(0, "p").unwrap_err().message,
        "process terminated by signal, expected exit code: None, actual signal: 9 at p"
    );
}

#[test]
fn test_has_to_look_at_the_output() {
    let unasserted = "The non-empty text of the command was not asserted at p. Call `output.skip_output_check()` to skip if necessary.";
    let complaint = |o: &TestCommandOutput| o.check_asserted("p").map_err(|u| u.error.message);
    let text = |o: &TestCommandOutput| o.check_asserted("p").unwrap_err().text;

    let mut o = output(outcome(Some("x"), None));
    assert_eq!(complaint(&o), Err(unasserted.to_string()));
    assert_eq!(text(&o), Some("x".to_string()));
    o.combined_output();
    assert_eq!(complaint(&o), Ok(()));
    o.exit_code = Some(3);
    assert_eq!(
        complaint(&o),
        Err("The non-zero exit code of the command was not asserted: Some(3) at p.".to_string())
    );
    assert_eq!(text(&o), None);
    assert_eq!(o.exit_code(), Some(3));
    assert_eq!(complaint(&o), Ok(()));

    let mut o = output(outcome(None, Some(("x", "y"))));
    assert_eq!(complaint(&o), Err(unasserted.to_string()));
    assert_eq!(text(&o), Some("x".to_string()));
    o.stdout();
    assert_eq!(complaint(&o), Err(unasserted.to_string()));
    assert_eq!(text(&o), Some("y".to_string()));
    o.stderr();
    assert_eq!(complaint(&o), Ok(()));

    let mut o = output(outcome(None, Some(("x", "y"))));
    o.exit_code = None;
    o.skip_output_check();
    assert_eq!(
        complaint(&o),
        Err("The non-zero exit code of the command was not asserted: None at p.".to_string())
    );
    o.skip_exit_code_check();
    assert_eq!(complaint(&o), Ok(()));
    assert_eq!(complaint(&output(outcome(Some(""), None))), Ok(()));
}

#[test]
fn output_is_shown() {
    assert_eq!(
        output(outcome(Some("x"), None)).print_output(),
        vec!["OUTPUT\nx\nOUTPUT"]
    );
    assert_eq!(
        output(outcome(None, Some(("x", "y")))).print_output(),
        vec!["STDOUT OUTPUT\nx\nSTDOUT OUTPUT", "STDERR OUTPUT\ny\nSTDERR OUTPUT"]
    );
    let mut empty = output(outcome(Some("x"), None));
    empty.combined = None;
    assert!(empty.print_output().is_empty());
}

#[test]
fn position_is_outside_of_the_builders() {
    let symbol = |filename: Option<&str>, lineno, colno| BacktraceSymbol {
        filename: filename.map(|f| f.to_string()),
        lineno,
        colno,
    };
    let symbols = vec![
        symbol(None, Some(1), Some(1)),
        symbol(Some("/src/builders.rs"), Some(2), Some(2)),
        symbol(Some("/tests/a.rs"), Some(30), None),
        symbol(Some("/tests/b.rs"), Some(4), Some(4)),
    ];
    assert_eq!(failed_position(&symbols), "/tests/a.rs:30:0");
    assert_eq!(failed_position(&vec![]), "<unknown>");
}
