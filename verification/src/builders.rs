//! Building the commands of integration tests, and checking what they put out.

use vstd::prelude::*;
use vstd::string::*;

use crate::env_vars::EnvVars;
use crate::shared::AnyError;
use crate::text::{
    debug_text, decimal_text, has_suffix, has_text, remove_char, replace_text, signed_text,
    split_words, str_eq,
};

verus! {

/// The settings of a test context.
#[derive(Debug)]
pub struct TestContextBuilder {
    pub use_http_server: bool,
    pub use_temp_cwd: bool,
    pub use_separate_deno_dir: bool,
    /// Copies the files at the specified directory in the "testdata" directory to the temp folder
    /// and runs the test from there. This is useful when the test creates files in the testdata
    /// directory (ex. a node_modules folder)
    pub copy_temp_dir: Option<String>,
    pub cwd: Option<String>,
    pub envs: EnvVars,
    pub deno_exe: Option<String>,
}

/// The directories and the executable that a context is built with.
#[derive(Debug)]
pub struct ContextPaths {
    pub deno_dir: String,
    /// A new directory, for the context that does not share the one above.
    pub separate_temp_dir: String,
    pub testdata_path: String,
    pub deno_exe_path: String,
}

/// What building a context takes beyond the context.
#[derive(Debug)]
pub struct ContextSetup {
    pub start_http_server: bool,
    /// The directory to be copied from the test data to the temporary directory.
    pub copy_dir: Option<String>,
}

/// No setting differs from the default.
pub open spec fn is_default_builder(builder: TestContextBuilder) -> bool {
    &&& !builder.use_http_server
    &&& !builder.use_temp_cwd
    &&& !builder.use_separate_deno_dir
    &&& builder.copy_temp_dir is None
    &&& builder.cwd is None
    &&& builder.deno_exe is None
    &&& forall|key: Seq<char>| #[trigger] builder.envs.get(key) is None
}

/// All settings but the environment variables are the same.
pub open spec fn differs_in_envs(a: TestContextBuilder, b: TestContextBuilder) -> bool {
    b == (TestContextBuilder { envs: b.envs, ..a })
}

impl TestContextBuilder {
    pub fn new() -> (r: TestContextBuilder)
        ensures
            is_default_builder(r),
    {
        TestContextBuilder {
            use_http_server: false,
            use_temp_cwd: false,
            use_separate_deno_dir: false,
            copy_temp_dir: None,
            cwd: None,
            envs: EnvVars::new(),
            deno_exe: None,
        }
    }

    /// The settings for tests that use npm packages, given the environment variables for them.
    pub fn for_npm(npm_env_vars: &EnvVars) -> (r: TestContextBuilder)
        ensures
            r.use_http_server,
            !r.use_temp_cwd,
            !r.use_separate_deno_dir,
            r.copy_temp_dir is None,
            r.cwd is None,
            r.deno_exe is None,
            forall|key: Seq<char>| #[trigger] r.envs.get(key) == npm_env_vars.get(key),
    {
        let mut builder = Self::new();
        builder.use_http_server().add_npm_env_vars(npm_env_vars);
        builder
    }

    pub fn use_http_server(&mut self) -> (r: &mut TestContextBuilder)
        ensures
            *final(self) == *final(r),
            *r == (TestContextBuilder { use_http_server: true, ..*old(self) }),
    {
        self.use_http_server = true;
        self
    }

    pub fn use_temp_cwd(&mut self) -> (r: &mut TestContextBuilder)
        ensures
            *final(self) == *final(r),
            *r == (TestContextBuilder { use_temp_cwd: true, ..*old(self) }),
    {
        self.use_temp_cwd = true;
        self
    }

    /// By default, the temp_dir and the deno_dir will be shared. In some cases, that might cause an
    /// issue though, so calling this will use a separate directory for the deno dir and the temp
    /// directory.
    pub fn use_separate_deno_dir(&mut self) -> (r: &mut TestContextBuilder)
        ensures
            *final(self) == *final(r),
            *r == (TestContextBuilder { use_separate_deno_dir: true, ..*old(self) }),
    {
        self.use_separate_deno_dir = true;
        self
    }

    /// Copies the files at the specified directory in the "testdata" directory to the temp folder
    /// and runs the test from there. This is useful when the test creates files in the testdata
    /// directory (ex. a node_modules folder)
    pub fn use_copy_temp_dir(&mut self, dir: &str) -> (r: &mut TestContextBuilder)
        ensures
            *final(self) == *final(r),
            *r == (TestContextBuilder { copy_temp_dir: r.copy_temp_dir, ..*old(self) }),
            crate::text::opt_text(r.copy_temp_dir) == Some(dir@),
    {
        self.copy_temp_dir = Some(dir.to_owned());
        self
    }

    pub fn cwd(&mut self, cwd: &str) -> (r: &mut TestContextBuilder)
        ensures
            *final(self) == *final(r),
            *r == (TestContextBuilder { cwd: r.cwd, ..*old(self) }),
            crate::text::opt_text(r.cwd) == Some(cwd@),
    {
        self.cwd = Some(cwd.to_owned());
        self
    }

    pub fn env(&mut self, key: &str, value: &str) -> (r: &mut TestContextBuilder)
        ensures
            *final(self) == *final(r),
            differs_in_envs(*old(self), *r),
            forall|k: Seq<char>| #[trigger]
                r.envs.get(k) == if k == key@ {
                    Some(value@)
                } else {
                    old(self).envs.get(k)
                },
    {
        self.envs.insert(key, value);
        self
    }

    /// Sets the environment variables for tests that use npm packages.
    pub fn add_npm_env_vars(&mut self, npm_env_vars: &EnvVars) -> (r: &mut TestContextBuilder)
        ensures
            *final(self) == *final(r),
            differs_in_envs(*old(self), *r),
            forall|k: Seq<char>| #[trigger]
                r.envs.get(k) == match npm_env_vars.get(k) {
                    Some(value) => Some(value),
                    None => old(self).envs.get(k),
                },
    {
        self.envs.insert_all(npm_env_vars);
        self
    }

    /// Makes downloads deterministic.
    pub fn use_sync_npm_download(&mut self) -> (r: &mut TestContextBuilder)
        ensures
            *final(self) == *final(r),
            differs_in_envs(*old(self), *r),
            forall|k: Seq<char>| #[trigger]
                r.envs.get(k) == if k == "DENO_UNSTABLE_NPM_SYNC_DOWNLOAD"@ {
                    Some("1"@)
                } else {
                    old(self).envs.get(k)
                },
    {
        self.envs.insert("DENO_UNSTABLE_NPM_SYNC_DOWNLOAD", "1");
        self
    }

    /// The context, and what has to be set up for it.
    pub fn build(&self, paths: ContextPaths) -> (r: (TestContext, ContextSetup))
        ensures
            r.0.is_built_from(*self, paths),
            r.1.start_http_server == self.use_http_server,
            crate::text::opt_text(r.1.copy_dir) == crate::text::opt_text(self.copy_temp_dir),
    {
        let temp_dir = if self.use_separate_deno_dir {
            paths.separate_temp_dir
        } else {
            paths.deno_dir.clone()
        };
        let testdata_dir = if self.copy_temp_dir.is_some() {
            temp_dir.clone()
        } else {
            paths.testdata_path
        };
        let deno_exe = match &self.deno_exe {
            Some(deno_exe) => deno_exe.clone(),
            None => paths.deno_exe_path,
        };
        let mut envs = EnvVars::new();
        envs.insert_all(&self.envs);
        let context = TestContext {
            cwd: clone_opt(&self.cwd),
            deno_exe,
            envs,
            use_temp_cwd: self.use_temp_cwd,
            deno_dir: paths.deno_dir,
            temp_dir,
            testdata_dir,
        };
        let setup = ContextSetup {
            start_http_server: self.use_http_server,
            copy_dir: clone_opt(&self.copy_temp_dir),
        };
        (context, setup)
    }
}

fn clone_opt(text: &Option<String>) -> (r: Option<String>)
    ensures
        r == *text,
{
    match text {
        Some(text) => Some(text.clone()),
        None => None,
    }
}

/// What the commands of a test share.
#[derive(Debug)]
pub struct TestContext {
    pub deno_exe: String,
    pub envs: EnvVars,
    pub use_temp_cwd: bool,
    pub cwd: Option<String>,
    pub deno_dir: String,
    pub temp_dir: String,
    pub testdata_dir: String,
}

impl TestContext {
    /// The context has the settings of the builder. A copied directory of test data is in the
    /// temporary directory, and tests run from there.
    pub open spec fn is_built_from(self, builder: TestContextBuilder, paths: ContextPaths) -> bool {
        &&& self.cwd == builder.cwd
        &&& self.deno_exe == match builder.deno_exe {
            Some(deno_exe) => deno_exe,
            None => paths.deno_exe_path,
        }
        &&& forall|key: Seq<char>| #[trigger] self.envs.get(key) == builder.envs.get(key)
        &&& self.use_temp_cwd == builder.use_temp_cwd
        &&& self.deno_dir == paths.deno_dir
        &&& self.temp_dir == if builder.use_separate_deno_dir {
            paths.separate_temp_dir
        } else {
            paths.deno_dir
        }
        &&& self.testdata_dir == if builder.copy_temp_dir is Some {
            self.temp_dir
        } else {
            paths.testdata_path
        }
    }

    /// A context with the server of the tests.
    pub fn with_http_server(paths: ContextPaths) -> (r: (TestContext, ContextSetup))
        ensures
            r.1.start_http_server,
            r.1.copy_dir is None,
            r.0.cwd is None,
            !r.0.use_temp_cwd,
            r.0.deno_exe == paths.deno_exe_path,
            r.0.deno_dir == paths.deno_dir,
            r.0.temp_dir == paths.deno_dir,
            r.0.testdata_dir == paths.testdata_path,
            forall|key: Seq<char>| #[trigger] r.0.envs.get(key) is None,
    {
        let mut builder = TestContextBuilder::new();
        builder.use_http_server();
        builder.build(paths)
    }

    pub fn testdata_path(&self) -> (r: &String)
        ensures
            *r == self.testdata_dir,
    {
        &self.testdata_dir
    }

    pub fn deno_dir(&self) -> (r: &String)
        ensures
            *r == self.deno_dir,
    {
        &self.deno_dir
    }

    pub fn temp_dir(&self) -> (r: &String)
        ensures
            *r == self.temp_dir,
    {
        &self.temp_dir
    }

    /// A command that runs the executable of the context, with nothing else set.
    pub fn new_command(&self) -> (r: TestCommandBuilder<'_>)
        ensures
            r.command_name == self.deno_exe,
            r.args@.len() == 0,
            r.args_vec@.len() == 0,
            r.stdin is None,
            forall|key: Seq<char>| #[trigger] r.envs.get(key) is None,
            !r.env_clear,
            r.cwd is None,
            !r.split_output,
            *r.context == *self,
    {
        TestCommandBuilder {
            command_name: self.deno_exe.clone(),
            args: String::new(),
            args_vec: Vec::new(),
            stdin: None,
            envs: EnvVars::new(),
            env_clear: false,
            cwd: None,
            split_output: false,
            context: self,
        }
    }

    /// A client of the language server that runs the executable of the context.
    pub fn new_lsp_command(&self) -> (r: LspClientBuilder<'_>)
        ensures
            r.deno_exe == self.deno_exe,
            *r.context == *self,
    {
        LspClientBuilder { deno_exe: self.deno_exe.clone(), context: self }
    }
}

/// The settings of a client of the language server.
#[derive(Debug)]
pub struct LspClientBuilder<'a> {
    pub deno_exe: String,
    pub context: &'a TestContext,
}

/// The settings of a command.
#[derive(Debug)]
pub struct TestCommandBuilder<'a> {
    pub command_name: String,
    pub args: String,
    pub args_vec: Vec<String>,
    pub stdin: Option<String>,
    pub envs: EnvVars,
    pub env_clear: bool,
    pub cwd: Option<String>,
    pub split_output: bool,
    pub context: &'a TestContext,
}

/// The directory that a command runs in.
#[derive(Debug, PartialEq, Eq)]
pub enum CommandCwd {
    /// The temporary directory of the context.
    TempDir,
    /// The directory of the test data.
    TestData,
    /// A directory as seen from that of the test data.
    WithinTestData(String),
}

/// What to run, and how.
#[derive(Debug)]
pub struct CommandPlan {
    pub program: String,
    pub args: Vec<String>,
    pub cwd: CommandCwd,
    /// The environment of the running process is not handed on.
    pub env_clear: bool,
    /// The variables that are set for the command.
    pub envs: EnvVars,
    pub stdin: Option<String>,
    /// The two outputs are read apart from each other.
    pub split_output: bool,
}

/// The arguments, with the directory of the test data in the place of its variable.
pub open spec fn expanded_args(args: Seq<Seq<char>>, testdata_dir: Seq<char>) -> Seq<Seq<char>> {
    args.map_values(
        |arg: Seq<char>| crate::text::replaced(arg, "$TESTDATA"@, testdata_dir),
    )
}

impl<'a> TestCommandBuilder<'a> {
    pub fn command_name(&mut self, name: &str) -> (r: &mut TestCommandBuilder<'a>)
        ensures
            *final(self) == *final(r),
            *r == (TestCommandBuilder { command_name: r.command_name, ..*old(self) }),
            r.command_name@ == name@,
    {
        self.command_name = name.to_owned();
        self
    }

    pub fn args(&mut self, text: &str) -> (r: &mut TestCommandBuilder<'a>)
        ensures
            *final(self) == *final(r),
            *r == (TestCommandBuilder { args: r.args, ..*old(self) }),
            r.args@ == text@,
    {
        self.args = text.to_owned();
        self
    }

    pub fn args_vec(&mut self, args: Vec<String>) -> (r: &mut TestCommandBuilder<'a>)
        ensures
            *final(self) == *final(r),
            *r == (TestCommandBuilder { args_vec: args, ..*old(self) }),
    {
        self.args_vec = args;
        self
    }

    pub fn stdin(&mut self, text: &str) -> (r: &mut TestCommandBuilder<'a>)
        ensures
            *final(self) == *final(r),
            *r == (TestCommandBuilder { stdin: r.stdin, ..*old(self) }),
            crate::text::opt_text(r.stdin) == Some(text@),
    {
        self.stdin = Some(text.to_owned());
        self
    }

    /// Splits the output into stdout and stderr rather than having them combined.
    pub fn split_output(&mut self) -> (r: &mut TestCommandBuilder<'a>)
        ensures
            *final(self) == *final(r),
            *r == (TestCommandBuilder { split_output: true, ..*old(self) }),
    {
        self.split_output = true;
        self
    }

    pub fn env(&mut self, key: &str, value: &str) -> (r: &mut TestCommandBuilder<'a>)
        ensures
            *final(self) == *final(r),
            *r == (TestCommandBuilder { envs: r.envs, ..*old(self) }),
            forall|k: Seq<char>| #[trigger]
                r.envs.get(k) == if k == key@ {
                    Some(value@)
                } else {
                    old(self).envs.get(k)
                },
    {
        self.envs.insert(key, value);
        self
    }

    pub fn env_clear(&mut self) -> (r: &mut TestCommandBuilder<'a>)
        ensures
            *final(self) == *final(r),
            *r == (TestCommandBuilder { env_clear: true, ..*old(self) }),
    {
        self.env_clear = true;
        self
    }

    pub fn cwd(&mut self, cwd: &str) -> (r: &mut TestCommandBuilder<'a>)
        ensures
            *final(self) == *final(r),
            *r == (TestCommandBuilder { cwd: r.cwd, ..*old(self) }),
            crate::text::opt_text(r.cwd) == Some(cwd@),
    {
        self.cwd = Some(cwd.to_owned());
        self
    }

    /// The command can be run: a directory is given only where the test does not run in the
    /// temporary one, and the arguments are given in one way only.
    pub open spec fn can_run(self) -> bool {
        &&& self.context.use_temp_cwd ==> self.cwd is None && self.context.cwd is None
        &&& self.args_vec@.len() > 0 ==> self.args@.len() == 0
    }

    /// The directory that is asked for: that of the command, or that of the context.
    pub open spec fn wanted_cwd(self) -> Option<Seq<char>> {
        match self.cwd {
            Some(cwd) => Some(cwd@),
            None => crate::text::opt_text(self.context.cwd),
        }
    }

    /// The arguments that are asked for, before the directory of the test data is put in.
    pub open spec fn wanted_args(self) -> Seq<Seq<char>> {
        if self.args_vec@.len() == 0 {
            crate::text::words(self.args@)
        } else {
            crate::text::texts(self.args_vec@)
        }
    }

    /// The value that a variable is set to: that of the command, of the context, or the directory
    /// of the context for `DENO_DIR`, which clearing the environment clears.
    pub open spec fn wanted_env(self, key: Seq<char>) -> Option<Seq<char>> {
        match self.envs.get(key) {
            Some(value) => Some(value),
            None => match self.context.envs.get(key) {
                Some(value) => Some(value),
                None => if key == "DENO_DIR"@ && !self.env_clear {
                    Some(self.context.deno_dir@)
                } else {
                    None
                },
            },
        }
    }

    /// What to run, and how. `deno_exe_path` is the executable that the name `deno` stands for.
    pub fn run(&self, deno_exe_path: &str) -> (r: CommandPlan)
        requires
            self.can_run(),
        ensures
            r.program@ == if self.command_name@ == "deno"@ {
                deno_exe_path@
            } else {
                self.command_name@
            },
            crate::text::texts(r.args@) == expanded_args(
                self.wanted_args(),
                self.context.testdata_dir@,
            ),
            if self.context.use_temp_cwd {
                r.cwd is TempDir
            } else {
                match self.wanted_cwd() {
                    Some(cwd) => r.cwd matches CommandCwd::WithinTestData(dir) && dir@ == cwd,
                    None => r.cwd is TestData,
                }
            },
            r.env_clear == self.env_clear,
            forall|key: Seq<char>| #[trigger] r.envs.get(key) == self.wanted_env(key),
            r.stdin == self.stdin,
            r.split_output == self.split_output,
    {
        let cwd = if self.context.use_temp_cwd {
            CommandCwd::TempDir
        } else {
            match (&self.cwd, &self.context.cwd) {
                (Some(cwd), _) => CommandCwd::WithinTestData(cwd.clone()),
                (None, Some(cwd)) => CommandCwd::WithinTestData(cwd.clone()),
                (None, None) => CommandCwd::TestData,
            }
        };
        let args = if self.args_vec.len() == 0 {
            let words = split_words(self.args.as_str());
            self.expand(&words)
        } else {
            self.expand(&self.args_vec)
        };
        let program = if str_eq(self.command_name.as_str(), "deno") {
            deno_exe_path.to_owned()
        } else {
            self.command_name.clone()
        };
        let mut envs = EnvVars::new();
        if !self.env_clear {
            envs.insert("DENO_DIR", self.context.deno_dir.as_str());
        }
        envs.insert_all(&self.context.envs);
        envs.insert_all(&self.envs);
        CommandPlan {
            program,
            args,
            cwd,
            env_clear: self.env_clear,
            envs,
            stdin: clone_opt(&self.stdin),
            split_output: self.split_output,
        }
    }

    fn expand(&self, args: &Vec<String>) -> (r: Vec<String>)
        ensures
            crate::text::texts(r@) == expanded_args(
                crate::text::texts(args@),
                self.context.testdata_dir@,
            ),
    {
        let ghost all = expanded_args(crate::text::texts(args@), self.context.testdata_dir@);
        let mut r: Vec<String> = Vec::new();
        let mut i: usize = 0;
        proof {
            reveal_strlit("$TESTDATA");
            assert(crate::text::texts(r@) =~= all.take(0));
        }
        while i < args.len()
            invariant
                i <= args.len(),
                "$TESTDATA"@.len() > 0,
                all == expanded_args(crate::text::texts(args@), self.context.testdata_dir@),
                crate::text::texts(r@) == all.take(i as int),
            decreases args.len() - i,
        {
            let ghost before = r@;
            let arg = replace_text(
                args[i].as_str(),
                "$TESTDATA",
                self.context.testdata_dir.as_str(),
            );
            r.push(arg);
            assert(crate::text::texts(r@) =~= crate::text::texts(before).push(arg@));
            assert(all.take(i + 1) =~= all.take(i as int).push(all[i as int]));
            i += 1;
        }
        assert(all.take(i as int) =~= all);
        r
    }
}

impl Default for TestContextBuilder {
    fn default() -> (r: TestContextBuilder)
        ensures
            is_default_builder(r),
    {
        TestContextBuilder::new()
    }
}

/// What a process left: its outputs, without colours, and how it ended.
#[derive(Debug)]
pub struct ProcessOutcome {
    /// Both outputs, where they are not split.
    pub combined: Option<String>,
    /// The standard output and the standard error, where they are split.
    pub std_out_err: Option<(String, String)>,
    pub exit_code: Option<i32>,
    pub signal: Option<i32>,
}

/// An output as it is compared: the zero-width spaces by which `deno test` synchronizes its outputs
/// are left out.
pub open spec fn sanitized(text: Seq<char>, args: Seq<Seq<char>>) -> Seq<char> {
    if args.len() > 0 && args[0] == "test"@ {
        crate::text::without_char(text, '\u{200B}')
    } else {
        text
    }
}

fn sanitize_output(text: String, args: &Vec<String>) -> (r: String)
    ensures
        r@ == sanitized(text@, crate::text::texts(args@)),
{
    if args.len() > 0 && str_eq(args[0].as_str(), "test") {
        remove_char(text.as_str(), '\u{200B}')
    } else {
        text
    }
}

/// What a command put out, and what of it the test has looked at.
#[derive(Debug)]
pub struct TestCommandOutput {
    pub combined: Option<String>,
    pub std_out_err: Option<(String, String)>,
    pub exit_code: Option<i32>,
    pub signal: Option<i32>,
    pub testdata_dir: String,
    pub asserted_stdout: bool,
    pub asserted_stderr: bool,
    pub asserted_combined: bool,
    pub asserted_exit_code: bool,
}

/// The texts of an optional pair.
pub open spec fn opt_pair(pair: Option<(String, String)>) -> Option<(Seq<char>, Seq<char>)> {
    match pair {
        Some((a, b)) => Some((a@, b@)),
        None => None,
    }
}

/// The outputs are there in the form that was asked for: apart from each other, or combined.
pub open spec fn has_form(
    combined: Option<String>,
    std_out_err: Option<(String, String)>,
    split_output: bool,
) -> bool {
    &&& combined is Some <==> !split_output
    &&& std_out_err is Some <==> split_output
}

impl<'a> TestCommandBuilder<'a> {
    /// What a command that was run with the given arguments put out. The test has not looked at any
    /// of it.
    pub open spec fn is_output(
        self,
        args: Seq<Seq<char>>,
        outcome: ProcessOutcome,
        output: TestCommandOutput,
    ) -> bool {
        &&& crate::text::opt_text(output.combined) == match outcome.combined {
            Some(text) => Some(sanitized(text@, args)),
            None => None,
        }
        &&& opt_pair(output.std_out_err) == match outcome.std_out_err {
            Some((out, err)) => Some((sanitized(out@, args), sanitized(err@, args))),
            None => None,
        }
        &&& output.exit_code == outcome.exit_code
        &&& output.signal == outcome.signal
        &&& output.testdata_dir == self.context.testdata_dir
        &&& !output.asserted_stdout
        &&& !output.asserted_stderr
        &&& !output.asserted_combined
        &&& !output.asserted_exit_code
    }

    /// The output of a command that was run with the given arguments. Its outcome is in the form that
    /// the command asks for.
    pub fn output(&self, args: &Vec<String>, outcome: ProcessOutcome) -> (r: TestCommandOutput)
        requires
            has_form(outcome.combined, outcome.std_out_err, self.split_output),
        ensures
            self.is_output(crate::text::texts(args@), outcome, r),
            has_form(r.combined, r.std_out_err, self.split_output),
    {
        let combined = match outcome.combined {
            Some(text) => Some(sanitize_output(text, args)),
            None => None,
        };
        let std_out_err = match outcome.std_out_err {
            Some((out, err)) => Some((sanitize_output(out, args), sanitize_output(err, args))),
            None => None,
        };
        TestCommandOutput {
            combined,
            std_out_err,
            exit_code: outcome.exit_code,
            signal: outcome.signal,
            testdata_dir: self.context.testdata_dir.clone(),
            asserted_stdout: false,
            asserted_stderr: false,
            asserted_combined: false,
            asserted_exit_code: false,
        }
    }
}

/// How a text compares with what was expected.
#[derive(Debug, Clone, Copy, PartialEq, Eq, Structural)]
pub enum TextMatch {
    Matches,
    /// The texts differ.
    Different,
    /// The text does not match the pattern.
    PatternFailed,
}

/// A text without wildcards is compared as it is; one with wildcards is a pattern, and
/// `pattern_matches` says whether the text matches it.
pub open spec fn text_match(
    actual: Seq<char>,
    expected: Seq<char>,
    pattern_matches: bool,
) -> TextMatch {
    if !crate::text::contains_text(expected, "[WILDCARD]"@) {
        if actual == expected {
            TextMatch::Matches
        } else {
            TextMatch::Different
        }
    } else if pattern_matches {
        TextMatch::Matches
    } else {
        TextMatch::PatternFailed
    }
}

fn matches_text(actual: &str, expected: &str, pattern_matches: bool) -> (r: TextMatch)
    ensures
        r == text_match(actual@, expected@, pattern_matches),
{
    if !has_text(expected, "[WILDCARD]") {
        if str_eq(actual, expected) {
            TextMatch::Matches
        } else {
            TextMatch::Different
        }
    } else if pattern_matches {
        TextMatch::Matches
    } else {
        TextMatch::PatternFailed
    }
}

/// What is wrong with an exit code, if anything. `position` is where the test expects it.
pub open spec fn exit_code_error(
    exit_code: Option<i32>,
    signal: Option<i32>,
    expected: i32,
    position: Seq<char>,
) -> Option<Seq<char>> {
    match exit_code {
        Some(code) => if code != expected {
            Some(
                "bad exit code, expected: "@ + crate::text::signed_decimal(expected as int)
                    + ", actual: "@ + crate::text::signed_decimal(code as int) + " at "@ + position,
            )
        } else {
            None
        },
        None => match signal {
            Some(signal) => Some(
                "process terminated by signal, expected exit code: "@ + crate::text::debug_option(
                    exit_code,
                ) + ", actual signal: "@ + crate::text::signed_decimal(signal as int) + " at "@
                    + position,
            ),
            None => Some(
                "process terminated without status code on non unix platform, expected exit code: "@
                    + crate::text::debug_option(exit_code) + " at "@ + position,
            ),
        },
    }
}

/// The complaint about an output that the test has not looked at.
pub open spec fn unasserted_output(position: Seq<char>) -> Seq<char> {
    "The non-empty text of the command was not asserted at "@ + position
        + ". Call `output.skip_output_check()` to skip if necessary."@
}

/// Something that a test has to look at and has not looked at.
#[derive(Debug, Clone, PartialEq, Eq)]
pub struct Unasserted {
    pub error: AnyError,
    /// The text, where it is an output.
    pub text: Option<String>,
}

/// What an [`Unasserted`] holds.
#[verifier::ext_equal]
pub struct UnassertedView {
    pub error: Seq<Seq<char>>,
    pub text: Option<Seq<char>>,
}

impl View for Unasserted {
    type V = UnassertedView;

    open spec fn view(&self) -> UnassertedView {
        UnassertedView { error: self.error@, text: crate::text::opt_text(self.text) }
    }
}

/// The complaint about an output, where the test has to look at it and has not.
pub open spec fn unasserted_text(
    text: Seq<char>,
    asserted: bool,
    position: Seq<char>,
) -> Option<UnassertedView> {
    if text.len() > 0 && !asserted {
        Some(UnassertedView { error: seq![unasserted_output(position)], text: Some(text) })
    } else {
        None
    }
}

/// What the test has not looked at, if there is something that it has to: an exit code other than
/// zero, and every output that is not empty.
pub open spec fn unasserted(output: TestCommandOutput, position: Seq<char>) -> Option<
    UnassertedView,
> {
    if !output.asserted_exit_code && output.exit_code != Some(0i32) {
        let message = "The non-zero exit code of the command was not asserted: "@
            + crate::text::debug_option(output.exit_code) + " at "@ + position + "."@;
        Some(UnassertedView { error: seq![message], text: None })
    } else if output.combined matches Some(text) && unasserted_text(
        text@,
        output.asserted_combined,
        position,
    ) is Some {
        unasserted_text(output.combined->Some_0@, output.asserted_combined, position)
    } else {
        match output.std_out_err {
            Some((out, err)) => if out@.len() > 0 && !output.asserted_stdout {
                unasserted_text(out@, output.asserted_stdout, position)
            } else {
                unasserted_text(err@, output.asserted_stderr, position)
            },
            None => None,
        }
    }
}

impl TestCommandOutput {
    pub fn testdata_dir(&self) -> (r: &String)
        ensures
            *r == self.testdata_dir,
    {
        &self.testdata_dir
    }

    pub fn skip_output_check(&mut self)
        ensures
            *final(self) == (TestCommandOutput {
                asserted_combined: true,
                asserted_stdout: true,
                asserted_stderr: true,
                ..*old(self)
            }),
    {
        self.asserted_combined = true;
        self.asserted_stdout = true;
        self.asserted_stderr = true;
    }

    pub fn skip_exit_code_check(&mut self)
        ensures
            *final(self) == (TestCommandOutput { asserted_exit_code: true, ..*old(self) }),
    {
        self.asserted_exit_code = true;
    }

    /// The exit code, which the test has looked at by asking for it.
    pub fn exit_code(&mut self) -> (r: Option<i32>)
        ensures
            r == old(self).exit_code,
            *final(self) == (TestCommandOutput { asserted_exit_code: true, ..*old(self) }),
    {
        self.skip_exit_code_check();
        self.exit_code
    }

    pub fn signal(&self) -> (r: Option<i32>)
        ensures
            r == self.signal,
    {
        self.signal
    }

    /// Both outputs, which the test has looked at by asking for them.
    pub fn combined_output(&mut self) -> (r: String)
        requires
            old(self).combined is Some,
        ensures
            r == old(self).combined->Some_0,
            *final(self) == (TestCommandOutput {
                asserted_combined: true,
                asserted_stdout: true,
                asserted_stderr: true,
                ..*old(self)
            }),
    {
        self.skip_output_check();
        match &self.combined {
            Some(combined) => combined.clone(),
            None => String::new(),
        }
    }

    /// The standard output, which the test has looked at by asking for it.
    pub fn stdout(&mut self) -> (r: String)
        requires
            old(self).std_out_err is Some,
        ensures
            r == old(self).std_out_err->Some_0.0,
            *final(self) == (TestCommandOutput { asserted_stdout: true, ..*old(self) }),
    {
        self.asserted_stdout = true;
        match &self.std_out_err {
            Some((stdout, _)) => stdout.clone(),
            None => String::new(),
        }
    }

    /// The standard error, which the test has looked at by asking for it.
    pub fn stderr(&mut self) -> (r: String)
        requires
            old(self).std_out_err is Some,
        ensures
            r == old(self).std_out_err->Some_0.1,
            *final(self) == (TestCommandOutput { asserted_stderr: true, ..*old(self) }),
    {
        self.asserted_stderr = true;
        match &self.std_out_err {
            Some((_, stderr)) => stderr.clone(),
            None => String::new(),
        }
    }

    /// Compares the exit code with the expected one. `position` is where the test expects it.
    pub fn assert_exit_code(&mut self, expected_exit_code: i32, position: &str) -> (r: Result<
        (),
        AnyError,
    >)
        ensures
            *final(self) == (TestCommandOutput { asserted_exit_code: true, ..*old(self) }),
            match exit_code_error(
                old(self).exit_code,
                old(self).signal,
                expected_exit_code,
                position@,
            ) {
                Some(message) => r matches Err(e) && e@ == seq![message],
                None => r is Ok,
            },
    {
        let actual_exit_code = self.exit_code();
        let mut message: String = String::new();
        if let Some(exit_code) = actual_exit_code {
            if exit_code == expected_exit_code {
                return Ok(());
            }
            message.append("bad exit code, expected: ");
            message.append(signed_text(expected_exit_code).as_str());
            message.append(", actual: ");
            message.append(signed_text(exit_code).as_str());
        } else if let Some(signal) = self.signal() {
            message.append("process terminated by signal, expected exit code: ");
            message.append(debug_text(actual_exit_code).as_str());
            message.append(", actual signal: ");
            message.append(signed_text(signal).as_str());
        } else {
            message.append(
                "process terminated without status code on non unix platform, expected exit code: ",
            );
            message.append(debug_text(actual_exit_code).as_str());
        }
        message.append(" at ");
        message.append(position);
        proof {
            assert(message@ =~= exit_code_error(
                old(self).exit_code,
                old(self).signal,
                expected_exit_code,
                position@,
            )->Some_0);
        }
        Err(AnyError::new(message))
    }

    /// The texts that show the output to the user.
    pub fn print_output(&self) -> (r: Vec<String>)
        ensures
            crate::text::texts(r@) == match (self.combined, self.std_out_err) {
                (Some(combined), _) => seq!["OUTPUT\n"@ + combined@ + "\nOUTPUT"@],
                (None, Some((stdout, stderr))) => seq![
                    "STDOUT OUTPUT\n"@ + stdout@ + "\nSTDOUT OUTPUT"@,
                    "STDERR OUTPUT\n"@ + stderr@ + "\nSTDERR OUTPUT"@,
                ],
                (None, None) => Seq::<Seq<char>>::empty(),
            },
    {
        let mut lines: Vec<String> = Vec::new();
        if let Some(combined) = &self.combined {
            let mut text: String = "OUTPUT\n".to_owned();
            text.append(combined.as_str());
            text.append("\nOUTPUT");
            lines.push(text);
            assert(crate::text::texts(lines@) =~= seq![text@]);
        } else if let Some((stdout, stderr)) = &self.std_out_err {
            let mut out: String = "STDOUT OUTPUT\n".to_owned();
            out.append(stdout.as_str());
            out.append("\nSTDOUT OUTPUT");
            let mut err: String = "STDERR OUTPUT\n".to_owned();
            err.append(stderr.as_str());
            err.append("\nSTDERR OUTPUT");
            lines.push(out);
            lines.push(err);
            assert(crate::text::texts(lines@) =~= seq![out@, err@]);
        } else {
            assert(crate::text::texts(lines@) =~= Seq::<Seq<char>>::empty());
        }
        lines
    }

    /// Compares both outputs with a text. `pattern_matches` says whether they match it as a
    /// pattern.
    pub fn assert_matches_text(&mut self, expected_text: &str, pattern_matches: bool) -> (r:
        TextMatch)
        requires
            old(self).combined is Some,
        ensures
            r == text_match(old(self).combined->Some_0@, expected_text@, pattern_matches),
            *final(self) == (TestCommandOutput {
                asserted_combined: true,
                asserted_stdout: true,
                asserted_stderr: true,
                ..*old(self)
            }),
    {
        let actual = self.combined_output();
        matches_text(actual.as_str(), expected_text, pattern_matches)
    }

    /// Compares both outputs with the text of a file, which was read from `output_path`.
    pub fn assert_matches_file(
        &mut self,
        file_text: Result<String, String>,
        output_path: &str,
        pattern_matches: bool,
    ) -> (r: Result<TextMatch, AnyError>)
        requires
            old(self).combined is Some,
        ensures
            match file_text {
                Ok(expected) => r == Ok::<TextMatch, AnyError>(
                    text_match(old(self).combined->Some_0@, expected@, pattern_matches),
                ),
                Err(cause) => r matches Err(e) && e@ == seq![
                    "failed loading "@ + output_path@ + "\n\n"@ + cause@,
                ],
            },
            *final(self) == (TestCommandOutput {
                asserted_combined: true,
                asserted_stdout: true,
                asserted_stderr: true,
                ..*old(self)
            }),
    {
        let actual = self.combined_output();
        matches_file(actual.as_str(), file_text, output_path, pattern_matches)
    }

    /// Compares the standard output with a text.
    pub fn assert_stdout_matches_text(&mut self, expected_text: &str, pattern_matches: bool) -> (r:
        TextMatch)
        requires
            old(self).std_out_err is Some,
        ensures
            r == text_match(old(self).std_out_err->Some_0.0@, expected_text@, pattern_matches),
            *final(self) == (TestCommandOutput { asserted_stdout: true, ..*old(self) }),
    {
        let actual = self.stdout();
        matches_text(actual.as_str(), expected_text, pattern_matches)
    }

    /// Compares the standard output with the text of a file.
    pub fn assert_stdout_matches_file(
        &mut self,
        file_text: Result<String, String>,
        output_path: &str,
        pattern_matches: bool,
    ) -> (r: Result<TextMatch, AnyError>)
        requires
            old(self).std_out_err is Some,
        ensures
            match file_text {
                Ok(expected) => r == Ok::<TextMatch, AnyError>(
                    text_match(old(self).std_out_err->Some_0.0@, expected@, pattern_matches),
                ),
                Err(cause) => r matches Err(e) && e@ == seq![
                    "failed loading "@ + output_path@ + "\n\n"@ + cause@,
                ],
            },
            *final(self) == (TestCommandOutput { asserted_stdout: true, ..*old(self) }),
    {
        let actual = self.stdout();
        matches_file(actual.as_str(), file_text, output_path, pattern_matches)
    }

    /// Compares the standard error with a text.
    pub fn assert_stderr_matches_text(&mut self, expected_text: &str, pattern_matches: bool) -> (r:
        TextMatch)
        requires
            old(self).std_out_err is Some,
        ensures
            r == text_match(old(self).std_out_err->Some_0.1@, expected_text@, pattern_matches),
            *final(self) == (TestCommandOutput { asserted_stderr: true, ..*old(self) }),
    {
        let actual = self.stderr();
        matches_text(actual.as_str(), expected_text, pattern_matches)
    }

    /// Compares the standard error with the text of a file.
    pub fn assert_stderrr_matches_file(
        &mut self,
        file_text: Result<String, String>,
        output_path: &str,
        pattern_matches: bool,
    ) -> (r: Result<TextMatch, AnyError>)
        requires
            old(self).std_out_err is Some,
        ensures
            match file_text {
                Ok(expected) => r == Ok::<TextMatch, AnyError>(
                    text_match(old(self).std_out_err->Some_0.1@, expected@, pattern_matches),
                ),
                Err(cause) => r matches Err(e) && e@ == seq![
                    "failed loading "@ + output_path@ + "\n\n"@ + cause@,
                ],
            },
            *final(self) == (TestCommandOutput { asserted_stderr: true, ..*old(self) }),
    {
        let actual = self.stderr();
        matches_file(actual.as_str(), file_text, output_path, pattern_matches)
    }

    /// Forces the test to look at what it has to look at. `position` is where the test is.
    pub fn check_asserted(&self, position: &str) -> (r: Result<(), Unasserted>)
        ensures
            match unasserted(*self, position@) {
                Some(complaint) => r matches Err(u) && u@ == complaint,
                None => r is Ok,
            },
    {
        let exited_with_zero = match self.exit_code {
            Some(code) => code == 0,
            None => false,
        };
        if !self.asserted_exit_code && !exited_with_zero {
            let mut message: String =
                "The non-zero exit code of the command was not asserted: ".to_owned();
            message.append(debug_text(self.exit_code).as_str());
            message.append(" at ");
            message.append(position);
            message.append(".");
            return Err(Unasserted { error: AnyError::new(message), text: None });
        }
        // either the combined output needs to be asserted or both stdout and stderr
        if let Some(combined) = &self.combined {
            if !self.asserted_combined && !combined.as_str().is_empty() {
                return Err(unasserted_output_error(combined, position));
            }
        }
        if let Some((stdout, stderr)) = &self.std_out_err {
            if !self.asserted_stdout && !stdout.as_str().is_empty() {
                return Err(unasserted_output_error(stdout, position));
            }
            if !self.asserted_stderr && !stderr.as_str().is_empty() {
                return Err(unasserted_output_error(stderr, position));
            }
        }
        Ok(())
    }
}

fn unasserted_output_error(text: &String, position: &str) -> (r: Unasserted)
    ensures
        r@ == (UnassertedView { error: seq![unasserted_output(position@)], text: Some(text@) }),
{
    let mut message: String = "The non-empty text of the command was not asserted at ".to_owned();
    message.append(position);
    message.append(". Call `output.skip_output_check()` to skip if necessary.");
    Unasserted { error: AnyError::new(message), text: Some(text.clone()) }
}

fn matches_file(
    actual: &str,
    file_text: Result<String, String>,
    output_path: &str,
    pattern_matches: bool,
) -> (r: Result<TextMatch, AnyError>)
    ensures
        match file_text {
            Ok(expected) => r == Ok::<TextMatch, AnyError>(
                text_match(actual@, expected@, pattern_matches),
            ),
            Err(cause) => r matches Err(e) && e@ == seq![
                "failed loading "@ + output_path@ + "\n\n"@ + cause@,
            ],
        },
{
    match file_text {
        Ok(expected) => Ok(matches_text(actual, expected.as_str(), pattern_matches)),
        Err(cause) => {
            let mut message: String = "failed loading ".to_owned();
            message.append(output_path);
            message.append("\n\n");
            message.append(cause.as_str());
            Err(AnyError::new(message))
        },
    }
}

/// A place in the source of a running program.
#[derive(Debug)]
pub struct BacktraceSymbol {
    pub filename: Option<String>,
    pub lineno: Option<u32>,
    pub colno: Option<u32>,
}

/// The place is in a file other than that of the builders.
pub open spec fn is_outside(symbol: BacktraceSymbol) -> bool {
    symbol.filename matches Some(name) && !crate::text::ends_with_text(name@, "builders.rs"@)
}

/// The number, or zero.
pub open spec fn or_zero(n: Option<u32>) -> nat {
    match n {
        Some(n) => n as nat,
        None => 0,
    }
}

/// The first place outside of the builders, from the one at `from` on.
pub open spec fn position_from(symbols: Seq<BacktraceSymbol>, from: int) -> Seq<char>
    decreases symbols.len() - from,
{
    if from < 0 || from >= symbols.len() {
        "<unknown>"@
    } else if is_outside(symbols[from]) {
        symbols[from].filename->Some_0@ + ":"@ + crate::text::decimal(or_zero(symbols[from].lineno))
            + ":"@ + crate::text::decimal(or_zero(symbols[from].colno))
    } else {
        position_from(symbols, from + 1)
    }
}

/// Where a test failed: the first place of its backtrace that is outside of the builders.
pub fn failed_position(symbols: &Vec<BacktraceSymbol>) -> (r: String)
    ensures
        r@ == position_from(symbols@, 0),
{
    let mut i: usize = 0;
    while i < symbols.len()
        invariant
            i <= symbols.len(),
            position_from(symbols@, 0) == position_from(symbols@, i as int),
        decreases symbols.len() - i,
    {
        let symbol = &symbols[i];
        if let Some(filename) = &symbol.filename {
            if !has_suffix(filename.as_str(), "builders.rs") {
                let line: u32 = match symbol.lineno {
                    Some(line) => line,
                    None => 0,
                };
                let column: u32 = match symbol.colno {
                    Some(column) => column,
                    None => 0,
                };
                let mut text = filename.clone();
                text.append(":");
                text.append(decimal_text(line as u64).as_str());
                text.append(":");
                text.append(decimal_text(column as u64).as_str());
                return text;
            }
        }
        i += 1;
    }
    "<unknown>".to_owned()
}

/// Of a command whose output is split there are the standard output and the standard error and nothing
/// combined; of every other command there is the combined output only.
pub proof fn split_output_decides_the_form(
    builder: TestCommandBuilder<'_>,
    plan: CommandPlan,
    outcome: ProcessOutcome,
    output: TestCommandOutput,
)
    requires
        plan.split_output == builder.split_output,
        has_form(outcome.combined, outcome.std_out_err, plan.split_output),
        builder.is_output(crate::text::texts(plan.args@), outcome, output),
    ensures
        builder.split_output ==> output.std_out_err is Some && output.combined is None,
        !builder.split_output ==> output.combined is Some && output.std_out_err is None,
{
}

/// A test that skips both checks has nothing more to look at.
pub proof fn skipping_both_checks_is_enough(
    output: TestCommandOutput,
    skipped: TestCommandOutput,
    position: Seq<char>,
)
    requires
        skipped == (TestCommandOutput {
            asserted_combined: true,
            asserted_stdout: true,
            asserted_stderr: true,
            asserted_exit_code: true,
            ..output
        }),
    ensures
        unasserted(skipped, position) is None,
{
}

/// Nothing has to be looked at of a command that ended well and put nothing out.
pub proof fn silent_success_needs_no_check(output: TestCommandOutput, position: Seq<char>)
    requires
        output.exit_code == Some(0i32),
        output.combined matches Some(text) ==> text@.len() == 0,
        output.std_out_err matches Some((out, err)) ==> out@.len() == 0 && err@.len() == 0,
    ensures
        unasserted(output, position) is None,
{
}

/// A test that has looked at all that it has to can look at more without a complaint.
pub proof fn looking_never_adds_a_complaint(
    before: TestCommandOutput,
    after: TestCommandOutput,
    position: Seq<char>,
)
    requires
        unasserted(before, position) is None,
        after.combined == before.combined,
        after.std_out_err == before.std_out_err,
        after.exit_code == before.exit_code,
        before.asserted_combined ==> after.asserted_combined,
        before.asserted_stdout ==> after.asserted_stdout,
        before.asserted_stderr ==> after.asserted_stderr,
        before.asserted_exit_code ==> after.asserted_exit_code,
    ensures
        unasserted(after, position) is None,
{
}

/// A variable of the command counts for more than one of the context, and both for more than the
/// directory of the context.
pub proof fn command_variables_come_first(builder: TestCommandBuilder<'_>, key: Seq<char>)
    ensures
        builder.envs.get(key) is Some ==> builder.wanted_env(key) == builder.envs.get(key),
        builder.envs.get(key) is None && builder.context.envs.get(key) is Some
            ==> builder.wanted_env(key) == builder.context.envs.get(key),
        builder.env_clear && builder.envs.get(key) is None && builder.context.envs.get(key) is None
            ==> builder.wanted_env(key) is None,
{
}

/// The name `deno` stands for the executable, and every other name for itself. The input, the form of the
/// output and whether the environment is cleared are those of the command.
pub proof fn command_runs_what_was_asked_for(
    builder: &TestCommandBuilder<'_>,
    deno_exe_path: &str,
    plan: CommandPlan,
)
    requires
        call_ensures(TestCommandBuilder::run, (builder, deno_exe_path), plan),
    ensures
        builder.command_name@ == "deno"@ ==> plan.program@ == deno_exe_path@,
        builder.command_name@ != "deno"@ ==> plan.program@ == builder.command_name@,
        plan.stdin == builder.stdin,
        plan.split_output == builder.split_output,
        plan.env_clear == builder.env_clear,
{
}

/// A test in the temporary directory runs there. Otherwise a command runs in its own directory, in that of
/// the context where it has none, and in that of the test data where neither is given.
pub proof fn command_runs_in_its_directory(
    builder: &TestCommandBuilder<'_>,
    deno_exe_path: &str,
    plan: CommandPlan,
)
    requires
        call_ensures(TestCommandBuilder::run, (builder, deno_exe_path), plan),
    ensures
        builder.context.use_temp_cwd <==> plan.cwd is TempDir,
        !builder.context.use_temp_cwd ==> {
            &&& builder.cwd matches Some(cwd) ==> (plan.cwd matches CommandCwd::WithinTestData(dir)
                && dir@ == cwd@)
            &&& builder.cwd is None && builder.context.cwd is Some ==> (
            plan.cwd matches CommandCwd::WithinTestData(dir) && dir@
                == builder.context.cwd->Some_0@)
            &&& builder.cwd is None && builder.context.cwd is None ==> plan.cwd is TestData
        },
{
}

/// The arguments of a list are handed on one by one, and those of a text are its words. The directory of the
/// test data takes the place of its variable in each of them, and an argument without the variable stays
/// as it is.
pub proof fn arguments_are_handed_on(
    builder: &TestCommandBuilder<'_>,
    deno_exe_path: &str,
    plan: CommandPlan,
    i: int,
)
    requires
        call_ensures(TestCommandBuilder::run, (builder, deno_exe_path), plan),
    ensures
        builder.args_vec@.len() > 0 ==> plan.args@.len() == builder.args_vec@.len(),
        builder.args_vec@.len() > 0 && 0 <= i < builder.args_vec@.len() ==> {
            &&& plan.args@[i]@ == crate::text::replaced(
                builder.args_vec@[i]@,
                "$TESTDATA"@,
                builder.context.testdata_dir@,
            )
            &&& !crate::text::contains_text(builder.args_vec@[i]@, "$TESTDATA"@) ==> plan.args@[i]@
                == builder.args_vec@[i]@
        },
        builder.args_vec@.len() == 0 ==> plan.args@.len() == crate::text::words(
            builder.args@,
        ).len(),
        builder.args_vec@.len() == 0 && 0 <= i < crate::text::words(builder.args@).len() ==> {
            &&& plan.args@[i]@ == crate::text::replaced(
                crate::text::words(builder.args@)[i],
                "$TESTDATA"@,
                builder.context.testdata_dir@,
            )
            &&& !crate::text::contains_text(crate::text::words(builder.args@)[i], "$TESTDATA"@)
                ==> plan.args@[i]@ == crate::text::words(builder.args@)[i]
        },
{
    reveal_strlit("$TESTDATA");
    let wanted = if builder.args_vec@.len() > 0 {
        crate::text::texts(builder.args_vec@)
    } else {
        crate::text::words(builder.args@)
    };
    let all = crate::text::texts(plan.args@);
    assert(all == expanded_args(wanted, builder.context.testdata_dir@));
    assert(all.len() == wanted.len());
    if 0 <= i < wanted.len() {
        assert(all[i] == plan.args@[i]@);
        assert(all[i] == crate::text::replaced(
            wanted[i],
            "$TESTDATA"@,
            builder.context.testdata_dir@,
        ));
        if !crate::text::contains_text(wanted[i], "$TESTDATA"@) {
            crate::text::nothing_is_replaced(
                wanted[i],
                "$TESTDATA"@,
                builder.context.testdata_dir@,
            );
        }
    }
}

/// A variable is set to what the command says; where it says nothing, to what the context says; and where
/// neither does, only `DENO_DIR` is set, to the directory of the context, unless the environment is
/// cleared.
pub proof fn variables_are_handed_on(
    builder: &TestCommandBuilder<'_>,
    deno_exe_path: &str,
    plan: CommandPlan,
    key: Seq<char>,
)
    requires
        call_ensures(TestCommandBuilder::run, (builder, deno_exe_path), plan),
    ensures
        builder.envs.get(key) is Some ==> plan.envs.get(key) == builder.envs.get(key),
        builder.envs.get(key) is None && builder.context.envs.get(key) is Some ==> plan.envs.get(key)
            == builder.context.envs.get(key),
        builder.envs.get(key) is None && builder.context.envs.get(key) is None && key == "DENO_DIR"@
            && !builder.env_clear ==> plan.envs.get(key) == Some(builder.context.deno_dir@),
        builder.envs.get(key) is None && builder.context.envs.get(key) is None && (key
            != "DENO_DIR"@ || builder.env_clear) ==> plan.envs.get(key) is None,
{
    assert(plan.envs.get(key) == builder.wanted_env(key));
}

/// The directories of a context: a separate one where the test asks for it, and the shared one otherwise.
/// Copied test data is in the temporary directory, and everything else is in its own.
pub proof fn context_has_its_directories(
    builder: &TestContextBuilder,
    paths: ContextPaths,
    r: (TestContext, ContextSetup),
)
    requires
        call_ensures(TestContextBuilder::build, (builder, paths), r),
    ensures
        r.0.deno_dir == paths.deno_dir,
        builder.use_separate_deno_dir ==> r.0.temp_dir == paths.separate_temp_dir,
        !builder.use_separate_deno_dir ==> r.0.temp_dir == paths.deno_dir,
        builder.copy_temp_dir is Some ==> r.0.testdata_dir == r.0.temp_dir,
        builder.copy_temp_dir is None ==> r.0.testdata_dir == paths.testdata_path,
        builder.deno_exe matches Some(exe) ==> r.0.deno_exe == exe,
        builder.deno_exe is None ==> r.0.deno_exe == paths.deno_exe_path,
        r.0.cwd == builder.cwd,
        r.0.use_temp_cwd == builder.use_temp_cwd,
        forall|key: Seq<char>| #[trigger] r.0.envs.get(key) == builder.envs.get(key),
        r.1.start_http_server == builder.use_http_server,
        r.1.copy_dir is Some <==> builder.copy_temp_dir is Some,
        r.1.copy_dir matches Some(dir) ==> dir@ == builder.copy_temp_dir->Some_0@,
{
}

/// A test that has not looked at everything is told about one thing, the first of these: an exit code other
/// than zero, the combined output, the standard output and the standard error, each where it is not empty.
pub proof fn first_thing_not_looked_at_is_reported(
    output: &TestCommandOutput,
    position: &str,
    r: Result<(), Unasserted>,
)
    requires
        call_ensures(TestCommandOutput::check_asserted, (output, position), r),
    ensures
        ({
            let exit_code = output.exit_code != Some(0i32) && !output.asserted_exit_code;
            let combined = output.combined is Some && output.combined->Some_0@.len() > 0
                && !output.asserted_combined;
            let stdout = output.std_out_err is Some && output.std_out_err->Some_0.0@.len() > 0
                && !output.asserted_stdout;
            let stderr = output.std_out_err is Some && output.std_out_err->Some_0.1@.len() > 0
                && !output.asserted_stderr;
            &&& r is Ok <==> !exit_code && !combined && !stdout && !stderr
            &&& exit_code ==> r->Err_0.text is None && r->Err_0.error@ == seq![
                "The non-zero exit code of the command was not asserted: "@
                    + crate::text::debug_option(output.exit_code) + " at "@ + position@ + "."@,
            ]
            &&& !exit_code && (combined || stdout || stderr) ==> {
                &&& r->Err_0.error@ == seq![
                    "The non-empty text of the command was not asserted at "@ + position@
                        + ". Call `output.skip_output_check()` to skip if necessary."@,
                ]
                &&& r->Err_0.text matches Some(text) && text@ == if combined {
                    output.combined->Some_0@
                } else if stdout {
                    output.std_out_err->Some_0.0@
                } else {
                    output.std_out_err->Some_0.1@
                }
            }
        }),
{
}

/// An exit code is right exactly where the process has it. That it is compared counts as having looked at
/// it, whatever comes of it, and changes nothing else.
pub proof fn exit_code_is_compared(
    output: &mut TestCommandOutput,
    expected: i32,
    position: &str,
    r: Result<(), AnyError>,
)
    requires
        call_ensures(TestCommandOutput::assert_exit_code, (output, expected, position), r),
    ensures
        r is Ok <==> old(output).exit_code == Some(expected),
        final(output).asserted_exit_code,
        *final(output) == (TestCommandOutput { asserted_exit_code: true, ..*old(output) }),
        old(output).exit_code matches Some(actual) && actual != expected ==> r->Err_0@ == seq![
            "bad exit code, expected: "@ + crate::text::signed_decimal(expected as int)
                + ", actual: "@ + crate::text::signed_decimal(old(output).exit_code->Some_0 as int)
                + " at "@ + position@,
        ],
        old(output).exit_code is None && old(output).signal is Some ==> r->Err_0@ == seq![
            "process terminated by signal, expected exit code: "@ + "None"@ + ", actual signal: "@
                + crate::text::signed_decimal(old(output).signal->Some_0 as int) + " at "@
                + position@,
        ],
        old(output).exit_code is None && old(output).signal is None ==> r->Err_0@ == seq![
            "process terminated without status code on non unix platform, expected exit code: "@
                + "None"@ + " at "@ + position@,
        ],
{
}

/// A text without wildcards matches only itself; one with wildcards matches what the pattern says. Looking
/// at the combined output is looking at all outputs.
pub proof fn text_is_compared(
    output: &mut TestCommandOutput,
    expected: &str,
    pattern_matches: bool,
    r: TextMatch,
)
    requires
        call_ensures(TestCommandOutput::assert_matches_text, (output, expected, pattern_matches), r),
    ensures
        crate::text::contains_text(expected@, "[WILDCARD]"@) ==> (r is Matches <==> pattern_matches)
            && (r is PatternFailed <==> !pattern_matches),
        !crate::text::contains_text(expected@, "[WILDCARD]"@) ==> (r is Matches
            <==> old(output).combined->Some_0@ == expected@) && !(r is PatternFailed),
        final(output).asserted_combined,
        final(output).asserted_stdout,
        final(output).asserted_stderr,
        final(output).asserted_exit_code == old(output).asserted_exit_code,
{
}

/// Comparing one of the two outputs is looking at that one only.
pub proof fn split_outputs_are_compared_apart(
    out_output: &mut TestCommandOutput,
    err_output: &mut TestCommandOutput,
    expected: &str,
    pattern_matches: bool,
    out: TextMatch,
    err: TextMatch,
)
    requires
        call_ensures(
            TestCommandOutput::assert_stdout_matches_text,
            (out_output, expected, pattern_matches),
            out,
        ),
        call_ensures(
            TestCommandOutput::assert_stderr_matches_text,
            (err_output, expected, pattern_matches),
            err,
        ),
    ensures
        final(out_output).asserted_stdout,
        final(out_output).asserted_stderr == old(out_output).asserted_stderr,
        final(out_output).asserted_combined == old(out_output).asserted_combined,
        final(err_output).asserted_stderr,
        final(err_output).asserted_stdout == old(err_output).asserted_stdout,
        final(err_output).asserted_combined == old(err_output).asserted_combined,
        !crate::text::contains_text(expected@, "[WILDCARD]"@) ==> (out is Matches
            <==> old(out_output).std_out_err->Some_0.0@ == expected@) && (err is Matches
            <==> old(err_output).std_out_err->Some_0.1@ == expected@),
        crate::text::contains_text(expected@, "[WILDCARD]"@) ==> (out is Matches
            <==> pattern_matches) && (err is Matches <==> pattern_matches),
{
}

/// A file is compared as its text is; one that cannot be read is an error that names it, and the output
/// counts as looked at either way.
pub proof fn file_is_compared_as_its_text(
    output: &mut TestCommandOutput,
    file_text: Result<String, String>,
    output_path: &str,
    pattern_matches: bool,
    r: Result<TextMatch, AnyError>,
)
    requires
        call_ensures(
            TestCommandOutput::assert_matches_file,
            (output, file_text, output_path, pattern_matches),
            r,
        ),
    ensures
        final(output).asserted_combined && final(output).asserted_stdout
            && final(output).asserted_stderr,
        r is Ok <==> file_text is Ok,
        file_text matches Ok(expected) ==> {
            &&& !crate::text::contains_text(expected@, "[WILDCARD]"@) ==> (r->Ok_0 is Matches
                <==> old(output).combined->Some_0@ == expected@)
            &&& crate::text::contains_text(expected@, "[WILDCARD]"@) ==> (r->Ok_0 is Matches
                <==> pattern_matches)
        },
        file_text matches Err(cause) ==> r->Err_0@ == seq![
            "failed loading "@ + output_path@ + "\n\n"@ + cause@,
        ],
{
}

/// Asking for an output is looking at it, and gives it as it is.
pub proof fn asking_is_looking(
    combined_output: &mut TestCommandOutput,
    out_output: &mut TestCommandOutput,
    err_output: &mut TestCommandOutput,
    code_output: &mut TestCommandOutput,
    combined: String,
    out: String,
    err: String,
    code: Option<i32>,
)
    requires
        call_ensures(TestCommandOutput::combined_output, (combined_output,), combined),
        call_ensures(TestCommandOutput::stdout, (out_output,), out),
        call_ensures(TestCommandOutput::stderr, (err_output,), err),
        call_ensures(TestCommandOutput::exit_code, (code_output,), code),
        old(combined_output).combined is Some,
        old(out_output).std_out_err is Some,
        old(err_output).std_out_err is Some,
    ensures
        old(combined_output).combined == Some(combined),
        final(combined_output).asserted_combined && final(combined_output).asserted_stdout
            && final(combined_output).asserted_stderr,
        old(out_output).std_out_err->Some_0.0 == out,
        final(out_output).asserted_stdout && final(out_output).asserted_stderr == old(out_output).asserted_stderr,
        old(err_output).std_out_err->Some_0.1 == err,
        final(err_output).asserted_stderr && final(err_output).asserted_stdout == old(err_output).asserted_stdout,
        old(code_output).exit_code == code,
        final(code_output).asserted_exit_code,
{
}

/// The outputs of `deno test` lose their zero-width spaces, and nothing else; the outputs of every other
/// command stay as they are. The test has looked at nothing of a new output.
pub proof fn output_is_sanitized(
    builder: &TestCommandBuilder<'_>,
    args: &Vec<String>,
    outcome: ProcessOutcome,
    r: TestCommandOutput,
)
    requires
        call_ensures(TestCommandBuilder::output, (builder, args, outcome), r),
    ensures
        r.combined is Some <==> outcome.combined is Some,
        r.std_out_err is Some <==> outcome.std_out_err is Some,
        r.exit_code == outcome.exit_code,
        r.signal == outcome.signal,
        !r.asserted_stdout && !r.asserted_stderr && !r.asserted_combined && !r.asserted_exit_code,
        args@.len() > 0 && args@[0]@ == "test"@ ==> {
            &&& outcome.combined matches Some(text) ==> r.combined->Some_0@
                == crate::text::without_char(text@, '\u{200B}')
            &&& outcome.std_out_err matches Some((out, err)) ==> r.std_out_err->Some_0.0@
                == crate::text::without_char(out@, '\u{200B}') && r.std_out_err->Some_0.1@
                == crate::text::without_char(err@, '\u{200B}')
        },
        !(args@.len() > 0 && args@[0]@ == "test"@) ==> {
            &&& outcome.combined matches Some(text) ==> r.combined->Some_0@ == text@
            &&& outcome.std_out_err matches Some((out, err)) ==> r.std_out_err->Some_0.0@ == out@
                && r.std_out_err->Some_0.1@ == err@
        },
{
    let texts = crate::text::texts(args@);
    assert(texts.len() == args@.len());
    if args@.len() > 0 {
        assert(texts[0] == args@[0]@);
    }
}

/// A test failed at the first place of its backtrace that is in a file other than that of the builders:
/// the file, the line and the column, which are zero where they are not known.
pub proof fn failure_is_found_outside_the_builders(
    symbols: &Vec<BacktraceSymbol>,
    r: String,
    i: int,
)
    requires
        call_ensures(failed_position, (symbols,), r),
        0 <= i <= symbols@.len(),
        forall|k: int|
            0 <= k < i ==> ((#[trigger] symbols@[k]).filename matches Some(name)
                ==> "builders.rs"@.is_suffix_of(name@)),
        i < symbols@.len() ==> (symbols@[i].filename matches Some(name)
            && !"builders.rs"@.is_suffix_of(name@)),
    ensures
        i == symbols@.len() ==> r@ == "<unknown>"@,
        i < symbols@.len() ==> r@ == symbols@[i].filename->Some_0@ + ":"@ + crate::text::decimal(
            match symbols@[i].lineno {
                Some(n) => n as nat,
                None => 0,
            },
        ) + ":"@ + crate::text::decimal(
            match symbols@[i].colno {
                Some(n) => n as nat,
                None => 0,
            },
        ),
{
    places_in_the_builders_are_passed_over(symbols@, i);
    if i < symbols@.len() {
        crate::text::ends_with_a_suffix(symbols@[i].filename->Some_0@, "builders.rs"@);
    }
}

proof fn places_in_the_builders_are_passed_over(symbols: Seq<BacktraceSymbol>, i: int)
    requires
        0 <= i <= symbols.len(),
        forall|k: int|
            0 <= k < i ==> ((#[trigger] symbols[k]).filename matches Some(name)
                ==> "builders.rs"@.is_suffix_of(name@)),
    ensures
        position_from(symbols, 0) == position_from(symbols, i),
    decreases i,
{
    if i > 0 {
        places_in_the_builders_are_passed_over(symbols, i - 1);
        if let Some(name) = symbols[i - 1].filename {
            crate::text::ends_with_a_suffix(name@, "builders.rs"@);
        }
    }
}

/// The outputs are shown in the form in which they are there: combined, or the standard output before the
/// standard error.
pub proof fn outputs_are_shown(output: &TestCommandOutput, r: Vec<String>)
    requires
        call_ensures(TestCommandOutput::print_output, (output,), r),
    ensures
        output.combined matches Some(text) ==> r@.len() == 1 && r@[0]@ == "OUTPUT\n"@ + text@
            + "\nOUTPUT"@,
        output.combined is None && output.std_out_err is Some ==> r@.len() == 2 && r@[0]@
            == "STDOUT OUTPUT\n"@ + output.std_out_err->Some_0.0@ + "\nSTDOUT OUTPUT"@ && r@[1]@
            == "STDERR OUTPUT\n"@ + output.std_out_err->Some_0.1@ + "\nSTDERR OUTPUT"@,
        output.combined is None && output.std_out_err is None ==> r@.len() == 0,
{
    let texts = crate::text::texts(r@);
    assert(texts.len() == r@.len());
    if r@.len() > 0 {
        assert(texts[0] == r@[0]@);
    }
    if r@.len() > 1 {
        assert(texts[1] == r@[1]@);
    }
}

/// A new command runs the executable of its context, without arguments, variables, input or a directory of its
/// own.
pub proof fn new_command_is_plain(context: &TestContext, r: TestCommandBuilder<'_>, key: Seq<char>)
    requires
        call_ensures(TestContext::new_command, (context,), r),
    ensures
        r.command_name == context.deno_exe,
        r.args@.len() == 0,
        r.args_vec@.len() == 0,
        r.stdin is None,
        r.cwd is None,
        !r.env_clear,
        !r.split_output,
        r.envs.get(key) is None,
        *r.context == *context,
{
    assert(r.envs.get(key) is None);
}

/// Skipping the check of the outputs is looking at all of them, and skipping that of the exit code is looking at
/// it; nothing else changes.
pub proof fn skipped_checks_count_as_looked_at(
    output: &mut TestCommandOutput,
    code_output: &mut TestCommandOutput,
)
    requires
        call_ensures(TestCommandOutput::skip_output_check, (output,), ()),
        call_ensures(TestCommandOutput::skip_exit_code_check, (code_output,), ()),
    ensures
        final(output).asserted_combined && final(output).asserted_stdout && final(
            output
        ).asserted_stderr,
        final(output).asserted_exit_code == old(output).asserted_exit_code,
        final(output).combined == old(output).combined,
        final(output).std_out_err == old(output).std_out_err,
        final(code_output).asserted_exit_code,
        final(code_output).asserted_combined == old(code_output).asserted_combined,
        final(code_output).asserted_stdout == old(code_output).asserted_stdout,
        final(code_output).asserted_stderr == old(code_output).asserted_stderr,
{
}

/// A setting of a context changes that setting, and no other.
pub proof fn context_settings_are_separate(
    a: &mut TestContextBuilder,
    after_a: &mut TestContextBuilder,
    b: &mut TestContextBuilder,
    after_b: &mut TestContextBuilder,
    c: &mut TestContextBuilder,
    after_c: &mut TestContextBuilder,
    d: &mut TestContextBuilder,
    after_d: &mut TestContextBuilder,
    dir: &str,
)
    requires
        call_ensures(TestContextBuilder::use_http_server, (a,), after_a),
        call_ensures(TestContextBuilder::use_temp_cwd, (b,), after_b),
        call_ensures(TestContextBuilder::use_separate_deno_dir, (c,), after_c),
        call_ensures(TestContextBuilder::use_copy_temp_dir, (d, dir), after_d),
    ensures
        *old(after_a) == (TestContextBuilder { use_http_server: true, ..*old(a) }),
        *final(a) == *final(after_a),
        *old(after_b) == (TestContextBuilder { use_temp_cwd: true, ..*old(b) }),
        *final(b) == *final(after_b),
        *old(after_c) == (TestContextBuilder { use_separate_deno_dir: true, ..*old(c) }),
        *final(c) == *final(after_c),
        *old(after_d) == (TestContextBuilder {
            copy_temp_dir: old(after_d).copy_temp_dir,
            ..*old(d)
        }),
        old(after_d).copy_temp_dir matches Some(given) && given@ == dir@,
        *final(d) == *final(after_d),
{
}

/// A setting of a command changes that setting, and no other.
pub proof fn command_settings_are_separate<'a>(
    a: &mut TestCommandBuilder<'a>,
    after_a: &mut TestCommandBuilder<'a>,
    b: &mut TestCommandBuilder<'a>,
    after_b: &mut TestCommandBuilder<'a>,
    c: &mut TestCommandBuilder<'a>,
    after_c: &mut TestCommandBuilder<'a>,
    d: &mut TestCommandBuilder<'a>,
    after_d: &mut TestCommandBuilder<'a>,
    args: Vec<String>,
    text: &str,
)
    requires
        call_ensures(TestCommandBuilder::<'a>::split_output, (a,), after_a),
        call_ensures(TestCommandBuilder::<'a>::env_clear, (b,), after_b),
        call_ensures(TestCommandBuilder::<'a>::args_vec, (c, args), after_c),
        call_ensures(TestCommandBuilder::<'a>::args, (d, text), after_d),
    ensures
        *old(after_a) == (TestCommandBuilder { split_output: true, ..*old(a) }),
        *final(a) == *final(after_a),
        *old(after_b) == (TestCommandBuilder { env_clear: true, ..*old(b) }),
        *final(b) == *final(after_b),
        *old(after_c) == (TestCommandBuilder { args_vec: args, ..*old(c) }),
        *final(c) == *final(after_c),
        old(after_d).args@ == text@,
        *old(after_d) == (TestCommandBuilder { args: old(after_d).args, ..*old(d) }),
        *final(d) == *final(after_d),
{
}

/// The name, the input and the directory of a command are those that were set last.
pub proof fn last_setting_of_a_command_counts<'a>(
    a: &mut TestCommandBuilder<'a>,
    after_a: &mut TestCommandBuilder<'a>,
    b: &mut TestCommandBuilder<'a>,
    after_b: &mut TestCommandBuilder<'a>,
    c: &mut TestCommandBuilder<'a>,
    after_c: &mut TestCommandBuilder<'a>,
    text: &str,
)
    requires
        call_ensures(TestCommandBuilder::<'a>::command_name, (a, text), after_a),
        call_ensures(TestCommandBuilder::<'a>::stdin, (b, text), after_b),
        call_ensures(TestCommandBuilder::<'a>::cwd, (c, text), after_c),
    ensures
        old(after_a).command_name@ == text@,
        *old(after_a) == (TestCommandBuilder { command_name: old(after_a).command_name, ..*old(a) }),
        old(after_b).stdin matches Some(given) && given@ == text@,
        *old(after_b) == (TestCommandBuilder { stdin: old(after_b).stdin, ..*old(b) }),
        old(after_c).cwd matches Some(given) && given@ == text@,
        *old(after_c) == (TestCommandBuilder { cwd: old(after_c).cwd, ..*old(c) }),
{
}

/// A new context has no settings; one for npm packages uses the server of the tests and has the variables for
/// them, and nothing else.
pub proof fn new_context_has_no_settings(
    plain: TestContextBuilder,
    npm_env_vars: &EnvVars,
    npm: TestContextBuilder,
    key: Seq<char>,
)
    requires
        call_ensures(TestContextBuilder::new, (), plain),
        call_ensures(TestContextBuilder::for_npm, (npm_env_vars,), npm),
    ensures
        !plain.use_http_server && !plain.use_temp_cwd && !plain.use_separate_deno_dir,
        plain.copy_temp_dir is None && plain.cwd is None && plain.deno_exe is None,
        plain.envs.get(key) is None,
        npm.use_http_server && !npm.use_temp_cwd && !npm.use_separate_deno_dir,
        npm.copy_temp_dir is None && npm.cwd is None && npm.deno_exe is None,
        npm.envs.get(key) == npm_env_vars.get(key),
{
    assert(plain.envs.get(key) is None);
    assert(npm.envs.get(key) == npm_env_vars.get(key));
}

/// The standard output and the standard error are compared with a file as they are with its text.
pub proof fn split_outputs_are_compared_with_files(
    out_output: &mut TestCommandOutput,
    err_output: &mut TestCommandOutput,
    file_text: Result<String, String>,
    output_path: &str,
    pattern_matches: bool,
    out: Result<TextMatch, AnyError>,
    err: Result<TextMatch, AnyError>,
)
    requires
        call_ensures(
            TestCommandOutput::assert_stdout_matches_file,
            (out_output, file_text, output_path, pattern_matches),
            out,
        ),
        call_ensures(
            TestCommandOutput::assert_stderrr_matches_file,
            (err_output, file_text, output_path, pattern_matches),
            err,
        ),
    ensures
        final(out_output).asserted_stdout,
        final(out_output).asserted_stderr == old(out_output).asserted_stderr,
        final(err_output).asserted_stderr,
        final(err_output).asserted_stdout == old(err_output).asserted_stdout,
        out is Ok <==> file_text is Ok,
        err is Ok <==> file_text is Ok,
        file_text matches Ok(expected) && !crate::text::contains_text(expected@, "[WILDCARD]"@) ==> (
        out->Ok_0 is Matches <==> old(out_output).std_out_err->Some_0.0@
            == file_text->Ok_0@) && (err->Ok_0 is Matches <==> old(err_output).std_out_err->Some_0.1@
            == file_text->Ok_0@),
        file_text matches Err(cause) ==> out->Err_0@ == seq![
            "failed loading "@ + output_path@ + "\n\n"@ + cause@,
        ] && err->Err_0@ == out->Err_0@,
{
}

/// A variable that is set for a command or a context has the value that was set last, and no other variable
/// changes.
pub proof fn last_value_of_a_variable_counts<'a>(
    command: &mut TestCommandBuilder<'a>,
    after_command: &mut TestCommandBuilder<'a>,
    context: &mut TestContextBuilder,
    after_context: &mut TestContextBuilder,
    key: &str,
    value: &str,
    other: Seq<char>,
)
    requires
        call_ensures(TestCommandBuilder::<'a>::env, (command, key, value), after_command),
        call_ensures(TestContextBuilder::env, (context, key, value), after_context),
        other != key@,
    ensures
        old(after_command).envs.get(key@) == Some(value@),
        old(after_command).envs.get(other) == old(command).envs.get(other),
        *final(command) == *final(after_command),
        old(after_context).envs.get(key@) == Some(value@),
        old(after_context).envs.get(other) == old(context).envs.get(other),
        *final(context) == *final(after_context),
{
    assert(old(after_command).envs.get(key@) == Some(value@));
    assert(old(after_context).envs.get(key@) == Some(value@));
    assert(old(after_command).envs.get(other) == old(command).envs.get(other));
    assert(old(after_context).envs.get(other) == old(context).envs.get(other));
}

/// A context with the server of the tests starts it, copies nothing, and has no settings beyond that.
pub proof fn context_with_the_server_is_plain(
    paths: ContextPaths,
    r: (TestContext, ContextSetup),
    client: LspClientBuilder<'_>,
)
    requires
        call_ensures(TestContext::with_http_server, (paths,), r),
        call_ensures(TestContext::new_lsp_command, (&r.0,), client),
    ensures
        r.1.start_http_server,
        r.1.copy_dir is None,
        r.0.cwd is None,
        !r.0.use_temp_cwd,
        r.0.deno_exe == paths.deno_exe_path,
        r.0.temp_dir == paths.deno_dir,
        r.0.testdata_dir == paths.testdata_path,
        client.deno_exe == paths.deno_exe_path,
{
}

/// The variables for npm packages count for more than those that a context has, and downloads are made
/// deterministic by one variable.
pub proof fn npm_variables_are_set(
    a: &mut TestContextBuilder,
    after_a: &mut TestContextBuilder,
    b: &mut TestContextBuilder,
    after_b: &mut TestContextBuilder,
    npm_env_vars: &EnvVars,
    key: Seq<char>,
)
    requires
        call_ensures(TestContextBuilder::add_npm_env_vars, (a, npm_env_vars), after_a),
        call_ensures(TestContextBuilder::use_sync_npm_download, (b,), after_b),
    ensures
        npm_env_vars.get(key) is Some ==> old(after_a).envs.get(key) == npm_env_vars.get(key),
        npm_env_vars.get(key) is None ==> old(after_a).envs.get(key) == old(a).envs.get(key),
        key == "DENO_UNSTABLE_NPM_SYNC_DOWNLOAD"@ ==> old(after_b).envs.get(key) == Some("1"@),
        key != "DENO_UNSTABLE_NPM_SYNC_DOWNLOAD"@ ==> old(after_b).envs.get(key) == old(b).envs.get(
            key,
        ),
{
    assert(old(after_a).envs.get(key) == match npm_env_vars.get(key) {
        Some(value) => Some(value),
        None => old(a).envs.get(key),
    });
    assert(old(after_b).envs.get(key) == if key == "DENO_UNSTABLE_NPM_SYNC_DOWNLOAD"@ {
        Some("1"@)
    } else {
        old(b).envs.get(key)
    });
}

} // verus!
