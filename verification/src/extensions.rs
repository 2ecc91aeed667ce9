//! Extensions of the runtime: their source files, their ops, and the order in which they are
//! loaded. The functions that an extension brings along are of a type `H` that the runtime chooses:
//! an extension keeps them and hands them out.

use vstd::prelude::*;
use vstd::string::*;

use crate::shared::AnyError;
use crate::text::str_eq;

verus! {

#[derive(Debug, Clone, PartialEq, Eq)]
pub enum ExtensionFileSourceCode {
    /// Source code is part of the binary produced. If you are snapshotting, this will result in two
    /// copies of the source code - one in the snapshot, the other the static string in the
    /// [`Extension`].
    IncludedInBinary(&'static str),
    /// Source code is loaded from a file on disk. It's meant to be used if the embedder is creating
    /// snapshots. Files will be loaded from the filesystem during the build time and they will only
    /// be present in the V8 snapshot.
    LoadedFromFsDuringSnapshot(String),
}

impl ExtensionFileSourceCode {
    /// The source code. `read` is what reading the file of the code gave, if it has one.
    pub fn load(&self, read: Result<String, AnyError>) -> (r: Result<String, AnyError>)
        ensures
            match self {
                ExtensionFileSourceCode::IncludedInBinary(code) => r matches Ok(text) && text@
                    == code@,
                ExtensionFileSourceCode::LoadedFromFsDuringSnapshot(path) => match read {
                    Ok(code) => r == Ok::<String, AnyError>(code),
                    Err(cause) => r matches Err(e) && e@ == seq![
                        "Failed to read \""@ + path@ + "\""@,
                    ] + cause@,
                },
            },
    {
        match self {
            ExtensionFileSourceCode::IncludedInBinary(code) => Ok((*code).to_owned()),
            ExtensionFileSourceCode::LoadedFromFsDuringSnapshot(path) => match read {
                Ok(code) => Ok(code),
                Err(cause) => {
                    let mut message: String = "Failed to read \"".to_owned();
                    message.append(path.as_str());
                    message.append("\"");
                    Err(cause.context(message))
                },
            },
        }
    }
}

#[derive(Debug, Clone, PartialEq, Eq)]
pub struct ExtensionFileSource {
    pub specifier: String,
    pub code: ExtensionFileSourceCode,
}

/// What an [`ExtensionFileSource`] holds.
#[verifier::ext_equal]
pub struct FileSourceView {
    pub specifier: Seq<char>,
    pub code: ExtensionFileSourceCode,
}

impl View for ExtensionFileSource {
    type V = FileSourceView;

    open spec fn view(&self) -> FileSourceView {
        FileSourceView { specifier: self.specifier@, code: self.code }
    }
}

/// What a sequence of files holds.
pub open spec fn file_views(files: Seq<ExtensionFileSource>) -> Seq<FileSourceView> {
    files.map_values(|f: ExtensionFileSource| f@)
}

/// The file as an extension has it: under the name of the extension.
pub open spec fn remapped(name: Seq<char>, file: FileSourceView) -> FileSourceView {
    FileSourceView {
        specifier: "ext:"@ + name + "/"@ + file.specifier,
        code: file.code,
    }
}

/// The files as an extension has them.
pub open spec fn all_remapped(name: Seq<char>, files: Seq<FileSourceView>) -> Seq<FileSourceView> {
    files.map_values(|f: FileSourceView| remapped(name, f))
}

/// The specifier of a file in a directory, if one is given.
pub open spec fn in_directory(dir: Option<Seq<char>>, file: Seq<char>) -> Seq<char> {
    match dir {
        Some(dir) => dir + "/"@ + file,
        None => file,
    }
}

/// An op: a function that scripts can call.
#[derive(Debug)]
pub struct OpDecl<H> {
    pub name: &'static str,
    pub v8_fn_ptr: H,
    pub enabled: bool,
    pub is_async: bool,
    pub is_unstable: bool,
    pub is_v8: bool,
    pub fast_fn: Option<H>,
}

impl<H> OpDecl<H> {
    pub fn enabled(self, enabled: bool) -> (r: OpDecl<H>)
        ensures
            r == (OpDecl { enabled, ..self }),
    {
        OpDecl {
            name: self.name,
            v8_fn_ptr: self.v8_fn_ptr,
            enabled,
            is_async: self.is_async,
            is_unstable: self.is_unstable,
            is_v8: self.is_v8,
            fast_fn: self.fast_fn,
        }
    }

    pub fn disable(self) -> (r: OpDecl<H>)
        ensures
            r == (OpDecl { enabled: false, ..self }),
    {
        self.enabled(false)
    }
}

/// The ops as they are registered: those of a disabled extension are disabled.
pub open spec fn registered<H>(ops: Seq<OpDecl<H>>, enabled: bool) -> Seq<OpDecl<H>> {
    ops.map_values(|op: OpDecl<H>| OpDecl { enabled: enabled && op.enabled, ..op })
}

#[derive(Debug)]
pub struct Extension<H> {
    pub js_files: Option<Vec<ExtensionFileSource>>,
    pub esm_files: Option<Vec<ExtensionFileSource>>,
    pub esm_entry_point: Option<&'static str>,
    pub ops: Option<Vec<OpDecl<H>>>,
    pub opstate_fn: Option<H>,
    pub middleware_fn: Option<H>,
    pub event_loop_middleware: Option<H>,
    pub initialized: bool,
    pub enabled: bool,
    pub name: &'static str,
    pub deps: Option<Vec<&'static str>>,
}

/// An extension with the name is among the loaded ones.
pub open spec fn is_loaded<H>(previous_exts: Seq<Extension<H>>, name: Seq<char>) -> bool {
    exists|i: int| 0 <= i < previous_exts.len() && (#[trigger] previous_exts[i]).name@ == name
}

/// What is wrong with a dependency of the extension with the given name, if anything.
pub open spec fn dependency_error<H>(
    name: Seq<char>,
    dep: Seq<char>,
    previous_exts: Seq<Extension<H>>,
) -> Option<Seq<char>> {
    if dep == name {
        Some(
            "Extension '"@ + name
                + "' is either depending on itself or there is another extension with the same name"@,
        )
    } else if !is_loaded(previous_exts, dep) {
        Some("Extension '"@ + name + "' is missing dependency '"@ + dep + "'"@)
    } else {
        None
    }
}

/// What is wrong with the first of the dependencies, from the one at `from` on, that something is
/// wrong with.
pub open spec fn dependencies_error<H>(
    name: Seq<char>,
    deps: Seq<&'static str>,
    previous_exts: Seq<Extension<H>>,
    from: int,
) -> Option<Seq<char>>
    decreases deps.len() - from,
{
    if from < 0 || from >= deps.len() {
        None
    } else {
        match dependency_error(name, deps[from]@, previous_exts) {
            Some(message) => Some(message),
            None => dependencies_error(name, deps, previous_exts, from + 1),
        }
    }
}

impl<H> Extension<H> {
    pub fn builder(name: &'static str) -> (r: ExtensionBuilder<H>)
        ensures
            r.is_empty_named(name@, Seq::<&'static str>::empty()),
    {
        Self::builder_with_deps(name, Vec::new())
    }

    pub fn builder_with_deps(name: &'static str, deps: Vec<&'static str>) -> (r: ExtensionBuilder<
        H,
    >)
        ensures
            r.is_empty_named(name@, deps@),
    {
        ExtensionBuilder {
            js: Vec::new(),
            esm: Vec::new(),
            esm_entry_point: None,
            ops: Vec::new(),
            state: None,
            middleware: None,
            event_loop_middleware: None,
            name,
            deps,
        }
    }

    /// Check if dependencies have been loaded, and errors if either:
    /// - The extension is depending on itself or an extension with the same name.
    /// - A dependency hasn't been loaded yet.
    pub fn check_dependencies(&self, previous_exts: &Vec<Extension<H>>) -> (r: Result<(), AnyError>)
        ensures
            match self.deps {
                Some(deps) => match dependencies_error(self.name@, deps@, previous_exts@, 0) {
                    Some(message) => r matches Err(e) && e@ == seq![message],
                    None => r is Ok,
                },
                None => r is Ok,
            },
    {
        if let Some(deps) = &self.deps {
            let mut i: usize = 0;
            while i < deps.len()
                invariant
                    i <= deps.len(),
                    self.deps == Some(*deps),
                    dependencies_error(self.name@, deps@, previous_exts@, 0) == dependencies_error(
                        self.name@,
                        deps@,
                        previous_exts@,
                        i as int,
                    ),
                decreases deps.len() - i,
            {
                let dep = deps[i];
                if str_eq(dep, self.name) {
                    let mut message: String = "Extension '".to_owned();
                    message.append(self.name);
                    message.append(
                        "' is either depending on itself or there is another extension with the same name",
                    );
                    return Err(AnyError::new(message));
                }
                if !is_loaded_by_name(previous_exts, dep) {
                    let mut message: String = "Extension '".to_owned();
                    message.append(self.name);
                    message.append("' is missing dependency '");
                    message.append(dep);
                    message.append("'");
                    return Err(AnyError::new(message));
                }
                i += 1;
            }
        }
        Ok(())
    }

    /// returns JS source code to be loaded into the isolate (either at snapshotting, or at
    /// startup), as a vector of the file name and the source code.
    pub fn get_js_sources(&self) -> (r: Option<&Vec<ExtensionFileSource>>)
        ensures
            r == (match self.js_files {
                Some(ref files) => Some(files),
                None => None,
            }),
    {
        self.js_files.as_ref()
    }

    pub fn get_esm_sources(&self) -> (r: Option<&Vec<ExtensionFileSource>>)
        ensures
            r == (match self.esm_files {
                Some(ref files) => Some(files),
                None => None,
            }),
    {
        self.esm_files.as_ref()
    }

    pub fn get_esm_entry_point(&self) -> (r: Option<&'static str>)
        ensures
            r == self.esm_entry_point,
    {
        self.esm_entry_point
    }

    /// Called at JsRuntime startup to initialize ops in the isolate: the ops, which the extension
    /// hands out once.
    pub fn init_ops(&mut self) -> (r: Option<Vec<OpDecl<H>>>)
        requires
            !old(self).initialized,
        ensures
            *final(self) == (Extension { initialized: true, ops: None, ..*old(self) }),
            match old(self).ops {
                Some(ops) => r matches Some(given) && given@ == registered(
                    ops@,
                    old(self).enabled,
                ),
                None => r is None,
            },
    {
        self.initialized = true;
        let mut ops = match self.ops.take() {
            Some(ops) => ops,
            None => {
                return None;
            },
        };
        let ghost before = ops@;
        let enabled = self.enabled;
        let mut i: usize = 0;
        while i < ops.len()
            invariant
                i <= ops.len(),
                ops@.len() == before.len(),
                enabled == old(self).enabled,
                *self == (Extension { initialized: true, ops: None, ..*old(self) }),
                forall|k: int|
                    0 <= k < i ==> #[trigger] ops@[k] == (OpDecl {
                        enabled: enabled && before[k].enabled,
                        ..before[k]
                    }),
                forall|k: int| i <= k < ops@.len() ==> #[trigger] ops@[k] == before[k],
            decreases ops.len() - i,
        {
            let op_enabled = enabled && ops[i].enabled;
            ops[i].enabled = op_enabled;
            i += 1;
        }
        assert(ops@ =~= registered(before, enabled));
        Some(ops)
    }

    /// The function that sets up the initial op-state of an isolate at startup, if there is one.
    pub fn init_state(&self) -> (r: Option<&H>)
        ensures
            r == (match self.opstate_fn {
                Some(ref f) => Some(f),
                None => None,
            }),
    {
        self.opstate_fn.as_ref()
    }

    /// init_middleware lets us middleware op registrations, it's called before init_ops
    pub fn init_middleware(&mut self) -> (r: Option<H>)
        ensures
            r == old(self).middleware_fn,
            *final(self) == (Extension { middleware_fn: None, ..*old(self) }),
    {
        self.middleware_fn.take()
    }

    pub fn init_event_loop_middleware(&mut self) -> (r: Option<H>)
        ensures
            r == old(self).event_loop_middleware,
            *final(self) == (Extension { event_loop_middleware: None, ..*old(self) }),
    {
        self.event_loop_middleware.take()
    }

    /// What the middleware answers when it is called; `false` where there is none.
    pub fn run_event_loop_middleware<F: FnOnce(&H) -> bool>(&self, call: F) -> (r: bool)
        requires
            self.event_loop_middleware matches Some(f) ==> call_requires(call, (&f,)),
        ensures
            match self.event_loop_middleware {
                Some(f) => call_ensures(call, (&f,), r),
                None => !r,
            },
    {
        match &self.event_loop_middleware {
            Some(f) => call(f),
            None => false,
        }
    }

    pub fn enabled(self, enabled: bool) -> (r: Extension<H>)
        ensures
            r == (Extension { enabled, ..self }),
    {
        let mut ext = self;
        ext.enabled = enabled;
        ext
    }

    pub fn disable(self) -> (r: Extension<H>)
        ensures
            r == (Extension { enabled: false, ..self }),
    {
        self.enabled(false)
    }
}

fn is_loaded_by_name<H>(previous_exts: &Vec<Extension<H>>, name: &str) -> (r: bool)
    ensures
        r == is_loaded(previous_exts@, name@),
{
    let mut i: usize = 0;
    while i < previous_exts.len()
        invariant
            i <= previous_exts.len(),
            forall|k: int| 0 <= k < i ==> (#[trigger] previous_exts@[k]).name@ != name@,
        decreases previous_exts.len() - i,
    {
        if str_eq(previous_exts[i].name, name) {
            return true;
        }
        i += 1;
    }
    false
}

/// Provides a convenient builder pattern to declare Extensions
#[derive(Debug)]
pub struct ExtensionBuilder<H> {
    pub js: Vec<ExtensionFileSource>,
    pub esm: Vec<ExtensionFileSource>,
    pub esm_entry_point: Option<&'static str>,
    pub ops: Vec<OpDecl<H>>,
    pub state: Option<H>,
    pub middleware: Option<H>,
    pub event_loop_middleware: Option<H>,
    pub name: &'static str,
    pub deps: Vec<&'static str>,
}

impl<H> ExtensionBuilder<H> {
    /// Nothing but the name and the dependencies is set.
    pub open spec fn is_empty_named(self, name: Seq<char>, deps: Seq<&'static str>) -> bool {
        &&& self.js@.len() == 0
        &&& self.esm@.len() == 0
        &&& self.esm_entry_point is None
        &&& self.ops@.len() == 0
        &&& self.state is None
        &&& self.middleware is None
        &&& self.event_loop_middleware is None
        &&& self.name@ == name
        &&& self.deps@ == deps
    }

    /// Adds JS files, under the name of the extension.
    pub fn js(&mut self, js_files: Vec<ExtensionFileSource>) -> (r: &mut ExtensionBuilder<H>)
        ensures
            *final(self) == *final(r),
            *r == (ExtensionBuilder { js: r.js, ..*old(self) }),
            file_views(r.js@) == file_views(old(self).js@) + all_remapped(
                old(self).name@,
                file_views(js_files@),
            ),
    {
        push_remapped(self.name, js_files, &mut self.js);
        self
    }

    /// Adds ES modules, under the name of the extension.
    pub fn esm(&mut self, esm_files: Vec<ExtensionFileSource>) -> (r: &mut ExtensionBuilder<H>)
        ensures
            *final(self) == *final(r),
            *r == (ExtensionBuilder { esm: r.esm, ..*old(self) }),
            file_views(r.esm@) == file_views(old(self).esm@) + all_remapped(
                old(self).name@,
                file_views(esm_files@),
            ),
    {
        push_remapped(self.name, esm_files, &mut self.esm);
        self
    }

    pub fn esm_entry_point(&mut self, entry_point: &'static str) -> (r: &mut ExtensionBuilder<H>)
        ensures
            *final(self) == *final(r),
            *r == (ExtensionBuilder { esm_entry_point: Some(entry_point), ..*old(self) }),
    {
        self.esm_entry_point = Some(entry_point);
        self
    }

    /// Adds ops.
    pub fn ops(&mut self, ops: Vec<OpDecl<H>>) -> (r: &mut ExtensionBuilder<H>)
        ensures
            *final(self) == *final(r),
            *r == (ExtensionBuilder { ops: r.ops, ..*old(self) }),
            r.ops@ == old(self).ops@ + ops@,
    {
        let mut ops = ops;
        self.ops.append(&mut ops);
        self
    }

    pub fn state(&mut self, opstate_fn: H) -> (r: &mut ExtensionBuilder<H>)
        ensures
            *final(self) == *final(r),
            *r == (ExtensionBuilder { state: Some(opstate_fn), ..*old(self) }),
    {
        self.state = Some(opstate_fn);
        self
    }

    pub fn middleware(&mut self, middleware_fn: H) -> (r: &mut ExtensionBuilder<H>)
        ensures
            *final(self) == *final(r),
            *r == (ExtensionBuilder { middleware: Some(middleware_fn), ..*old(self) }),
    {
        self.middleware = Some(middleware_fn);
        self
    }

    pub fn event_loop_middleware(&mut self, middleware_fn: H) -> (r: &mut ExtensionBuilder<H>)
        ensures
            *final(self) == *final(r),
            *r == (ExtensionBuilder { event_loop_middleware: Some(middleware_fn), ..*old(self) }),
    {
        self.event_loop_middleware = Some(middleware_fn);
        self
    }

    /// The extension, with everything that was added. The builder keeps nothing but the name.
    pub fn build(&mut self) -> (r: Extension<H>)
        ensures
            final(self).is_empty_named(old(self).name@, Seq::<&'static str>::empty()),
            r.js_files == Some(old(self).js),
            r.esm_files == Some(old(self).esm),
            r.esm_entry_point == old(self).esm_entry_point,
            r.ops == Some(old(self).ops),
            r.opstate_fn == old(self).state,
            r.middleware_fn == old(self).middleware,
            r.event_loop_middleware == old(self).event_loop_middleware,
            !r.initialized,
            r.enabled,
            r.name == old(self).name,
            r.deps == Some(old(self).deps),
    {
        let mut js: Vec<ExtensionFileSource> = Vec::new();
        let mut esm: Vec<ExtensionFileSource> = Vec::new();
        let mut ops: Vec<OpDecl<H>> = Vec::new();
        let mut deps: Vec<&'static str> = Vec::new();
        std::mem::swap(&mut js, &mut self.js);
        std::mem::swap(&mut esm, &mut self.esm);
        std::mem::swap(&mut ops, &mut self.ops);
        std::mem::swap(&mut deps, &mut self.deps);
        Extension {
            js_files: Some(js),
            esm_files: Some(esm),
            esm_entry_point: self.esm_entry_point.take(),
            ops: Some(ops),
            opstate_fn: self.state.take(),
            middleware_fn: self.middleware.take(),
            event_loop_middleware: self.event_loop_middleware.take(),
            initialized: false,
            enabled: true,
            name: self.name,
            deps: Some(deps),
        }
    }
}

fn push_remapped(
    name: &str,
    files: Vec<ExtensionFileSource>,
    target: &mut Vec<ExtensionFileSource>,
)
    ensures
        file_views(final(target)@) == file_views(old(target)@) + all_remapped(
            name@,
            file_views(files@),
        ),
{
    let ghost before = file_views(target@);
    let ghost all = all_remapped(name@, file_views(files@));
    let ghost given = files@;
    let mut rest = files;
    assert(before + all.take(0) =~= before);
    assert(rest@ =~= given.skip(0));
    let ghost mut done: int = 0;
    while rest.len() > 0
        invariant
            0 <= done <= given.len(),
            rest@ == given.skip(done),
            all == all_remapped(name@, file_views(given)),
            file_views(target@) == before + all.take(done),
        decreases rest.len(),
    {
        let file = rest.remove(0);
        let mut specifier: String = "ext:".to_owned();
        specifier.append(name);
        specifier.append("/");
        specifier.append(file.specifier.as_str());
        let ghost current = target@;
        target.push(ExtensionFileSource { specifier, code: file.code });
        proof {
            assert(file_views(target@) =~= file_views(current).push(target@.last()@));
            assert(all[done] == remapped(name@, given[done]@));
            assert(target@.last()@ == all[done]);
            assert(before + all.take(done + 1) =~= (before + all.take(done)).push(all[done]));
            done = done + 1;
        }
    }
    assert(all.take(done) =~= all);
}

/// Helps embed JS files in an extension: the files, under their names within the directory, if one
/// is given.
pub fn include_js_files(dir: Option<&str>, files: Vec<ExtensionFileSource>) -> (r: Vec<
    ExtensionFileSource,
>)
    ensures
        file_views(r@) == file_views(files@).map_values(
            |f: FileSourceView|
                FileSourceView {
                    specifier: in_directory(
                        match dir {
                            Some(d) => Some(d@),
                            None => None,
                        },
                        f.specifier,
                    ),
                    code: f.code,
                },
        ),
{
    let dir = match dir {
        Some(dir) => dir,
        None => {
            assert(file_views(files@).map_values(
                |f: FileSourceView|
                    FileSourceView {
                        specifier: in_directory(None::<Seq<char>>, f.specifier),
                        code: f.code,
                    },
            ) =~= file_views(files@));
            return files;
        },
    };
    let ghost given = files@;
    let mut r: Vec<ExtensionFileSource> = Vec::new();
    let mut rest = files;
    let ghost mut done: int = 0;
    assert(rest@ =~= given.skip(0));
    while rest.len() > 0
        invariant
            0 <= done <= given.len(),
            rest@ == given.skip(done),
            r@.len() == done,
            forall|i: int|
                0 <= i < done ==> (#[trigger] r@[i])@ == (FileSourceView {
                    specifier: in_directory(Some(dir@), given[i].specifier@),
                    code: given[i].code,
                }),
        decreases rest.len(),
    {
        let file = rest.remove(0);
        let mut specifier: String = dir.to_owned();
        specifier.append("/");
        specifier.append(file.specifier.as_str());
        r.push(ExtensionFileSource { specifier, code: file.code });
        proof {
            done = done + 1;
        }
    }
    r
}

/// Everything that an extension can be declared with, but for what customizes its builder: that is
/// done between [`ExtensionDeclaration::ops_and_esm_builder`] or its like and
/// [`ExtensionBuilder::build`].
#[derive(Debug)]
pub struct ExtensionDeclaration<H> {
    pub name: &'static str,
    pub deps: Vec<&'static str>,
    pub ops: Vec<OpDecl<H>>,
    pub esm_entry_point: Option<&'static str>,
    pub esm: Vec<ExtensionFileSource>,
    pub esm_setup_script: Option<&'static str>,
    pub js: Vec<ExtensionFileSource>,
    pub state: Option<H>,
    pub middleware: Option<H>,
    pub event_loop_middleware: Option<H>,
}

/// The setup script as a file of an extension.
pub open spec fn setup_files(script: Option<&'static str>) -> Seq<FileSourceView> {
    match script {
        Some(script) => seq![
            FileSourceView {
                specifier: "ext:setup"@,
                code: ExtensionFileSourceCode::IncludedInBinary(script),
            },
        ],
        None => Seq::empty(),
    }
}

impl<H> ExtensionDeclaration<H> {
    /// The extension has the files of the declaration: its modules, behind them its setup script,
    /// and its JS files.
    pub open spec fn has_js(self, ext: Extension<H>) -> bool {
        &&& ext.esm_files matches Some(files) && file_views(files@) == all_remapped(
            self.name@,
            file_views(self.esm@) + setup_files(self.esm_setup_script),
        )
        &&& ext.js_files matches Some(files) && file_views(files@) == all_remapped(
            self.name@,
            file_views(self.js@),
        )
        &&& ext.esm_entry_point == self.esm_entry_point
    }

    /// The extension has no files.
    pub open spec fn has_no_js(self, ext: Extension<H>) -> bool {
        &&& ext.esm_files matches Some(files) && files@.len() == 0
        &&& ext.js_files matches Some(files) && files@.len() == 0
        &&& ext.esm_entry_point is None
    }

    /// The extension has the functions of the declaration that are no ops.
    pub open spec fn has_state_and_middleware(self, ext: Extension<H>) -> bool {
        &&& ext.opstate_fn == self.state
        &&& ext.middleware_fn == self.middleware
        &&& ext.event_loop_middleware == self.event_loop_middleware
    }

    /// The extension has the name, the dependencies and the ops of the declaration, is enabled, and
    /// is not initialized.
    pub open spec fn has_ops(self, ext: Extension<H>) -> bool {
        &&& ext.name@ == self.name@
        &&& ext.deps matches Some(deps) && deps@ == self.deps@
        &&& ext.ops matches Some(ops) && ops@ == self.ops@
        &&& ext.enabled
        &&& !ext.initialized
    }

    /// The builder has the files of the declaration: its modules, behind them its setup script, and
    /// its JS files.
    pub open spec fn adds_js(self, ext: ExtensionBuilder<H>) -> bool {
        &&& file_views(ext.esm@) == all_remapped(
            self.name@,
            file_views(self.esm@) + setup_files(self.esm_setup_script),
        )
        &&& file_views(ext.js@) == all_remapped(self.name@, file_views(self.js@))
        &&& ext.esm_entry_point == self.esm_entry_point
    }

    /// The builder has no files.
    pub open spec fn adds_no_js(self, ext: ExtensionBuilder<H>) -> bool {
        &&& ext.esm@.len() == 0
        &&& ext.js@.len() == 0
        &&& ext.esm_entry_point is None
    }

    /// The builder has the functions of the declaration that are no ops.
    pub open spec fn adds_state_and_middleware(self, ext: ExtensionBuilder<H>) -> bool {
        &&& ext.state == self.state
        &&& ext.middleware == self.middleware
        &&& ext.event_loop_middleware == self.event_loop_middleware
    }

    /// The builder has the name, the dependencies and the ops of the declaration.
    pub open spec fn adds_ops(self, ext: ExtensionBuilder<H>) -> bool {
        &&& ext.name@ == self.name@
        &&& ext.deps@ == self.deps@
        &&& ext.ops@ == self.ops@
    }

    /// A builder for the extension with its files and its ops only, which can be customized before the
    /// extension is built.
    pub fn js_only_builder(self) -> (r: ExtensionBuilder<H>)
        ensures
            self.adds_ops(r),
            self.adds_js(r),
            r.state is None,
            r.middleware is None,
            r.event_loop_middleware is None,
    {
        let mut ext = Extension::builder_with_deps(self.name, self.deps);
        add_js(&mut ext, self.esm, self.esm_setup_script, self.esm_entry_point, self.js);
        ext.ops(self.ops);
        assert(ext.ops@ =~= self.ops@);
        ext
    }

    /// A builder for the extension with everything that was declared, which can be customized before
    /// the extension is built.
    pub fn ops_and_esm_builder(self) -> (r: ExtensionBuilder<H>)
        ensures
            self.adds_ops(r),
            self.adds_js(r),
            self.adds_state_and_middleware(r),
    {
        let mut ext = Extension::builder_with_deps(self.name, self.deps);
        add_js(&mut ext, self.esm, self.esm_setup_script, self.esm_entry_point, self.js);
        ext.ops(self.ops);
        assert(ext.ops@ =~= self.ops@);
        ext.state = self.state;
        ext.event_loop_middleware = self.event_loop_middleware;
        ext.middleware = self.middleware;
        ext
    }

    /// A builder for the extension without its files, which can be customized before the extension is
    /// built.
    pub fn ops_builder(self) -> (r: ExtensionBuilder<H>)
        ensures
            self.adds_ops(r),
            self.adds_no_js(r),
            self.adds_state_and_middleware(r),
    {
        let mut ext = Extension::builder_with_deps(self.name, self.deps);
        ext.ops(self.ops);
        assert(ext.ops@ =~= self.ops@);
        ext.state = self.state;
        ext.event_loop_middleware = self.event_loop_middleware;
        ext.middleware = self.middleware;
        ext
    }

    /// The extension with its files and its ops only.
    pub fn init_js_only(self) -> (r: Extension<H>)
        ensures
            self.has_ops(r),
            self.has_js(r),
            r.opstate_fn is None,
            r.middleware_fn is None,
            r.event_loop_middleware is None,
    {
        self.js_only_builder().build()
    }

    /// The extension with everything that was declared.
    pub fn init_ops_and_esm(self) -> (r: Extension<H>)
        ensures
            self.has_ops(r),
            self.has_js(r),
            self.has_state_and_middleware(r),
    {
        self.ops_and_esm_builder().build()
    }

    /// The extension without its files.
    pub fn init_ops(self) -> (r: Extension<H>)
        ensures
            self.has_ops(r),
            self.has_no_js(r),
            self.has_state_and_middleware(r),
    {
        self.ops_builder().build()
    }
}

/// Adds files to an extension that has none.
fn add_js<H>(
    ext: &mut ExtensionBuilder<H>,
    esm: Vec<ExtensionFileSource>,
    esm_setup_script: Option<&'static str>,
    esm_entry_point: Option<&'static str>,
    js: Vec<ExtensionFileSource>,
)
    requires
        old(ext).esm@.len() == 0,
        old(ext).js@.len() == 0,
        old(ext).esm_entry_point is None,
    ensures
        file_views(final(ext).esm@) == all_remapped(
            old(ext).name@,
            file_views(esm@) + setup_files(esm_setup_script),
        ),
        file_views(final(ext).js@) == all_remapped(old(ext).name@, file_views(js@)),
        final(ext).esm_entry_point == esm_entry_point,
        *final(ext) == (ExtensionBuilder {
            esm: final(ext).esm,
            js: final(ext).js,
            esm_entry_point,
            ..*old(ext)
        }),
{
    let ghost name = ext.name@;
    let ghost esm_views = file_views(esm@);
    let ghost js_views = file_views(js@);
    assert(file_views(ext.esm@) =~= Seq::empty());
    assert(file_views(ext.js@) =~= Seq::empty());
    ext.esm(esm);
    if let Some(script) = esm_setup_script {
        let mut setup: Vec<ExtensionFileSource> = Vec::new();
        setup.push(
            ExtensionFileSource {
                specifier: "ext:setup".to_owned(),
                code: ExtensionFileSourceCode::IncludedInBinary(script),
            },
        );
        assert(file_views(setup@) =~= setup_files(esm_setup_script));
        ext.esm(setup);
    }
    proof {
        let all = esm_views + setup_files(esm_setup_script);
        assert(file_views(ext.esm@) =~= all_remapped(name, all));
    }
    if let Some(entry_point) = esm_entry_point {
        ext.esm_entry_point(entry_point);
    }
    ext.js(js);
    assert(file_views(ext.js@) =~= all_remapped(name, js_views));
}

proof fn no_error_from<H>(
    name: Seq<char>,
    deps: Seq<&'static str>,
    previous_exts: Seq<Extension<H>>,
    from: int,
)
    requires
        0 <= from,
    ensures
        dependencies_error(name, deps, previous_exts, from) is None <==> forall|i: int|
            from <= i < deps.len() ==> {
                &&& #[trigger] deps[i]@ != name
                &&& is_loaded(previous_exts, deps[i]@)
            },
    decreases deps.len() - from,
{
    if from < deps.len() {
        no_error_from(name, deps, previous_exts, from + 1);
        let from_next = dependencies_error(name, deps, previous_exts, from + 1);
        if dependencies_error(name, deps, previous_exts, from) is None {
            assert forall|i: int| from <= i < deps.len() implies #[trigger] deps[i]@ != name
                && is_loaded(previous_exts, deps[i]@) by {
                if i > from {
                    assert(deps[i]@ != name && is_loaded(previous_exts, deps[i]@));
                }
            }
        } else if dependency_error(name, deps[from]@, previous_exts) is Some {
            assert(!(deps[from]@ != name && is_loaded(previous_exts, deps[from]@)));
        }
    }
}

/// The dependencies are in order exactly where each of them is an extension of another name that
/// has been loaded before.
pub proof fn dependencies_in_order<H>(
    name: Seq<char>,
    deps: Seq<&'static str>,
    previous_exts: Seq<Extension<H>>,
)
    ensures
        dependencies_error(name, deps, previous_exts, 0) is None <==> forall|i: int|
            0 <= i < deps.len() ==> {
                &&& #[trigger] deps[i]@ != name
                &&& is_loaded(previous_exts, deps[i]@)
            },
{
    no_error_from(name, deps, previous_exts, 0);
}

/// An op of a disabled extension is registered as disabled; one of an enabled extension as it was
/// declared.
pub proof fn registration_follows_the_extension<H>(ops: Seq<OpDecl<H>>, enabled: bool, i: int)
    requires
        0 <= i < ops.len(),
    ensures
        registered(ops, enabled).len() == ops.len(),
        registered(ops, enabled)[i].enabled == (enabled && ops[i].enabled),
        enabled ==> registered(ops, enabled)[i] == ops[i],
{
}

/// The dependencies of an extension are looked at one after another, and the first one that is the
/// extension itself or that has not been loaded is the one that the error names; where there is none,
/// there is no error.
pub proof fn first_wrong_dependency_is_named<H>(
    extension: &Extension<H>,
    previous_exts: &Vec<Extension<H>>,
    r: Result<(), AnyError>,
    i: int,
)
    requires
        call_ensures(Extension::<H>::check_dependencies, (extension, previous_exts), r),
        extension.deps matches Some(deps) && 0 <= i <= deps@.len() && forall|k: int|
            0 <= k < i ==> (#[trigger] deps@[k])@ != extension.name@ && exists|j: int|
                0 <= j < previous_exts@.len() && (#[trigger] previous_exts@[j]).name@
                    == deps@[k]@,
    ensures
        ({
            let deps = extension.deps->Some_0@;
            &&& i == deps.len() ==> r is Ok
            &&& i < deps.len() && deps[i]@ == extension.name@ ==> (r matches Err(e) && e@ == seq![
                "Extension '"@ + extension.name@
                    + "' is either depending on itself or there is another extension with the same name"@,
            ])
            &&& i < deps.len() && deps[i]@ != extension.name@ && (forall|j: int|
                0 <= j < previous_exts@.len() ==> (#[trigger] previous_exts@[j]).name@ != deps[i]@)
                ==> (r matches Err(e) && e@ == seq![
                "Extension '"@ + extension.name@ + "' is missing dependency '"@ + deps[i]@ + "'"@,
            ])
        }),
{
    let deps = extension.deps->Some_0@;
    no_error_before(extension.name@, deps, previous_exts@, i);
}

proof fn no_error_before<H>(
    name: Seq<char>,
    deps: Seq<&'static str>,
    previous_exts: Seq<Extension<H>>,
    i: int,
)
    requires
        0 <= i <= deps.len(),
        forall|k: int|
            0 <= k < i ==> (#[trigger] deps[k])@ != name && exists|j: int|
                0 <= j < previous_exts.len() && (#[trigger] previous_exts[j]).name@ == deps[k]@,
    ensures
        dependencies_error(name, deps, previous_exts, 0) == dependencies_error(
            name,
            deps,
            previous_exts,
            i,
        ),
    decreases i,
{
    if i > 0 {
        no_error_before(name, deps, previous_exts, i - 1);
        assert(deps[i - 1]@ != name);
        let j = choose|j: int|
            0 <= j < previous_exts.len() && (#[trigger] previous_exts[j]).name@ == deps[i - 1]@;
        assert(is_loaded(previous_exts, deps[i - 1]@));
    }
}

/// An extension without dependencies is always in order.
pub proof fn no_dependencies_are_in_order<H>(
    extension: &Extension<H>,
    previous_exts: &Vec<Extension<H>>,
    r: Result<(), AnyError>,
)
    requires
        call_ensures(Extension::<H>::check_dependencies, (extension, previous_exts), r),
        extension.deps is None,
    ensures
        r is Ok,
{
}

/// The files of an extension are those that were declared, in their order, each with its code and under
/// the name of the extension. The setup script is the last of the modules.
pub proof fn declared_files_are_kept<H>(declared: ExtensionDeclaration<H>, r: Extension<H>, i: int)
    requires
        call_ensures(ExtensionDeclaration::<H>::init_ops_and_esm, (declared,), r),
    ensures
        r.name@ == declared.name@,
        r.esm_entry_point == declared.esm_entry_point,
        r.deps matches Some(deps) && deps@ == declared.deps@,
        r.ops matches Some(ops) && ops@ == declared.ops@,
        r.opstate_fn == declared.state,
        r.middleware_fn == declared.middleware,
        r.event_loop_middleware == declared.event_loop_middleware,
        r.enabled,
        !r.initialized,
        r.esm_files matches Some(files) && {
            &&& files@.len() == declared.esm@.len() + (if declared.esm_setup_script is Some {
                1int
            } else {
                0int
            })
            &&& 0 <= i < declared.esm@.len() ==> files@[i].specifier@ == "ext:"@ + declared.name@
                + "/"@ + declared.esm@[i].specifier@ && files@[i].code == declared.esm@[i].code
            &&& declared.esm_setup_script matches Some(script) ==> {
                &&& files@.last().specifier@ == "ext:"@ + declared.name@ + "/"@ + "ext:setup"@
                &&& files@.last().code == ExtensionFileSourceCode::IncludedInBinary(script)
            }
        },
        r.js_files matches Some(files) && {
            &&& files@.len() == declared.js@.len()
            &&& 0 <= i < declared.js@.len() ==> files@[i].specifier@ == "ext:"@ + declared.name@
                + "/"@ + declared.js@[i].specifier@ && files@[i].code == declared.js@[i].code
        },
{
    let esm = r.esm_files->Some_0@;
    let js = r.js_files->Some_0@;
    let all = file_views(declared.esm@) + setup_files(declared.esm_setup_script);
    assert(file_views(esm).len() == all_remapped(declared.name@, all).len());
    assert(file_views(js).len() == all_remapped(declared.name@, file_views(declared.js@)).len());
    if 0 <= i < declared.esm@.len() {
        assert(file_views(esm)[i] == esm[i]@);
        assert(all_remapped(declared.name@, all)[i] == remapped(declared.name@, all[i]));
        assert(all[i] == declared.esm@[i]@);
    }
    if declared.esm_setup_script is Some {
        let last = esm.len() - 1;
        assert(file_views(esm)[last] == esm[last]@);
        assert(all_remapped(declared.name@, all)[last] == remapped(declared.name@, all[last]));
    }
    if 0 <= i < declared.js@.len() {
        assert(file_views(js)[i] == js[i]@);
        assert(all_remapped(declared.name@, file_views(declared.js@))[i] == remapped(
            declared.name@,
            declared.js@[i]@,
        ));
    }
}

/// An extension that is made without its files has its ops, its state and its middleware; one that is made
/// with its files only has its ops, but neither state nor middleware, and the same files as the whole
/// extension.
pub proof fn parts_of_a_declaration<H>(
    declared: ExtensionDeclaration<H>,
    ops_only: Extension<H>,
    js_only: Extension<H>,
    whole: Extension<H>,
)
    requires
        call_ensures(ExtensionDeclaration::<H>::init_ops, (declared,), ops_only),
        call_ensures(ExtensionDeclaration::<H>::init_js_only, (declared,), js_only),
        call_ensures(ExtensionDeclaration::<H>::init_ops_and_esm, (declared,), whole),
    ensures
        ops_only.esm_files matches Some(files) && files@.len() == 0,
        ops_only.js_files matches Some(files) && files@.len() == 0,
        ops_only.esm_entry_point is None,
        ops_only.opstate_fn == declared.state,
        ops_only.middleware_fn == declared.middleware,
        ops_only.event_loop_middleware == declared.event_loop_middleware,
        js_only.opstate_fn is None,
        js_only.middleware_fn is None,
        js_only.event_loop_middleware is None,
        js_only.esm_entry_point == declared.esm_entry_point,
        file_views(js_only.esm_files->Some_0@) == file_views(whole.esm_files->Some_0@),
        file_views(js_only.js_files->Some_0@) == file_views(whole.js_files->Some_0@),
        ops_only.ops->Some_0@ == declared.ops@,
        js_only.ops->Some_0@ == declared.ops@,
        ops_only.deps->Some_0@ == declared.deps@,
        js_only.deps->Some_0@ == declared.deps@,
{
}

/// The ops are handed out once, all of them and in order. Those of a disabled extension are handed out as
/// disabled, those of an enabled one as they were declared.
pub proof fn ops_are_handed_out_once<H>(
    extension: &mut Extension<H>,
    r: Option<Vec<OpDecl<H>>>,
    i: int,
)
    requires
        call_ensures(Extension::<H>::init_ops, (extension,), r),
    ensures
        final(extension).initialized,
        final(extension).ops is None,
        final(extension).name == old(extension).name,
        final(extension).deps == old(extension).deps,
        final(extension).enabled == old(extension).enabled,
        r is Some <==> old(extension).ops is Some,
        r matches Some(given) ==> {
            let ops = old(extension).ops->Some_0@;
            &&& given@.len() == ops.len()
            &&& 0 <= i < ops.len() ==> {
                &&& given@[i].name == ops[i].name
                &&& given@[i].v8_fn_ptr == ops[i].v8_fn_ptr
                &&& given@[i].is_async == ops[i].is_async
                &&& given@[i].enabled == (ops[i].enabled && old(extension).enabled)
            }
        },
{
}

/// A file is included under its name within the directory, if one is given, and with its code; all files
/// are, and in order.
pub proof fn files_are_included_under_their_directory(
    dir: Option<&str>,
    files: Vec<ExtensionFileSource>,
    r: Vec<ExtensionFileSource>,
    i: int,
)
    requires
        call_ensures(include_js_files, (dir, files), r),
        0 <= i < files@.len(),
    ensures
        r@.len() == files@.len(),
        r@[i].code == files@[i].code,
        dir is None ==> r@[i].specifier@ == files@[i].specifier@,
        dir matches Some(dir) ==> r@[i].specifier@ == dir@ + "/"@ + files@[i].specifier@,
{
    assert(file_views(r@).len() == file_views(files@).len());
    assert(file_views(r@)[i] == r@[i]@);
    assert(file_views(files@)[i] == files@[i]@);
}

/// Source code that is part of the binary is never read from a file; other source code is what its file
/// holds, and where the file cannot be read, the error names it.
pub proof fn included_source_is_not_read(
    code: &ExtensionFileSourceCode,
    read: Result<String, AnyError>,
    r: Result<String, AnyError>,
)
    requires
        call_ensures(ExtensionFileSourceCode::load, (code, read), r),
    ensures
        match code {
            ExtensionFileSourceCode::IncludedInBinary(text) => r matches Ok(loaded) && loaded@
                == text@,
            ExtensionFileSourceCode::LoadedFromFsDuringSnapshot(path) => {
                &&& r is Ok <==> read is Ok
                &&& r matches Ok(loaded) ==> loaded == read->Ok_0
                &&& r matches Err(e) ==> e@[0] == "Failed to read \""@ + path@ + "\""@ && e@.skip(1)
                    == read->Err_0@
            },
        },
{
    if let ExtensionFileSourceCode::LoadedFromFsDuringSnapshot(path) = code {
        if let Err(e) = r {
            let head = seq!["Failed to read \""@ + path@ + "\""@];
            assert((head + read->Err_0@).skip(1) =~= read->Err_0@);
        }
    }
}

/// Disabling changes nothing else.
pub proof fn disabling_changes_nothing_else<H>(
    op: OpDecl<H>,
    disabled_op: OpDecl<H>,
    extension: Extension<H>,
    disabled: Extension<H>,
    enabled_again: Extension<H>,
)
    requires
        call_ensures(OpDecl::<H>::disable, (op,), disabled_op),
        call_ensures(Extension::<H>::disable, (extension,), disabled),
        call_ensures(Extension::<H>::enabled, (disabled, extension.enabled), enabled_again),
    ensures
        !disabled_op.enabled,
        disabled_op.name == op.name,
        disabled_op.v8_fn_ptr == op.v8_fn_ptr,
        !disabled.enabled,
        enabled_again == extension,
{
}

/// Files that are added to a builder come behind those that it has, under the name of the extension and with
/// their code, and nothing else of the builder changes.
pub proof fn files_are_added_to_the_builder<H>(
    builder: &mut ExtensionBuilder<H>,
    after: &mut ExtensionBuilder<H>,
    files: Vec<ExtensionFileSource>,
    i: int,
)
    requires
        call_ensures(ExtensionBuilder::<H>::esm, (builder, files), after),
        0 <= i < files@.len(),
    ensures
        *final(builder) == *final(after),
        *old(after) == (ExtensionBuilder { esm: old(after).esm, ..*old(builder) }),
        old(after).esm@.len() == old(builder).esm@.len() + files@.len(),
        old(after).esm@[old(builder).esm@.len() + i].specifier@ == "ext:"@ + old(builder).name@
            + "/"@ + files@[i].specifier@,
        old(after).esm@[old(builder).esm@.len() + i].code == files@[i].code,
{
    let views = file_views(old(after).esm@);
    let before = file_views(old(builder).esm@);
    let added = all_remapped(old(builder).name@, file_views(files@));
    assert(views == before + added);
    assert(views.len() == old(after).esm@.len());
    let at = before.len() + i;
    assert(views[at] == added[i]);
    assert(views[at] == old(after).esm@[at]@);
    assert(file_views(files@)[i] == files@[i]@);
}

/// Scripts that are added to a builder come behind those that it has, in the same way.
pub proof fn scripts_are_added_to_the_builder<H>(
    builder: &mut ExtensionBuilder<H>,
    after: &mut ExtensionBuilder<H>,
    files: Vec<ExtensionFileSource>,
    i: int,
)
    requires
        call_ensures(ExtensionBuilder::<H>::js, (builder, files), after),
        0 <= i < files@.len(),
    ensures
        *final(builder) == *final(after),
        *old(after) == (ExtensionBuilder { js: old(after).js, ..*old(builder) }),
        old(after).js@.len() == old(builder).js@.len() + files@.len(),
        old(after).js@[old(builder).js@.len() + i].specifier@ == "ext:"@ + old(builder).name@ + "/"@
            + files@[i].specifier@,
        old(after).js@[old(builder).js@.len() + i].code == files@[i].code,
{
    let views = file_views(old(after).js@);
    let before = file_views(old(builder).js@);
    let added = all_remapped(old(builder).name@, file_views(files@));
    assert(views == before + added);
    assert(views.len() == old(after).js@.len());
    let at = before.len() + i;
    assert(views[at] == added[i]);
    assert(views[at] == old(after).js@[at]@);
    assert(file_views(files@)[i] == files@[i]@);
}

/// Ops that are added to a builder come behind those that it has, as they are.
pub proof fn ops_are_added_to_the_builder<H>(
    builder: &mut ExtensionBuilder<H>,
    after: &mut ExtensionBuilder<H>,
    ops: Vec<OpDecl<H>>,
)
    requires
        call_ensures(ExtensionBuilder::<H>::ops, (builder, ops), after),
    ensures
        *final(builder) == *final(after),
        *old(after) == (ExtensionBuilder { ops: old(after).ops, ..*old(builder) }),
        old(after).ops@ == old(builder).ops@ + ops@,
{
}

/// The entry point, the state and the middlewares of a builder are those that were set, and setting one of
/// them changes nothing else.
pub proof fn functions_are_set_on_the_builder<H>(
    a: &mut ExtensionBuilder<H>,
    after_a: &mut ExtensionBuilder<H>,
    b: &mut ExtensionBuilder<H>,
    after_b: &mut ExtensionBuilder<H>,
    c: &mut ExtensionBuilder<H>,
    after_c: &mut ExtensionBuilder<H>,
    d: &mut ExtensionBuilder<H>,
    after_d: &mut ExtensionBuilder<H>,
    entry_point: &'static str,
    f: H,
)
    requires
        call_ensures(ExtensionBuilder::<H>::esm_entry_point, (a, entry_point), after_a),
        call_ensures(ExtensionBuilder::<H>::state, (b, f), after_b),
        call_ensures(ExtensionBuilder::<H>::middleware, (c, f), after_c),
        call_ensures(ExtensionBuilder::<H>::event_loop_middleware, (d, f), after_d),
    ensures
        *old(after_a) == (ExtensionBuilder { esm_entry_point: Some(entry_point), ..*old(a) }),
        *old(after_b) == (ExtensionBuilder { state: Some(f), ..*old(b) }),
        *old(after_c) == (ExtensionBuilder { middleware: Some(f), ..*old(c) }),
        *old(after_d) == (ExtensionBuilder { event_loop_middleware: Some(f), ..*old(d) }),
{
}

/// An extension is built of everything that its builder has, is enabled, and has not handed out its ops. The
/// builder keeps its name only.
pub proof fn extension_is_built_once<H>(builder: &mut ExtensionBuilder<H>, r: Extension<H>)
    requires
        call_ensures(ExtensionBuilder::<H>::build, (builder,), r),
    ensures
        r.name == old(builder).name,
        r.js_files == Some(old(builder).js),
        r.esm_files == Some(old(builder).esm),
        r.esm_entry_point == old(builder).esm_entry_point,
        r.ops == Some(old(builder).ops),
        r.deps == Some(old(builder).deps),
        r.opstate_fn == old(builder).state,
        r.middleware_fn == old(builder).middleware,
        r.event_loop_middleware == old(builder).event_loop_middleware,
        r.enabled,
        !r.initialized,
        final(builder).name@ == old(builder).name@,
        final(builder).js@.len() == 0,
        final(builder).esm@.len() == 0,
        final(builder).ops@.len() == 0,
        final(builder).deps@.len() == 0,
        final(builder).state is None,
        final(builder).middleware is None,
        final(builder).event_loop_middleware is None,
        final(builder).esm_entry_point is None,
{
}

/// The middlewares are handed out once, and the state and the files as often as they are asked for.
pub proof fn middleware_is_handed_out_once<H>(
    a: &mut Extension<H>,
    middleware: Option<H>,
    b: &mut Extension<H>,
    event_loop_middleware: Option<H>,
)
    requires
        call_ensures(Extension::<H>::init_middleware, (a,), middleware),
        call_ensures(Extension::<H>::init_event_loop_middleware, (b,), event_loop_middleware),
    ensures
        middleware == old(a).middleware_fn,
        final(a).middleware_fn is None,
        final(a).event_loop_middleware == old(a).event_loop_middleware,
        final(a).ops == old(a).ops,
        event_loop_middleware == old(b).event_loop_middleware,
        final(b).event_loop_middleware is None,
        final(b).middleware_fn == old(b).middleware_fn,
        final(b).ops == old(b).ops,
{
}

} // verus!
