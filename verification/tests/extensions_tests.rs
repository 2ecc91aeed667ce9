use deno_tools::extensions::{
    include_js_files, Extension, ExtensionDeclaration, ExtensionFileSource, ExtensionFileSourceCode,
    OpDecl,
};
use deno_tools::shared::AnyError;

type Function = u32;

fn file(specifier: &str) -> ExtensionFileSource {
    ExtensionFileSource {
        specifier: specifier.to_string(),
        code: ExtensionFileSourceCode::IncludedInBinary("code"),
    }
}

fn op(name: &'static str, enabled: bool) -> OpDecl<Function> {
    OpDecl {
        name,
        v8_fn_ptr: 1,
        enabled,
        is_async: false,
        is_unstable: false,
        is_v8: false,
        fast_fn: None,
    }
}

fn specifiers(files: &[ExtensionFileSource]) -> Vec<String> {
    files.iter().map(|f| f.specifier.clone()).collect()
}

#[test]
fn files_are_named_by_their_extension() {
    let mut builder = Extension::<Function>::builder("my_extension");
    builder
        .esm(include_js_files(None, vec![file("01_hello.js"), file("02_goodbye.js")]))
        .esm(include_js_files(Some("js"), vec![file("01_hello.js"), file("02_goodbye.js")]))
        .js(vec![file("a.js")])
        .esm_entry_point("ext:my_extension/01_hello.js");
    let ext = builder.build();
    assert_eq!(
        specifiers(ext.get_esm_sources().unwrap()),
        vec![
            "ext:my_extension/01_hello.js",
            "ext:my_extension/02_goodbye.js",
            "ext:my_extension/js/01_hello.js",
            "ext:my_extension/js/02_goodbye.js",
        ]
    );
    assert_eq!(specifiers(ext.get_js_sources().unwrap()), vec!["ext:my_extension/a.js"]);
    assert_eq!(ext.get_esm_entry_point(), Some("ext:my_extension/01_hello.js"));
}

#[test]
fn builder_gives_everything_away() {
    let mut builder = Extension::<Function>::builder_with_deps("a", vec!["b"]);
    builder.ops(vec![op("x", true)]).state(2).middleware(3).event_loop_middleware(4);
    let mut ext = builder.build();
    assert_eq!(ext.name, "a");
    assert_eq!(ext.deps, Some(vec!["b"]));
    assert!(ext.enabled);
    assert!(!ext.initialized);
    assert_eq!(ext.init_state(), Some(&2));
    assert_eq!(ext.init_middleware(), Some(3));
    assert_eq!(ext.init_middleware(), None);
    assert!(ext.run_event_loop_middleware(|f| *f == 4));
    assert_eq!(ext.init_event_loop_middleware(), Some(4));
    assert!(!ext.run_event_loop_middleware(|_| true));
    let again = builder.build();
    assert_eq!(again.name, "a");
    assert_eq!(again.deps, Some(vec![]));
    assert!(again.ops.unwrap().is_empty());
    assert!(again.opstate_fn.is_none());
}

#[test]
fn ops_of_a_disabled_extension_are_disabled() {
    let build = || {
        let mut builder = Extension::<Function>::builder("a");
        builder.ops(vec![op("x", true)]).ops(vec![op("y", true).disable(), op("z", false).enabled(true)]);
        builder.build()
    };
    let enabled = |ops: Vec<OpDecl<Function>>| {
        ops.iter().map(|op| (op.name, op.enabled)).collect::<Vec<_>>()
    };
    let mut ext = build();
    assert_eq!(
        enabled(ext.init_ops().unwrap()),
        vec![("x", true), ("y", false), ("z", true)]
    );
    assert!(ext.initialized);
    assert!(ext.ops.is_none());
    let mut ext = build().disable();
    assert_eq!(
        enabled(ext.init_ops().unwrap()),
        vec![("x", false), ("y", false), ("z", false)]
    );
    let mut ext = build().disable().enabled(true);
    ext.ops = None;
    assert!(ext.init_ops().is_none());
}

#[test]
fn dependencies_are_checked_in_order() {
    let ext = |name, deps| Extension::<Function>::builder_with_deps(name, deps).build();
    let loaded = vec![ext("a", vec![]), ext("b", vec![])];
    assert_eq!(ext("c", vec!["a", "b"]).check_dependencies(&loaded), Ok(()));
    assert_eq!(
        ext("c", vec!["a", "c", "d"]).check_dependencies(&loaded).unwrap_err().message,
        "Extension 'c' is either depending on itself or there is another extension with the same name"
    );
    assert_eq!(
        ext("c", vec!["d", "c"]).check_dependencies(&loaded).unwrap_err().message,
        "Extension 'c' is missing dependency 'd'"
    );
    let mut none = ext("c", vec!["d"]);
    none.deps = None;
    assert_eq!(none.check_dependencies(&loaded), Ok(()));
}

#[test]
fn code_is_loaded() {
    let failed = || Err(AnyError::new("No such file".to_string()));
    let inline = ExtensionFileSourceCode::IncludedInBinary("1 + 1");
    assert_eq!(inline.load(failed()), Ok("1 + 1".to_string()));
    let on_disk = ExtensionFileSourceCode::LoadedFromFsDuringSnapshot("/a.js".to_string());
    assert_eq!(on_disk.load(Ok("2".to_string())), Ok("2".to_string()));
    let e = on_disk.load(failed()).unwrap_err();
    assert_eq!(e.message, "Failed to read \"/a.js\"");
    assert_eq!(e.causes, vec!["No such file".to_string()]);
}

#[test]
fn declared_extension_is_built_in_three_ways() {
    let declare = || ExtensionDeclaration::<Function> {
        name: "a",
        deps: vec!["b"],
        ops: vec![op("x", true)],
        esm_entry_point: Some("ext:a/m.js"),
        esm: vec![file("m.js")],
        esm_setup_script: Some("setup()"),
        js: vec![file("n.js")],
        state: Some(1),
        middleware: Some(2),
        event_loop_middleware: Some(3),
    };
    let all = declare().init_ops_and_esm();
    assert_eq!(
        specifiers(all.get_esm_sources().unwrap()),
        vec!["ext:a/m.js", "ext:a/ext:setup"]
    );
    assert_eq!(
        all.get_esm_sources().unwrap()[1].code,
        ExtensionFileSourceCode::IncludedInBinary("setup()")
    );
    assert_eq!(specifiers(all.get_js_sources().unwrap()), vec!["ext:a/n.js"]);
    assert_eq!(all.get_esm_entry_point(), Some("ext:a/m.js"));
    assert_eq!(all.opstate_fn, Some(1));
    assert_eq!(all.middleware_fn, Some(2));
    assert_eq!(all.event_loop_middleware, Some(3));
    assert_eq!(all.deps, Some(vec!["b"]));

    let js_only = declare().init_js_only();
    assert_eq!(js_only.get_esm_sources().unwrap().len(), 2);
    assert_eq!(js_only.opstate_fn, None);
    assert_eq!(js_only.ops.unwrap().len(), 1);

    let ops = declare().init_ops();
    assert!(ops.get_esm_sources().unwrap().is_empty());
    assert!(ops.get_js_sources().unwrap().is_empty());
    assert_eq!(ops.get_esm_entry_point(), None);
    assert_eq!(ops.middleware_fn, Some(2));

    // what customizes an extension comes last
    let mut builder = declare().ops_and_esm_builder();
    assert_eq!(builder.state, Some(1));
    builder.state(4).esm_entry_point("ext:a/other.js");
    let customized = builder.build();
    assert_eq!(customized.opstate_fn, Some(4));
    assert_eq!(customized.middleware_fn, Some(2));
    assert_eq!(customized.get_esm_entry_point(), Some("ext:a/other.js"));
    let mut builder = declare().js_only_builder();
    builder.middleware(5);
    let customized = builder.build();
    assert_eq!(customized.middleware_fn, Some(5));
    assert_eq!(customized.opstate_fn, None);
    assert_eq!(customized.get_esm_sources().unwrap().len(), 2);
    let customized = declare().ops_builder().build();
    assert!(customized.get_esm_sources().unwrap().is_empty());
    assert_eq!(customized.event_loop_middleware, Some(3));
}
