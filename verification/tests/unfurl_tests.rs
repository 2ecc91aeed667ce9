use deno_tools::import_map::{
    deno_json_deps, imports_values, scope_values, values_to_set, JsrDepPackageReq, Json,
    PackageKind,
};
use deno_tools::import_map_lookup::{unfurl_by_import_map, UnfurlFailure};
use deno_tools::package_version::{is_endless, version_of_reference};
use deno_tools::source_module::{
    DependencyDescriptor, DependencySpecifier, ModuleInfo, ParseFailure, Position, PositionRange,
    SourceModule, SpecifierWithRange,
};
use deno_tools::text_changes::{apply_text_changes, can_apply, TextChange};
use deno_tools::unfurl::{
    make_relative_by, make_relative_to, specifiers_to_resolve, to_range, try_unfurl_dynamic_dep,
    ImportMapUnfurlDiagnostic, ImportMapUnfurler, MappedSpecifierResolver,
};

/// The answers of an import map to what a module asks.
fn resolver_for(
    import_map: &import_map::ImportMap,
    specifier: &str,
    source: &SourceModule,
) -> MappedSpecifierResolver {
    let referrer = url::Url::parse(specifier).unwrap();
    let mut resolver = MappedSpecifierResolver::new();
    for asked in specifiers_to_resolve(source) {
        if let Ok(resolved) = import_map.resolve(&asked, &referrer) {
            resolver.add_answer(&asked, specifier, resolved.as_str());
        }
    }
    resolver
}

#[test]
fn test_unfurling() {
    let deno_json_url = url::Url::parse("file:///dev/deno.json").unwrap();
    let text = r#"{
      "imports": {
        "express": "npm:express@5",
        "lib/": "./lib/",
        "fizz": "./fizz/mod.ts"
      }
    }"#;
    let import_map = import_map::parse_from_json(deno_json_url.clone(), text).unwrap().import_map;

    // Unfurling TS file should apply changes.
    let source_code = r#"import express from "express";"
import foo from "lib/foo.ts";
import bar from "lib/bar.ts";
import fizz from "fizz";

const test1 = await import("lib/foo.ts");
const test2 = await import(`lib/foo.ts`);
const test3 = await import(`lib/${expr}`);
const test4 = await import(`./lib/${expr}`);
// will warn
const test5 = await import(`lib${expr}`);
const test6 = await import(`${expr}`);
"#;
    let specifier = "file:///dev/mod.ts";
    let source = SourceModule::parse(specifier, source_code).unwrap();
    let mapped_resolver = resolver_for(&import_map, specifier, &source);
    let unfurler = ImportMapUnfurler::new(&mapped_resolver);
    let mut d: Vec<ImportMapUnfurlDiagnostic> = Vec::new();
    let unfurled_source = unfurler.unfurl(specifier, &source, &mut d).unwrap();
    assert_eq!(d.len(), 2);
    assert!(
        matches!(d[0], ImportMapUnfurlDiagnostic::UnanalyzableDynamicImport { .. }),
        "{:?}",
        d[0]
    );
    assert!(
        matches!(d[1], ImportMapUnfurlDiagnostic::UnanalyzableDynamicImport { .. }),
        "{:?}",
        d[1]
    );
    let expected_source = r#"import express from "npm:express@5";"
import foo from "./lib/foo.ts";
import bar from "./lib/bar.ts";
import fizz from "./fizz/mod.ts";

const test1 = await import("./lib/foo.ts");
const test2 = await import(`./lib/foo.ts`);
const test3 = await import(`./lib/${expr}`);
const test4 = await import(`./lib/${expr}`);
// will warn
const test5 = await import(`lib${expr}`);
const test6 = await import(`${expr}`);
"#;
    assert_eq!(unfurled_source, expected_source);
    let (unfurled_source, found) =
        unfurl_by_import_map(deno_json_url.as_str(), text, specifier, &source).unwrap();
    assert_eq!(unfurled_source, expected_source);
    assert_eq!(found, d);
}

#[test]
fn import_map_decides_what_is_unfurled() {
    let unfurl = |base: &str, json: &str, text: &str| {
        let source = SourceModule::parse("file:///dev/mod.ts", text).unwrap();
        unfurl_by_import_map(base, json, "file:///dev/mod.ts", &source)
    };
    let base = "file:///dev/deno.json";
    let json = r#"{ "imports": { "a": "./x.ts", "b/": "https://b.test/" } }"#;
    let (text, found) = unfurl(base, json, "import 'a';import \"b/c\";import 'd';").unwrap();
    assert_eq!(text, "import './x.ts';import \"https://b.test/c\";import 'd';");
    assert!(found.is_empty());
    let (text, _) = unfurl("file:///other/deno.json", json, "import 'a';").unwrap();
    assert_eq!(text, "import './../other/x.ts';");
    assert_eq!(unfurl(base, "[", ""), Err(UnfurlFailure::NoImportMap));
    assert_eq!(unfurl("dev", json, ""), Err(UnfurlFailure::NoImportMap));
    let elsewhere = r#"{ "imports": { "a": "file://host/x.ts" } }"#;
    assert_eq!(unfurl(base, elsewhere, "import 'a';"), Err(UnfurlFailure::NotRewritable));
}

#[test]
fn entries_that_mislead_are_refused() {
    let unfurl = |json: &str, text: &str| {
        let source = SourceModule::parse("file:///dev/mod.ts", text).unwrap();
        unfurl_by_import_map("file:///dev/deno.json", json, "file:///dev/mod.ts", &source)
            .map(|(text, _)| text)
    };
    // the key becomes https://example.com/
    let json = r#"{ "imports": { "https://example.com": "https://a.com/x.ts", "b": "./b.ts" } }"#;
    let misled = Err(UnfurlFailure::MisleadingEntry);
    assert_eq!(unfurl(json, "import 'https://example.com/foo';"), misled);
    assert_eq!(unfurl(json, "import 'b'; import 'HTTPS://example.com:443/foo';"), misled);
    assert_eq!(
        unfurl(json, "import 'https://example.com'; import 'b'; import 'https://example.org/foo';"),
        Ok("import 'https://a.com/x.ts'; import './b.ts'; import 'https://example.org/foo';"
            .to_string())
    );
    // the first entry in the order of the import map decides
    let longer = r#"{ "imports": {
        "https://example.com": "./x.ts", "https://example.com/lib/": "https://b.com/"
    } }"#;
    assert_eq!(
        unfurl(longer, "import 'https://example.com/lib/y';"),
        Ok("import 'https://b.com/y';".to_string())
    );
    assert_eq!(unfurl(longer, "import 'https://example.com/y';"), misled);
    // other schemes do not go by their beginnings
    let other = r#"{ "imports": { "npm:/foo/.": "./x.ts" } }"#;
    assert_eq!(unfurl(other, "import 'npm:/foo/bar';"), Ok("import 'npm:/foo/bar';".to_string()));
    let relative = r#"{ "imports": { "./sub/.": "./x.ts" } }"#;
    assert_eq!(unfurl(relative, "import './sub/y.ts';"), misled);
    assert_eq!(unfurl(relative, "import '/dev/sub/y.ts';"), misled);
    let scoped = |scope: &str| {
        format!(r#"{{ "scopes": {{ "{}": {{ "https://example.com": "./x.ts" }} }} }}"#, scope)
    };
    assert_eq!(unfurl(&scoped("./"), "import 'https://example.com/foo';"), misled);
    let elsewhere = unfurl(&scoped("./other/"), "import 'https://example.com/foo';");
    assert_eq!(elsewhere, Ok("import 'https://example.com/foo';".to_string()));
    // what is not looked up cannot be misled
    for text in [
        "import(`https://example.com/foo${x}`);",
        "import(`${x}https://example.com/foo/`);",
        r"import('https:\x2f/example.com/foo');",
    ] {
        assert_eq!(unfurl(json, text), Ok(text.to_string()));
    }
    assert_eq!(unfurl(relative, "import(`./sub/${x}`);"), Ok("import(`./sub/${x}`);".to_string()));
    assert_eq!(unfurl(json, "import(`https://example.com/foo/${x}`);"), misled);
    assert_eq!(unfurl(json, "import('https://example.com/foo');"), misled);
    let blocked = r#"{ "imports": { "https://example.com": null } }"#;
    let text = "import 'https://example.com/foo';";
    assert_eq!(unfurl(blocked, text), Ok(text.to_string()));
}

#[test]
fn parsed_module_is_rewritten_unless_changes_overlap() {
    let json = r#"{ "imports": { "a": "npm:a", "\u00e9/": "npm:/e/" } }"#;
    let unfurl = |text: &str| {
        let source = SourceModule::parse_source_code("file:///mod.js", text).unwrap();
        unfurl_by_import_map("file:///deno.json", json, "file:///mod.js", &source)
            .map(|(text, found)| (text, found.len()))
    };
    assert_eq!(
        unfurl("/* \u{1F995} */ import 'a';\r\n/** @type {import(\"a\")} \u{e9} */ import('\u{e9}/x');"),
        Ok((
            "/* \u{1F995} */ import 'npm:a';\r\n/** @type {import(\"npm:a\")} \u{e9} */ import('npm:/e/x');"
                .to_string(),
            0
        ))
    );
    assert_eq!(
        unfurl("import('\u{e9}/' + x); import(x);"),
        Ok(("import('npm:/e/' + x); import(x);".to_string(), 1))
    );
    // the first import is found where the second one stands
    assert_eq!(
        unfurl(r"import('\x61'); import('a');"),
        Err(UnfurlFailure::NotRewritable)
    );
}

#[test]
fn byte_order_mark_is_stripped() {
    let parse = |text: &str| SourceModule::parse_source_code("file:///mod.ts", text);
    let source = parse("\u{FEFF}import 'a';").unwrap();
    assert_eq!(source.text, "import 'a';");
    assert_eq!(specifiers_to_resolve(&source), vec!["a"]);
    assert_eq!(parse("import 'b';").unwrap().text, "import 'b';");
    assert_eq!(parse("").unwrap().text, "");
    assert_eq!(parse("\u{FEFF}\u{FEFF}").map(|_| ()), Err(ParseFailure::NoSourceText));
    assert_eq!(parse("import").map(|_| ()), Err(ParseFailure::NotParsed));
    let no_url = SourceModule::parse_source_code("mod.ts", "");
    assert_eq!(no_url.map(|_| ()), Err(ParseFailure::NotParsed));
}

fn range(start_line: usize, start: usize, end_line: usize, end: usize) -> PositionRange {
    PositionRange::new(start_line, start, end_line, end)
}

fn module(text: &str, dependencies: Vec<DependencyDescriptor>) -> SourceModule {
    SourceModule {
        text: text.to_string(),
        module_info: ModuleInfo {
            dependencies,
            ts_references: vec![],
            jsdoc_imports: vec![],
            jsx_import_source: None,
        },
    }
}

fn resolver(answers: &[(&str, &str)]) -> MappedSpecifierResolver {
    let mut resolver = MappedSpecifierResolver::new();
    for (specifier, resolved) in answers {
        resolver.add_answer(specifier, "file:///dev/mod.ts", resolved);
    }
    resolver
}

#[test]
fn module_is_parsed_with_its_dependencies() {
    let text = "/// <reference types=\"./t.d.ts\" />\n/** @jsxImportSource preact */\n/** @typedef {import(\"./d.ts\").D} D */\nimport a from \"a\";\nexport * from 'b';\nawait import(`c/${d}`);\nawait import(e);\n";
    let source = SourceModule::parse("file:///dev/mod.tsx", text).unwrap();
    let info = &source.module_info;
    assert_eq!(source.text, text);
    assert_eq!(
        info.dependencies[0],
        DependencyDescriptor {
            specifier: DependencySpecifier::Static("a".to_string()),
            range: range(3, 14, 3, 17),
        }
    );
    assert_eq!(
        info.dependencies[1],
        DependencyDescriptor {
            specifier: DependencySpecifier::Static("b".to_string()),
            range: range(4, 14, 4, 17),
        }
    );
    assert_eq!(
        info.dependencies[2].specifier,
        DependencySpecifier::DynamicTemplate(vec![Some("c/".to_string()), None])
    );
    assert_eq!(info.dependencies[3].specifier, DependencySpecifier::DynamicExpr);
    assert_eq!(info.dependencies.len(), 4);
    assert_eq!(info.ts_references[0].text, "./t.d.ts");
    assert_eq!(info.jsx_import_source.as_ref().unwrap().text, "preact");
    assert!(SourceModule::parse("not a url", text).is_none());
    assert!(SourceModule::parse("file:///dev/mod.ts", "import from;").is_none());
}

#[test]
fn jsdoc_imports_are_found_in_js() {
    let text = "/** @type {import(\"./d.js\").D} */\nexport const d = 1;\n";
    let source = SourceModule::parse("file:///dev/mod.js", text).unwrap();
    assert_eq!(source.module_info.jsdoc_imports[0].text, "./d.js");
}

#[test]
fn positions_stand_for_bytes() {
    let source = module("aé\r\nb€c\nd", vec![]);
    assert_eq!(source.byte_range(range(0, 0, 0, 1)), Some((0, 1)));
    assert_eq!(source.byte_range(range(0, 2, 0, 9)), Some((3, 3)));
    assert_eq!(source.byte_range(range(1, 1, 1, 2)), Some((6, 9)));
    assert_eq!(source.byte_range(range(1, 3, 2, 1)), Some((10, 12)));
    assert_eq!(source.byte_range(range(2, 0, 3, 0)), None);
    assert_eq!(source.byte_range(range(0, 0, 0, usize::MAX)), Some((0, 3)));
    assert_eq!(source.line_start(0), Some(0));
    assert_eq!(source.line_start(1), Some(5));
    assert_eq!(source.line_start(2), Some(11));
    assert_eq!(source.line_start(3), None);
}

#[test]
fn quotes_are_left_out_of_a_range() {
    let source = module("import \"ab\"; import 'é'; x", vec![]);
    assert_eq!(to_range(&source, range(0, 7, 0, 11)), Some((8, 10)));
    assert_eq!(to_range(&source, range(0, 20, 0, 23)), Some((21, 23)));
    assert_eq!(to_range(&source, range(0, 25, 0, 26)), Some((26, 27)));
    assert_eq!(to_range(&source, range(0, 3, 0, 3)), Some((3, 3)));
    assert_eq!(to_range(&source, range(0, 4, 0, 3)), None);
    assert_eq!(to_range(&source, range(0, 0, 1, 0)), None);
}

#[test]
fn relative_references() {
    assert_eq!(
        make_relative_to("file:///dev/mod.ts", "file:///dev/lib/a.ts").unwrap(),
        "./lib/a.ts"
    );
    assert_eq!(make_relative_to("file:///dev/mod.ts", "file:///a.ts").unwrap(), "./../a.ts");
    assert_eq!(make_relative_to("file:///dev/mod.ts", "npm:a@1").unwrap(), "npm:a@1");
    assert_eq!(make_relative_to("https://deno.land/mod.ts", "file:///a.ts"), None);
    assert_eq!(make_relative_by("file:///a.ts", Some("b".to_string())).unwrap(), "./b");
    assert_eq!(make_relative_by("file:///a.ts", None), None);
    assert_eq!(make_relative_by("jsr:a", None).unwrap(), "jsr:a");
}

#[test]
fn dynamic_imports_one_by_one() {
    let answers = resolver(&[("lib/", "file:///dev/lib/"), ("x", "npm:x"), ("./x/", "npm:y")]);
    let unfurl = |text: &str, specifier: DependencySpecifier, range: PositionRange| {
        let source = module(text, vec![]);
        let mut changes: Vec<TextChange> = Vec::new();
        let success = try_unfurl_dynamic_dep(
            &answers,
            "file:///dev/mod.ts",
            &source,
            &specifier,
            range,
            &mut changes,
        );
        (success, changes)
    };
    let string = |text: &str| DependencySpecifier::DynamicString(text.to_string());
    let template = |parts: &[Option<&str>]| {
        DependencySpecifier::DynamicTemplate(
            parts.iter().map(|p| p.map(|t| t.to_string())).collect(),
        )
    };
    let change = |start, end, text: &str| TextChange { start, end, new_text: text.to_string() };

    assert_eq!(
        unfurl("import('x')", string("x"), range(0, 7, 0, 10)),
        (Some(true), vec![change(8, 9, "npm:x")])
    );
    // not mapped
    assert_eq!(
        unfurl("import('z')", string("z"), range(0, 7, 0, 10)),
        (Some(false), vec![])
    );
    // escaped, so that the text does not hold the value
    assert_eq!(
        unfurl("import('\\x78')", string("x"), range(0, 7, 0, 13)),
        (Some(true), vec![change(9, 10, "npm:x")])
    );
    assert_eq!(
        unfurl("import('\\u0078')", string("x"), range(0, 7, 0, 15)),
        (Some(false), vec![])
    );
    assert_eq!(unfurl("import('x')", string("x"), range(3, 7, 3, 10)), (None, vec![]));
    assert_eq!(
        unfurl("import(`lib/${a}`)", template(&[Some("lib/"), None]), range(0, 7, 0, 17)),
        (Some(true), vec![change(8, 12, "./lib/")])
    );
    assert_eq!(
        unfurl("import(`./x/${a}`)", template(&[Some("./x/"), None]), range(0, 7, 0, 17)),
        (Some(true), vec![])
    );
    assert_eq!(
        unfurl("import(`../x/${a}`)", template(&[Some("../x/"), None]), range(0, 7, 0, 18)),
        (Some(true), vec![])
    );
    assert_eq!(
        unfurl("import(`x${a}`)", template(&[Some("x"), None]), range(0, 7, 0, 14)),
        (Some(false), vec![])
    );
    assert_eq!(
        unfurl("import(`y/${a}`)", template(&[Some("y/"), None]), range(0, 7, 0, 15)),
        (Some(false), vec![])
    );
    assert_eq!(
        unfurl("import(`${a}`)", template(&[None]), range(0, 7, 0, 13)),
        (Some(false), vec![])
    );
    assert_eq!(unfurl("import(``)", template(&[]), range(0, 7, 0, 9)), (Some(true), vec![]));
    assert_eq!(
        unfurl("import(a)", DependencySpecifier::DynamicExpr, range(0, 7, 0, 8)),
        (Some(false), vec![])
    );
}

#[test]
fn diagnostics_say_where_the_argument_is() {
    let text = "// é\nimport(a);";
    let source = module(
        text,
        vec![DependencyDescriptor {
            specifier: DependencySpecifier::DynamicExpr,
            range: range(1, 7, 1, 8),
        }],
    );
    let answers = resolver(&[]);
    let mut found: Vec<ImportMapUnfurlDiagnostic> = Vec::new();
    let unfurled =
        ImportMapUnfurler::new(&answers).unfurl("file:///dev/mod.ts", &source, &mut found);
    assert_eq!(unfurled.unwrap(), text);
    assert_eq!(
        found,
        vec![ImportMapUnfurlDiagnostic::UnanalyzableDynamicImport {
            specifier: "file:///dev/mod.ts".to_string(),
            text: text.to_string(),
            start: 13,
            end: 14,
        }]
    );
    assert_eq!(found[0].code(), "unanalyzable-dynamic-import");
    assert_eq!(found[0].message(), "unable to analyze dynamic import");
}

#[test]
fn comments_are_unfurled_too() {
    let text = "/// <reference types=\"a\" />\n// b c\nimport 'a';";
    let mut source = module(
        text,
        vec![DependencyDescriptor {
            specifier: DependencySpecifier::Static("a".to_string()),
            range: range(2, 7, 2, 10),
        }],
    );
    let with_range = |text: &str, range| SpecifierWithRange { text: text.to_string(), range };
    source.module_info.ts_references = vec![with_range("a", range(0, 21, 0, 24))];
    source.module_info.jsdoc_imports = vec![with_range("b", range(1, 3, 1, 4))];
    source.module_info.jsx_import_source = Some(with_range("c", range(1, 5, 1, 6)));
    assert_eq!(specifiers_to_resolve(&source), vec!["a", "a", "b", "c"]);
    let answers = resolver(&[("a", "npm:a"), ("b", "npm:b"), ("c", "npm:c")]);
    let mut found: Vec<ImportMapUnfurlDiagnostic> = Vec::new();
    let unfurled =
        ImportMapUnfurler::new(&answers).unfurl("file:///dev/mod.ts", &source, &mut found);
    assert_eq!(
        unfurled.unwrap(),
        "/// <reference types=\"npm:a\" />\n// npm:b npm:c\nimport 'npm:a';"
    );
    assert!(found.is_empty());
}

#[test]
fn modules_that_cannot_be_rewritten() {
    let dependency = |range| DependencyDescriptor {
        specifier: DependencySpecifier::Static("a".to_string()),
        range,
    };
    let expr = DependencyDescriptor {
        specifier: DependencySpecifier::DynamicExpr,
        range: range(0, 0, 0, 1),
    };
    let answers = resolver(&[("a", "npm:a")]);
    let unfurler = ImportMapUnfurler::new(&answers);
    let mut found: Vec<ImportMapUnfurlDiagnostic> = Vec::new();
    // overlapping changes
    let source = module("'a'", vec![expr, dependency(range(0, 0, 0, 3)), dependency(range(0, 0, 0, 3))]);
    assert_eq!(unfurler.unfurl("file:///dev/mod.ts", &source, &mut found), None);
    assert!(found.is_empty());
    // no such line
    let source = module("'a'", vec![dependency(range(1, 0, 1, 3))]);
    assert_eq!(unfurler.unfurl("file:///dev/mod.ts", &source, &mut found), None);
    // no relative path
    let mut far = MappedSpecifierResolver::new();
    far.add_answer("a", "https://deno.land/mod.ts", "file:///a.ts");
    let source = module("'a'", vec![dependency(range(0, 0, 0, 3))]);
    let unfurled = ImportMapUnfurler::new(&far).unfurl("https://deno.land/mod.ts", &source, &mut found);
    assert_eq!(unfurled, None);
}

#[test]
fn later_answers_count() {
    let mut answers = resolver(&[("a", "npm:a"), ("a", "npm:b")]);
    assert_eq!(answers.resolve("a", "file:///dev/mod.ts"), Some("npm:b".to_string()));
    assert_eq!(answers.resolve("a", "file:///dev/other.ts"), None);
    assert_eq!(answers.resolve("b", "file:///dev/mod.ts"), None);
    answers.add_answer("b", "file:///dev/mod.ts", "npm:c");
    assert_eq!(answers.resolve("b", "file:///dev/mod.ts"), Some("npm:c".to_string()));
}

fn change(start: usize, end: usize, new_text: &str) -> TextChange {
    TextChange { start, end, new_text: new_text.to_string() }
}

#[test]
fn changes_are_applied_in_order() {
    let changes = vec![change(9, 10, "z"), change(4, 6, "y"), change(1, 2, "x")];
    assert!(can_apply("0123456789", &changes));
    assert_eq!(apply_text_changes("0123456789", changes), "0x23y678z");
    // insertions come before a replacement at the same place, in the order given
    let changes = vec![change(1, 2, "c"), change(1, 1, "a"), change(1, 1, "b"), change(3, 3, "d")];
    assert!(can_apply("012", &changes));
    assert_eq!(apply_text_changes("012", changes), "0abc2d");
    assert_eq!(apply_text_changes("012", vec![]), "012");
}

#[test]
fn changes_that_cannot_be_applied() {
    assert!(!can_apply("0123", &vec![change(2, 1, "")]));
    assert!(!can_apply("0123", &vec![change(2, 5, "")]));
    assert!(!can_apply("0123", &vec![change(0, 2, ""), change(1, 3, "")]));
    assert!(!can_apply("0123", &vec![change(1, 3, ""), change(0, 2, "")]));
    assert!(!can_apply("0123", &vec![change(0, 2, ""), change(1, 1, "")]));
    assert!(!can_apply("é", &vec![change(1, 2, "")]));
    assert!(!can_apply("é", &vec![change(0, 1, "")]));
    assert!(can_apply("é", &vec![change(0, 2, ""), change(2, 2, "a")]));
}

fn text(value: &str) -> Json {
    Json::Text(value.to_string())
}

fn object(members: Vec<(&str, Json)>) -> Json {
    Json::Object(members.into_iter().map(|(k, v)| (k.to_string(), v)).collect())
}

#[test]
fn values_of_imports_and_scopes() {
    let imports = object(vec![("a", text("1")), ("b", Json::Other), ("c", text("2"))]);
    assert_eq!(imports_values(Some(&imports)), vec!["1", "2"]);
    assert!(imports_values(None).is_empty());
    assert!(imports_values(Some(&Json::Other)).is_empty());
    assert!(imports_values(Some(&text("x"))).is_empty());
    let scopes = object(vec![("./s/", imports), ("./t/", text("y")), ("./u/", object(vec![("d", text("3"))]))]);
    assert_eq!(scope_values(Some(&scopes)), vec!["1", "2", "3"]);
    assert!(scope_values(None).is_empty());
}

fn req(kind: PackageKind, name: &str, version_req: &str) -> JsrDepPackageReq {
    JsrDepPackageReq { kind, name: name.to_string(), version_req: version_req.to_string() }
}

#[test]
fn dependencies_of_a_configuration_file() {
    let imports = object(vec![
        ("a", text("jsr:@std/fs@1")),
        ("b", text("npm:express@5/lib")),
        ("c", text("./mod.ts")),
        // the same range as the first one
        ("d", text("jsr:@std/fs@^1")),
    ]);
    let scopes = object(vec![(
        "./s/",
        object(vec![("e", text("npm:@std/fs@1")), ("f", text("npm:express@5"))]),
    )]);
    assert_eq!(
        deno_json_deps(Some(&imports), Some(&scopes)),
        vec![
            req(PackageKind::Jsr, "@std/fs", "1"),
            req(PackageKind::Npm, "express", "5"),
            req(PackageKind::Npm, "@std/fs", "1"),
        ]
    );
    assert!(deno_json_deps(None, None).is_empty());
}

#[test]
fn dependencies_are_the_same_by_their_meaning() {
    let values = vec!["npm:a".to_string(), "npm:a@*".to_string(), "npm:a@1.0".to_string(), "npm:a@1.0.x".to_string()];
    assert_eq!(
        values_to_set(&values),
        vec![req(PackageKind::Npm, "a", "*"), req(PackageKind::Npm, "a", "1.0")]
    );
    assert!(JsrDepPackageReq::from_specifier("https://deno.land").is_none());
    assert!(req(PackageKind::Npm, "a", "1").same(&req(PackageKind::Npm, "a", "1")));
    assert!(!req(PackageKind::Npm, "a", "1").same(&req(PackageKind::Jsr, "a", "1")));
    assert!(!req(PackageKind::Npm, "a", "1").same(&req(PackageKind::Npm, "b", "1")));
    assert!(!req(PackageKind::Npm, "a", "1").same(&req(PackageKind::Npm, "a", "2")));
}

#[test]
fn greatest_number_is_no_version() {
    for specifier in [
        "npm:a@^18446744073709551615",
        "jsr:@a/b@^18446744073709551615",
        "npm:a@~1.18446744073709551615",
    ] {
        assert_eq!(JsrDepPackageReq::from_specifier(specifier), None);
        assert!(values_to_set(&vec![specifier.to_string()]).is_empty());
    }
    assert_eq!(
        JsrDepPackageReq::from_specifier("npm:a@^18446744073709551614"),
        Some(req(PackageKind::Npm, "a", "^18446744073709551614"))
    );
    // only a number that the range ends behind counts
    for (specifier, name, version_req) in [
        ("npm:a18446744073709551615@1", "a18446744073709551615", "1"),
        ("npm:a@1/18446744073709551615", "a", "1"),
        ("npm:/@s/a@1/b@18446744073709551615", "@s/a", "1"),
        ("npm:a@1.2.18446744073709551615", "a", "1.2.18446744073709551615"),
        ("npm:a@^1.18446744073709551615", "a", "^1.18446744073709551615"),
        ("npm:a@~1.2.18446744073709551615", "a", "~1.2.18446744073709551615"),
        ("npm:a@1.0.0-18446744073709551615", "a", "1.0.0-18446744073709551615"),
        ("npm:a@v18446744073709551615", "a", "v18446744073709551615"),
        ("npm:a@118446744073709551615", "a", "118446744073709551615"),
    ] {
        assert_eq!(
            JsrDepPackageReq::from_specifier(specifier),
            Some(req(PackageKind::Npm, name, version_req))
        );
    }
    for version_req in [
        "18446744073709551615",
        "1.18446744073709551615",
        "1.18446744073709551615.x",
        "18446744073709551615.x.1",
        "~18446744073709551615",
        "~1.18446744073709551615.2",
        "^18446744073709551615.1.1",
        "^0.18446744073709551615",
        "^0.0.18446744073709551615",
        "^0.0.18446744073709551615 ",
    ] {
        assert!(is_endless(version_req));
        assert_eq!(JsrDepPackageReq::from_specifier(&format!("npm:@s/a@{}/b", version_req)), None);
    }
    for version_req in ["", "~", "*", "x.18446744073709551615", "~x.18446744073709551615", "^0.0.1"] {
        assert!(!is_endless(version_req));
    }
    assert_eq!(version_of_reference("npm:@s@9/a@1@2/b@3"), Some("2".to_string()));
    assert_eq!(version_of_reference("jsr:/a@1"), Some("1".to_string()));
    assert_eq!(version_of_reference("jsr:@a@1"), None);
    assert_eq!(version_of_reference("a@1"), None);
    let greatest = || req(PackageKind::Npm, "a", "^18446744073709551615");
    assert!(greatest().same(&greatest()));
    assert!(!greatest().same(&req(PackageKind::Npm, "a", "1")));
    assert!(!req(PackageKind::Npm, "a", "1").same(&greatest()));
}

#[test]
fn positions_are_plain_numbers() {
    assert_eq!(range(1, 2, 3, 4).start, Position { line: 1, character: 2 });
    assert_eq!(range(1, 2, 3, 4).end, Position { line: 3, character: 4 });
}
