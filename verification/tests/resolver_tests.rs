use std::sync::Arc;

use deno_tools::lsp_resolver::{
    config_pieces, create_graph_resolver, create_node_resolver, create_npm_resolver, CacheSetting,
    Config, ConfigData, ConfigFile, Handle, HashPiece, LspNpmConfigHash, LspResolver, NodeResolver,
    NpmResolver, NpmResolverOptions,
};
use deno_tools::npm_global::{referrer_package, CacheAction, GlobalNpmPackageResolver};
use deno_tools::shared::AnyError;

fn data() -> ConfigData {
    ConfigData {
        scope: "file:///w/".to_string(),
        node_modules_dir: Some("/w/node_modules".to_string()),
        byonm: false,
        lockfile: Some("lock".to_string()),
        package_json: Some(Handle(1)),
        import_map: Some(Handle(2)),
        vendor_dir: Some("/w/vendor".to_string()),
        config_file: Some(ConfigFile {
            jsx_import_source: Ok(Some(Handle(3))),
            unstable: vec!["kv".to_string(), "bare-node-builtins".to_string()],
        }),
    }
}

fn config(data: ConfigData) -> Arc<Config> {
    Arc::new(Config { root_data: Some(data) })
}

fn error(message: &str) -> AnyError {
    AnyError::new(message.to_string())
}

const NPM: NpmResolver = NpmResolver { handle: Handle(7), managed: true };
const OTHER: NpmResolver = NpmResolver { handle: Handle(8), managed: false };

#[test]
fn hash_is_made_of_the_pieces() {
    let cache = Some("/cache".to_string());
    let text = |t: &str| HashPiece::OptText(Some(t.to_string()));
    assert_eq!(
        config_pieces(&config(data()), &cache),
        vec![
            text("file:///w/"),
            text("/w/node_modules"),
            text("/cache"),
            HashPiece::Lockfile("lock".to_string()),
            text("/cache"),
        ]
    );
    assert_eq!(
        config_pieces(&Config { root_data: None }, &None),
        vec![
            HashPiece::OptText(None),
            HashPiece::OptText(None),
            HashPiece::OptText(None),
            HashPiece::OptText(None),
        ]
    );
    let hash = LspNpmConfigHash::new(&config(data()), &cache, |pieces| pieces.len() as u64);
    assert_eq!(hash, LspNpmConfigHash(5));
}

#[test]
fn resolver_is_kept_while_the_hash_stays() {
    let first = LspResolver::default();
    assert!(first.npm_resolver.is_none());
    assert!(!first.needs_npm_resolver(&config(data()), LspNpmConfigHash(0), true));
    assert!(first.needs_npm_resolver(&config(data()), LspNpmConfigHash(1), true));
    assert!(!first.needs_npm_resolver(&config(data()), LspNpmConfigHash(1), false));
    assert!(!first.needs_npm_resolver(&Config { root_data: None }, LspNpmConfigHash(1), true));

    let second = first.with_new_config(config(data()), LspNpmConfigHash(1), true, Some(NPM));
    assert_eq!(second.npm_resolver, Some(NPM));
    assert_eq!(second.node_resolver, Some(NodeResolver { npm_resolver: NPM }));
    assert_eq!(second.as_graph_resolver().npm_resolver, Some(NPM));
    assert_eq!(second.as_graph_npm_resolver().npm_resolver, Some(NPM));
    assert_eq!(second.npm_config_hash, LspNpmConfigHash(1));

    let kept = second.with_new_config(config(data()), LspNpmConfigHash(1), true, Some(OTHER));
    assert_eq!(kept.npm_resolver, Some(NPM));
    let dropped = second.with_new_config(config(data()), LspNpmConfigHash(2), false, Some(OTHER));
    assert_eq!(dropped.npm_resolver, None);
    assert_eq!(dropped.node_resolver, None);
    let failed = second.with_new_config(config(data()), LspNpmConfigHash(2), true, None);
    assert_eq!(failed.npm_resolver, None);
    assert_eq!(failed.node_resolver, None);
}

#[test]
fn snapshot_has_its_own_npm_resolver() {
    let resolver =
        LspResolver::default().with_new_config(config(data()), LspNpmConfigHash(1), true, Some(NPM));
    let snapshot = resolver.snapshot(Some(OTHER));
    assert_eq!(snapshot.npm_resolver, Some(OTHER));
    assert_eq!(snapshot.node_resolver, Some(NodeResolver { npm_resolver: OTHER }));
    assert_eq!(snapshot.graph_resolver.maybe_import_map, Some(Handle(2)));
    assert_eq!(snapshot.npm_config_hash, LspNpmConfigHash(1));
    assert!(LspResolver::default().snapshot(Some(OTHER)).npm_resolver.is_none());
}

#[test]
fn answers_without_resolvers() {
    let none = LspResolver::default();
    let some = none.with_new_config(config(data()), LspNpmConfigHash(1), true, Some(NPM));
    let byonm = none.with_new_config(config(data()), LspNpmConfigHash(1), true, Some(OTHER));
    assert_eq!(none.maybe_managed_npm_resolver(), None);
    assert_eq!(some.maybe_managed_npm_resolver(), Some(NPM));
    assert_eq!(byonm.maybe_managed_npm_resolver(), None);
    assert_eq!(none.set_npm_package_reqs(Err(error("x"))), Ok(()));
    assert_eq!(byonm.set_npm_package_reqs(Err(error("x"))), Ok(()));
    assert_eq!(some.set_npm_package_reqs(Err(error("x"))), Err(error("x")));
    assert!(!none.in_npm_package(true));
    assert!(some.in_npm_package(true));
    assert!(!some.in_npm_package(false));
    assert_eq!(none.node_resolve(Ok(Some(1))), Ok(None));
    assert_eq!(some.node_resolve(Ok(Some(1))), Ok(Some(1)));
    assert_eq!(none.get_closest_package_json::<u8>(Err(error("x"))), Ok(None));
    assert_eq!(some.get_closest_package_json::<u8>(Ok(None)), Ok(None));
    assert_eq!(none.resolve_npm_req_reference(Ok(1)), Ok(None));
    assert_eq!(some.resolve_npm_req_reference(Ok(1)), Ok(Some(1)));
    assert_eq!(some.url_to_node_resolution::<u8>(Err(error("x"))), Err(error("x")));
    assert_eq!(create_node_resolver(None), None);
}

#[test]
fn npm_resolver_by_configuration() {
    let npm = || Some("/cache/npm".to_string());
    assert_eq!(
        create_npm_resolver(&data(), npm(), None),
        Some(NpmResolverOptions::Managed {
            resolve_from_lockfile: Some("lock".to_string()),
            update_lockfile: false,
            npm_global_cache_dir: "/cache/npm".to_string(),
            cache_setting: CacheSetting::Only,
            maybe_node_modules_path: Some("/w/node_modules".to_string()),
            install_package_json: false,
        })
    );
    let mut byonm = data();
    byonm.byonm = true;
    byonm.node_modules_dir = None;
    assert_eq!(
        create_npm_resolver(&byonm, npm(), Some("/w".to_string())),
        Some(NpmResolverOptions::Byonm { root_node_modules_dir: "/w".to_string() })
    );
    assert_eq!(create_npm_resolver(&byonm, npm(), None), None);
    assert_eq!(create_npm_resolver(&data(), None, None), None);
}

#[test]
fn graph_resolver_by_configuration() {
    let options = create_graph_resolver(&config(data()), Some(NPM), None);
    assert_eq!(options.npm_resolver, Some(NPM));
    assert_eq!(options.package_json, Some(Handle(1)));
    assert_eq!(options.maybe_jsx_import_source_config, Some(Handle(3)));
    assert_eq!(options.maybe_import_map, Some(Handle(2)));
    assert_eq!(options.maybe_vendor_dir, Some("/w/vendor".to_string()));
    assert!(options.bare_node_builtins_enabled);
    assert!(!options.sloppy_imports);
    let mut other = data();
    other.config_file =
        Some(ConfigFile { jsx_import_source: Err(error("jsx")), unstable: vec![] });
    let options = create_graph_resolver(&config(other), None, None);
    assert_eq!(options.maybe_jsx_import_source_config, None);
    assert!(!options.bare_node_builtins_enabled);
    let options = create_graph_resolver(&Config { root_data: None }, None, None);
    assert_eq!(options.maybe_import_map, None);
}

#[test]
fn folder_of_a_package() {
    let resolver = GlobalNpmPackageResolver::new("file:///cache/".to_string());
    let id = || Some("a@1".to_string());
    let resolve = |referrer_id, package: Result<&str, AnyError>| {
        resolver.resolve_package_folder_from_package(
            "file:///x.js",
            referrer_id,
            package.map(|p| p.to_string()),
            Some("/cache/b/2".to_string()),
        )
    };
    assert_eq!(resolve(id(), Ok("b@2")), Ok("/cache/b/2".to_string()));
    assert_eq!(resolve(id(), Err(error("no b"))), Err(error("no b")));
    assert_eq!(
        resolve(None, Err(error("no b"))),
        Err(error("could not find npm package for 'file:///x.js'"))
    );
    assert_eq!(referrer_package("r", id()), Ok("a@1".to_string()));
    assert_eq!(resolver.node_modules_path(), None);
    assert_eq!(resolver.root_dir_url(), "file:///cache/");
    assert_eq!(resolver.package_folder(id()), Ok("a@1".to_string()));
    assert_eq!(resolver.resolve_package_cache_folder_id_from_specifier(id()), Ok(id()));
}

#[test]
fn packages_are_cached_before_copies() {
    let resolver = GlobalNpmPackageResolver::new("file:///cache/".to_string());
    let copies = || vec!["a_1".to_string(), "b_1".to_string()];
    let (state, action) = resolver.cache_packages(copies());
    assert_eq!(action, CacheAction::CachePackages);
    let (state, action) = state.step(Ok(()));
    assert_eq!(action, CacheAction::EnsureCopy("a_1".to_string()));
    let (state, action) = state.step(Ok(()));
    assert_eq!(action, CacheAction::EnsureCopy("b_1".to_string()));
    let (_, action) = state.step(Ok(()));
    assert_eq!(action, CacheAction::Finish(Ok(())));
    let (state, _) = resolver.cache_packages(copies());
    let (state, _) = state.step(Ok(()));
    let (state, action) = state.step(Err(error("disk")));
    assert_eq!(action, CacheAction::Finish(Err(error("disk"))));
    assert!(state.copies.is_empty());
}
