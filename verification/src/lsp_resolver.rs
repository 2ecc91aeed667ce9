//! The resolvers of the language server: which of them a configuration needs, and when they are
//! kept.

use std::sync::Arc;

use vstd::prelude::*;
use vstd::string::*;

use crate::shared::AnyError;
use crate::text::str_eq;

verus! {

/// The number by which the language server knows an object.
#[derive(Debug, Clone, Copy, PartialEq, Eq, Structural)]
pub struct Handle(pub u64);

/// A resolver of npm packages.
#[derive(Debug, Clone, Copy, PartialEq, Eq, Structural)]
pub struct NpmResolver {
    pub handle: Handle,
    /// The resolver manages the packages itself.
    pub managed: bool,
}

/// A resolver of Node modules, on top of a resolver of npm packages.
#[derive(Debug, Clone, Copy, PartialEq, Eq, Structural)]
pub struct NodeResolver {
    pub npm_resolver: NpmResolver,
}

/// What a configuration file says about resolution.
#[derive(Debug)]
pub struct ConfigFile {
    /// The source of JSX imports, or that the file says something wrong about it.
    pub jsx_import_source: Result<Option<Handle>, AnyError>,
    /// The unstable features that the file turns on.
    pub unstable: Vec<String>,
}

/// What the language server knows about the root of a workspace.
#[derive(Debug)]
pub struct ConfigData {
    pub scope: String,
    pub node_modules_dir: Option<String>,
    /// The user brings the directory of node modules along.
    pub byonm: bool,
    /// The contents of the lockfile.
    pub lockfile: Option<String>,
    pub package_json: Option<Handle>,
    pub import_map: Option<Handle>,
    pub vendor_dir: Option<String>,
    pub config_file: Option<ConfigFile>,
}

/// The configuration of the language server.
#[derive(Debug)]
pub struct Config {
    pub root_data: Option<ConfigData>,
}

/// A part of the configuration that a hash is made of.
#[derive(Debug, PartialEq, Eq)]
pub enum HashPiece {
    OptText(Option<String>),
    Lockfile(String),
}

/// The hash of what the resolver of npm packages depends on.
#[derive(Debug, Clone, Copy, PartialEq, Eq, Structural)]
pub struct LspNpmConfigHash(pub u64);

fn clone_opt(text: &Option<String>) -> (r: Option<String>)
    ensures
        r == *text,
{
    match text {
        Some(text) => Some(text.clone()),
        None => None,
    }
}

impl Config {
    /// The scope of the configuration.
    pub open spec fn scope(self) -> Option<String> {
        match self.root_data {
            Some(data) => Some(data.scope),
            None => None,
        }
    }

    pub open spec fn node_modules_dir(self) -> Option<String> {
        match self.root_data {
            Some(data) => data.node_modules_dir,
            None => None,
        }
    }

    pub open spec fn lockfile(self) -> Option<String> {
        match self.root_data {
            Some(data) => data.lockfile,
            None => None,
        }
    }
}

/// What is hashed, in order: the scope, the directory of node modules, the path of the global
/// cache, the lockfile where there is one, and the path of the global cache again.
pub open spec fn hashed_pieces(config: Config, global_cache_path: Option<String>) -> Seq<
    HashPiece,
> {
    let first = seq![
        HashPiece::OptText(config.scope()),
        HashPiece::OptText(config.node_modules_dir()),
        HashPiece::OptText(global_cache_path),
    ];
    let last = seq![HashPiece::OptText(global_cache_path)];
    match config.lockfile() {
        Some(lockfile) => first + seq![HashPiece::Lockfile(lockfile)] + last,
        None => first + last,
    }
}

impl LspNpmConfigHash {
    /// The hash of what the resolver of npm packages depends on. `hash` hashes the pieces.
    pub fn new<F: FnOnce(Vec<HashPiece>) -> u64>(
        config: &Config,
        global_cache_path: &Option<String>,
        hash: F,
    ) -> (r: LspNpmConfigHash)
        requires
            forall|pieces: Vec<HashPiece>|
                pieces@ == hashed_pieces(*config, *global_cache_path) ==> call_requires(
                    hash,
                    (pieces,),
                ),
        ensures
            exists|pieces: Vec<HashPiece>|
                pieces@ == hashed_pieces(*config, *global_cache_path) && call_ensures(
                    hash,
                    (pieces,),
                    r.0,
                ),
    {
        let pieces = config_pieces(config, global_cache_path);
        LspNpmConfigHash(hash(pieces))
    }
}

/// What the hash is made of.
pub fn config_pieces(config: &Config, global_cache_path: &Option<String>) -> (r: Vec<HashPiece>)
    ensures
        r@ == hashed_pieces(*config, *global_cache_path),
{
    let mut pieces: Vec<HashPiece> = Vec::new();
    match &config.root_data {
        Some(data) => {
            pieces.push(HashPiece::OptText(Some(data.scope.clone())));
            pieces.push(HashPiece::OptText(clone_opt(&data.node_modules_dir)));
        },
        None => {
            pieces.push(HashPiece::OptText(None));
            pieces.push(HashPiece::OptText(None));
        },
    }
    pieces.push(HashPiece::OptText(clone_opt(global_cache_path)));
    if let Some(data) = &config.root_data {
        if let Some(lockfile) = &data.lockfile {
            pieces.push(HashPiece::Lockfile(lockfile.clone()));
        }
    }
    pieces.push(HashPiece::OptText(clone_opt(global_cache_path)));
    assert(pieces@ =~= hashed_pieces(*config, *global_cache_path));
    pieces
}

/// How packages are downloaded: not at all, so that the user runs an explicit "cache" command and
/// typing does not fill the cache with lots of packages.
#[derive(Debug, Clone, Copy, PartialEq, Eq, Structural)]
pub enum CacheSetting {
    Only,
}

/// How a resolver of npm packages is made.
#[derive(Debug, PartialEq, Eq)]
pub enum NpmResolverOptions {
    /// The user brings the packages along.
    Byonm { root_node_modules_dir: String },
    /// The resolver manages the packages. It starts from the lockfile, where there is one, but does
    /// not update it, and it installs nothing while resolving.
    Managed {
        resolve_from_lockfile: Option<String>,
        update_lockfile: bool,
        npm_global_cache_dir: String,
        cache_setting: CacheSetting,
        maybe_node_modules_path: Option<String>,
        install_package_json: bool,
    },
}

/// How the resolver of npm packages is made, if it can be: there has to be a cache directory, and
/// a directory of node modules or a scope that is a path.
pub open spec fn npm_resolver_options(
    config_data: ConfigData,
    npm_folder_path: Option<String>,
    scope_path: Option<String>,
) -> Option<NpmResolverOptions> {
    let node_modules_dir = match config_data.node_modules_dir {
        Some(dir) => Some(dir),
        None => scope_path,
    };
    match (npm_folder_path, node_modules_dir) {
        (Some(npm_folder_path), Some(dir)) => Some(
            if config_data.byonm {
                NpmResolverOptions::Byonm { root_node_modules_dir: dir }
            } else {
                NpmResolverOptions::Managed {
                    resolve_from_lockfile: config_data.lockfile,
                    update_lockfile: false,
                    npm_global_cache_dir: npm_folder_path,
                    cache_setting: CacheSetting::Only,
                    maybe_node_modules_path: config_data.node_modules_dir,
                    install_package_json: false,
                }
            },
        ),
        _ => None,
    }
}

/// How the resolver of npm packages is made. `npm_folder_path` is the npm directory in the cache
/// directory, if there is one, and `scope_path` the path of the scope, if it is one.
pub fn create_npm_resolver(
    config_data: &ConfigData,
    npm_folder_path: Option<String>,
    scope_path: Option<String>,
) -> (r: Option<NpmResolverOptions>)
    ensures
        r == npm_resolver_options(*config_data, npm_folder_path, scope_path),
{
    let npm_global_cache_dir = match npm_folder_path {
        Some(path) => path,
        None => {
            return None;
        },
    };
    let node_modules_dir = match clone_opt(&config_data.node_modules_dir) {
        Some(dir) => dir,
        None => match scope_path {
            Some(path) => path,
            None => {
                return None;
            },
        },
    };
    if config_data.byonm {
        return Some(NpmResolverOptions::Byonm { root_node_modules_dir: node_modules_dir });
    }
    Some(
        NpmResolverOptions::Managed {
            resolve_from_lockfile: clone_opt(&config_data.lockfile),
            // Don't provide the lockfile. We don't want these resolvers updating it. Only the cache
            // request should update the lockfile.
            update_lockfile: false,
            npm_global_cache_dir,
            cache_setting: CacheSetting::Only,
            maybe_node_modules_path: clone_opt(&config_data.node_modules_dir),
            // do not install while resolving in the lsp—leave that to the cache command
            install_package_json: false,
        },
    )
}

/// The resolver of Node modules on top of a resolver of npm packages.
pub open spec fn node_resolver_on(npm_resolver: Option<NpmResolver>) -> Option<NodeResolver> {
    match npm_resolver {
        Some(npm_resolver) => Some(NodeResolver { npm_resolver }),
        None => None,
    }
}

/// The resolver of Node modules on top of a resolver of npm packages, if there is one.
pub fn create_node_resolver(npm_resolver: Option<NpmResolver>) -> (r: Option<NodeResolver>)
    ensures
        r == node_resolver_on(npm_resolver),
{
    match npm_resolver {
        Some(npm_resolver) => Some(NodeResolver { npm_resolver }),
        None => None,
    }
}

/// How the resolver of a module graph is made.
#[derive(Debug, PartialEq, Eq)]
pub struct GraphResolverOptions {
    pub node_resolver: Option<NodeResolver>,
    pub npm_resolver: Option<NpmResolver>,
    pub package_json: Option<Handle>,
    pub maybe_jsx_import_source_config: Option<Handle>,
    pub maybe_import_map: Option<Handle>,
    pub maybe_vendor_dir: Option<String>,
    pub bare_node_builtins_enabled: bool,
    /// The language server finds sloppy imports another way, with diagnostics and quick fixes.
    pub sloppy_imports: bool,
}

/// An unstable feature is turned on.
pub open spec fn has_unstable(config_file: ConfigFile, name: Seq<char>) -> bool {
    exists|i: int|
        0 <= i < config_file.unstable@.len() && (#[trigger] config_file.unstable@[i])@ == name
}

/// How the resolver of a module graph is made for a configuration and its resolvers.
pub open spec fn graph_resolver_options(
    config: Config,
    npm_resolver: Option<NpmResolver>,
    node_resolver: Option<NodeResolver>,
) -> GraphResolverOptions {
    match config.root_data {
        None => GraphResolverOptions {
            node_resolver,
            npm_resolver,
            package_json: None,
            maybe_jsx_import_source_config: None,
            maybe_import_map: None,
            maybe_vendor_dir: None,
            bare_node_builtins_enabled: false,
            sloppy_imports: false,
        },
        Some(data) => GraphResolverOptions {
            node_resolver,
            npm_resolver,
            package_json: data.package_json,
            maybe_jsx_import_source_config: match data.config_file {
                Some(file) => match file.jsx_import_source {
                    Ok(source) => source,
                    Err(_) => None,
                },
                None => None,
            },
            maybe_import_map: data.import_map,
            maybe_vendor_dir: data.vendor_dir,
            bare_node_builtins_enabled: data.config_file matches Some(file) && has_unstable(
                file,
                "bare-node-builtins"@,
            ),
            sloppy_imports: false,
        },
    }
}

impl ConfigFile {
    /// Whether an unstable feature is turned on.
    pub fn has_unstable(&self, name: &str) -> (r: bool)
        ensures
            r == has_unstable(*self, name@),
    {
        let mut i: usize = 0;
        while i < self.unstable.len()
            invariant
                i <= self.unstable.len(),
                forall|k: int| 0 <= k < i ==> (#[trigger] self.unstable@[k])@ != name@,
            decreases self.unstable.len() - i,
        {
            if str_eq(self.unstable[i].as_str(), name) {
                return true;
            }
            i += 1;
        }
        false
    }
}

/// How the resolver of a module graph is made.
pub fn create_graph_resolver(
    config: &Config,
    npm_resolver: Option<NpmResolver>,
    node_resolver: Option<NodeResolver>,
) -> (r: GraphResolverOptions)
    ensures
        r == graph_resolver_options(*config, npm_resolver, node_resolver),
{
    let mut options = GraphResolverOptions {
        node_resolver,
        npm_resolver,
        package_json: None,
        maybe_jsx_import_source_config: None,
        maybe_import_map: None,
        maybe_vendor_dir: None,
        bare_node_builtins_enabled: false,
        sloppy_imports: false,
    };
    if let Some(data) = &config.root_data {
        options.package_json = data.package_json;
        options.maybe_import_map = data.import_map;
        options.maybe_vendor_dir = clone_opt(&data.vendor_dir);
        if let Some(file) = &data.config_file {
            if let Ok(source) = &file.jsx_import_source {
                options.maybe_jsx_import_source_config = *source;
            }
            options.bare_node_builtins_enabled = file.has_unstable("bare-node-builtins");
        }
    }
    options
}

/// Calls `Arc::clone`: another pointer to the same configuration.
#[verifier::external_body]
fn share(config: &Arc<Config>) -> (r: Arc<Config>)
    ensures
        *r == **config,
{
    Arc::clone(config)
}

/// The resolvers of the language server.
#[derive(Debug)]
pub struct LspResolver {
    pub graph_resolver: GraphResolverOptions,
    pub npm_resolver: Option<NpmResolver>,
    pub node_resolver: Option<NodeResolver>,
    pub npm_config_hash: LspNpmConfigHash,
    pub config: Arc<Config>,
}

impl Default for LspResolver {
    /// The resolvers for an empty configuration.
    fn default() -> (r: LspResolver)
        ensures
            r.npm_resolver is None,
            r.npm_config_hash == LspNpmConfigHash(0),
            *r.config == (Config { root_data: None }),
            r.wf(),
    {
        let config = Config { root_data: None };
        LspResolver {
            graph_resolver: create_graph_resolver(&config, None, None),
            npm_resolver: None,
            node_resolver: None,
            npm_config_hash: LspNpmConfigHash(0),
            config: Arc::new(config),
        }
    }
}

impl LspResolver {
    /// The resolver of Node modules and that of module graphs are made for the resolver of npm
    /// packages and for the configuration.
    pub open spec fn wf(self) -> bool {
        &&& self.node_resolver == node_resolver_on(self.npm_resolver)
        &&& self.graph_resolver == graph_resolver_options(
            *self.config,
            self.npm_resolver,
            self.node_resolver,
        )
    }

    /// A new resolver of npm packages is to be made: the configuration has changed where it
    /// matters, and there are a client to download with and a workspace.
    pub open spec fn makes_npm_resolver(
        self,
        config: Config,
        npm_config_hash: LspNpmConfigHash,
        has_http_client: bool,
    ) -> bool {
        npm_config_hash != self.npm_config_hash && has_http_client && config.root_data is Some
    }

    /// Whether a new resolver of npm packages is to be made for a configuration.
    pub fn needs_npm_resolver(
        &self,
        config: &Config,
        npm_config_hash: LspNpmConfigHash,
        has_http_client: bool,
    ) -> (r: bool)
        ensures
            r == self.makes_npm_resolver(*config, npm_config_hash, has_http_client),
    {
        npm_config_hash != self.npm_config_hash && has_http_client && config.root_data.is_some()
    }

    /// The resolvers for a new configuration. Those for npm packages and Node modules are kept
    /// where nothing has changed that they depend on. Otherwise there are none but those that were
    /// made: `created` is the new resolver of npm packages, if it was to be and could be made.
    pub fn with_new_config(
        &self,
        config: Arc<Config>,
        npm_config_hash: LspNpmConfigHash,
        has_http_client: bool,
        created: Option<NpmResolver>,
    ) -> (r: LspResolver)
        ensures
            r.npm_config_hash == npm_config_hash,
            *r.config == *config,
            self.wf() ==> r.wf(),
            r.npm_resolver == if npm_config_hash == self.npm_config_hash {
                self.npm_resolver
            } else if self.makes_npm_resolver(*config, npm_config_hash, has_http_client) {
                created
            } else {
                None
            },
            r.node_resolver == if npm_config_hash == self.npm_config_hash {
                self.node_resolver
            } else {
                node_resolver_on(r.npm_resolver)
            },
            r.graph_resolver == graph_resolver_options(*config, r.npm_resolver, r.node_resolver),
    {
        let mut npm_resolver: Option<NpmResolver> = None;
        let mut node_resolver: Option<NodeResolver> = None;
        if npm_config_hash != self.npm_config_hash {
            if self.needs_npm_resolver(&config, npm_config_hash, has_http_client) {
                npm_resolver = created;
                node_resolver = create_node_resolver(npm_resolver);
            }
        } else {
            npm_resolver = self.npm_resolver;
            node_resolver = self.node_resolver;
        }
        let graph_resolver = create_graph_resolver(&config, npm_resolver, node_resolver);
        LspResolver { graph_resolver, npm_resolver, node_resolver, npm_config_hash, config }
    }

    /// The same resolvers on a snapshot of the npm packages: `snapshotted` is the snapshot, where
    /// there is a resolver of npm packages.
    pub fn snapshot(&self, snapshotted: Option<NpmResolver>) -> (r: LspResolver)
        ensures
            r.npm_config_hash == self.npm_config_hash,
            *r.config == *self.config,
            r.npm_resolver == if self.npm_resolver is Some {
                snapshotted
            } else {
                None
            },
            r.wf(),
    {
        let npm_resolver = match self.npm_resolver {
            Some(_) => snapshotted,
            None => None,
        };
        let node_resolver = create_node_resolver(npm_resolver);
        let graph_resolver = create_graph_resolver(&self.config, npm_resolver, node_resolver);
        LspResolver {
            graph_resolver,
            npm_resolver,
            node_resolver,
            npm_config_hash: self.npm_config_hash,
            config: share(&self.config),
        }
    }

    /// What the resolver of module graphs is made of.
    pub fn as_graph_resolver(&self) -> (r: &GraphResolverOptions)
        ensures
            *r == self.graph_resolver,
    {
        &self.graph_resolver
    }

    /// The resolver of module graphs resolves npm packages too.
    pub fn as_graph_npm_resolver(&self) -> (r: &GraphResolverOptions)
        ensures
            *r == self.graph_resolver,
    {
        &self.graph_resolver
    }

    /// The resolver of npm packages, if it manages them itself.
    pub fn maybe_managed_npm_resolver(&self) -> (r: Option<NpmResolver>)
        ensures
            r == match self.npm_resolver {
                Some(resolver) => if resolver.managed {
                    Some(resolver)
                } else {
                    None
                },
                None => None,
            },
    {
        match self.npm_resolver {
            Some(resolver) => if resolver.managed {
                Some(resolver)
            } else {
                None
            },
            None => None,
        }
    }

    /// What setting the required packages gives: `set` is what the resolver that manages them
    /// answered, and without one there is nothing to do.
    pub fn set_npm_package_reqs(&self, set: Result<(), AnyError>) -> (r: Result<(), AnyError>)
        ensures
            r == if self.npm_resolver matches Some(resolver) && resolver.managed {
                set
            } else {
                Ok(())
            },
    {
        if self.maybe_managed_npm_resolver().is_some() {
            return set;
        }
        Ok(())
    }

    /// Whether a specifier is in an npm package: `in_package` is the answer of the resolver of npm
    /// packages, and without one nothing is.
    pub fn in_npm_package(&self, in_package: bool) -> (r: bool)
        ensures
            r == (self.npm_resolver is Some && in_package),
    {
        if self.npm_resolver.is_some() {
            return in_package;
        }
        false
    }

    /// What a specifier resolves to: `resolved` is the answer of the resolver of Node modules, and
    /// without one there is none.
    pub fn node_resolve<T>(&self, resolved: Result<Option<T>, AnyError>) -> (r: Result<
        Option<T>,
        AnyError,
    >)
        ensures
            r == if self.node_resolver is Some {
                resolved
            } else {
                Ok(None)
            },
    {
        if self.node_resolver.is_none() {
            return Ok(None);
        }
        resolved
    }

    /// The package file that is closest to a referrer: `found` is the answer of the resolver of Node
    /// modules, and without one there is none.
    pub fn get_closest_package_json<T>(&self, found: Result<Option<T>, AnyError>) -> (r: Result<
        Option<T>,
        AnyError,
    >)
        ensures
            r == if self.node_resolver is Some {
                found
            } else {
                Ok(None)
            },
    {
        if self.node_resolver.is_none() {
            return Ok(None);
        }
        found
    }

    /// What a URL resolves to: `resolved` is the answer of the resolver of Node modules, and without
    /// one there is none.
    pub fn url_to_node_resolution<T>(&self, resolved: Result<T, AnyError>) -> (r: Result<
        Option<T>,
        AnyError,
    >)
        ensures
            r == if self.node_resolver is Some {
                match resolved {
                    Ok(resolution) => Ok(Some(resolution)),
                    Err(e) => Err(e),
                }
            } else {
                Ok(None)
            },
    {
        self.resolve_npm_req_reference(resolved)
    }

    /// What a reference to a package resolves to: `resolved` is the answer of the resolver of Node
    /// modules, and without one there is none.
    pub fn resolve_npm_req_reference<T>(&self, resolved: Result<T, AnyError>) -> (r: Result<
        Option<T>,
        AnyError,
    >)
        ensures
            r == if self.node_resolver is Some {
                match resolved {
                    Ok(resolution) => Ok(Some(resolution)),
                    Err(e) => Err(e),
                }
            } else {
                Ok(None)
            },
    {
        if self.node_resolver.is_none() {
            return Ok(None);
        }
        match resolved {
            Ok(resolution) => Ok(Some(resolution)),
            Err(e) => Err(e),
        }
    }
}

/// What is hashed of a configuration depends on its scope, its directory of node modules and its
/// lockfile only.
pub proof fn hash_ignores_the_rest(a: Config, b: Config, global_cache_path: Option<String>)
    requires
        a.scope() == b.scope(),
        a.node_modules_dir() == b.node_modules_dir(),
        a.lockfile() == b.lockfile(),
    ensures
        hashed_pieces(a, global_cache_path) == hashed_pieces(b, global_cache_path),
{
}

/// A resolver that manages the packages has a path of node modules exactly where the configuration gives
/// a directory of them, and that one. The path of the scope takes its place only where the user brings
/// the packages along. There is a resolver wherever there are a cache directory and one of the two.
pub proof fn managed_resolver_has_the_configured_path(
    config_data: &ConfigData,
    npm_folder_path: Option<String>,
    scope_path: Option<String>,
    r: Option<NpmResolverOptions>,
)
    requires
        call_ensures(create_npm_resolver, (config_data, npm_folder_path, scope_path), r),
    ensures
        r is Some <==> npm_folder_path is Some && (config_data.node_modules_dir is Some
            || scope_path is Some),
        r matches Some(options) ==> match options {
            NpmResolverOptions::Managed {
                resolve_from_lockfile,
                update_lockfile,
                npm_global_cache_dir,
                maybe_node_modules_path,
                install_package_json,
                ..
            } => {
                &&& !config_data.byonm
                &&& maybe_node_modules_path == config_data.node_modules_dir
                &&& resolve_from_lockfile == config_data.lockfile
                &&& npm_folder_path == Some(npm_global_cache_dir)
                &&& !update_lockfile
                &&& !install_package_json
            },
            NpmResolverOptions::Byonm { root_node_modules_dir } => {
                &&& config_data.byonm
                &&& config_data.node_modules_dir is Some ==> config_data.node_modules_dir == Some(
                    root_node_modules_dir,
                )
                &&& config_data.node_modules_dir is None ==> scope_path == Some(
                    root_node_modules_dir,
                )
            },
        },
{
}

/// Where a resolver manages the packages, it does not matter what the path of the scope is, as long as
/// there is one.
pub proof fn managed_resolver_ignores_the_scope(
    config_data: &ConfigData,
    npm_folder_path: Option<String>,
    scope_path: String,
    other_path: String,
    r: Option<NpmResolverOptions>,
    other: Option<NpmResolverOptions>,
)
    requires
        call_ensures(create_npm_resolver, (config_data, npm_folder_path, Some(scope_path)), r),
        call_ensures(create_npm_resolver, (config_data, npm_folder_path, Some(other_path)), other),
        !config_data.byonm || config_data.node_modules_dir is Some,
    ensures
        r == other,
{
}

/// What is hashed tells two configurations of a workspace apart wherever they differ in the scope, the
/// directory of node modules, the lockfile or the path of the global cache.
pub proof fn hash_tells_configurations_apart(
    a: &Config,
    b: &Config,
    a_path: &Option<String>,
    b_path: &Option<String>,
    a_pieces: Vec<HashPiece>,
    b_pieces: Vec<HashPiece>,
)
    requires
        call_ensures(config_pieces, (a, a_path), a_pieces),
        call_ensures(config_pieces, (b, b_path), b_pieces),
        a.root_data is Some,
        b.root_data is Some,
        a_pieces@ == b_pieces@,
    ensures
        *a_path == *b_path,
        a.root_data->Some_0.scope == b.root_data->Some_0.scope,
        a.root_data->Some_0.node_modules_dir == b.root_data->Some_0.node_modules_dir,
        a.root_data->Some_0.lockfile == b.root_data->Some_0.lockfile,
{
    let x = a_pieces@;
    let y = b_pieces@;
    assert(x[0] == y[0]);
    assert(x[1] == y[1]);
    assert(x[2] == y[2]);
    assert(x[3] == y[3]);
    assert(x.len() == y.len());
}

/// The resolvers of npm packages and of Node modules are kept as long as the hash of the configuration
/// stays the same. With another hash, the resolver of npm packages is the new one where there are a
/// client to download with and a workspace, and none otherwise; the one of Node modules goes with it.
pub proof fn resolvers_follow_the_hash(
    resolver: &LspResolver,
    config: Arc<Config>,
    npm_config_hash: LspNpmConfigHash,
    has_http_client: bool,
    created: Option<NpmResolver>,
    r: LspResolver,
)
    requires
        call_ensures(
            LspResolver::with_new_config,
            (resolver, config, npm_config_hash, has_http_client, created),
            r,
        ),
    ensures
        r.npm_config_hash == npm_config_hash,
        *r.config == *config,
        npm_config_hash == resolver.npm_config_hash ==> r.npm_resolver == resolver.npm_resolver
            && r.node_resolver == resolver.node_resolver,
        npm_config_hash != resolver.npm_config_hash && has_http_client && config.root_data is Some
            ==> r.npm_resolver == created,
        npm_config_hash != resolver.npm_config_hash && !(has_http_client
            && config.root_data is Some) ==> r.npm_resolver is None,
        npm_config_hash != resolver.npm_config_hash ==> (r.node_resolver is Some
            <==> r.npm_resolver is Some) && (r.node_resolver matches Some(node)
            ==> r.npm_resolver == Some(node.npm_resolver)),
        r.graph_resolver.npm_resolver == r.npm_resolver,
        r.graph_resolver.node_resolver == r.node_resolver,
{
}

/// A snapshot has the configuration and the hash of what it was made of, and a resolver of npm packages
/// only where there was one; the one of Node modules is on top of it.
pub proof fn snapshot_keeps_the_configuration(
    resolver: &LspResolver,
    snapshotted: Option<NpmResolver>,
    r: LspResolver,
)
    requires
        call_ensures(LspResolver::snapshot, (resolver, snapshotted), r),
    ensures
        r.npm_config_hash == resolver.npm_config_hash,
        *r.config == *resolver.config,
        resolver.npm_resolver is None ==> r.npm_resolver is None,
        resolver.npm_resolver is Some ==> r.npm_resolver == snapshotted,
        r.node_resolver is Some <==> r.npm_resolver is Some,
        r.node_resolver matches Some(node) ==> r.npm_resolver == Some(node.npm_resolver),
        r.graph_resolver.npm_resolver == r.npm_resolver,
        r.graph_resolver.node_resolver == r.node_resolver,
{
}

/// The resolver of module graphs has from the configuration of the workspace its package file, its
/// import map, its vendor directory, the source of JSX imports where the configuration file says nothing
/// wrong about it, and whether built-in modules of Node can be imported by their bare names. It never
/// finds sloppy imports.
pub proof fn graph_resolver_follows_the_configuration(
    config: &Config,
    npm_resolver: Option<NpmResolver>,
    node_resolver: Option<NodeResolver>,
    r: GraphResolverOptions,
)
    requires
        call_ensures(create_graph_resolver, (config, npm_resolver, node_resolver), r),
    ensures
        r.npm_resolver == npm_resolver,
        r.node_resolver == node_resolver,
        !r.sloppy_imports,
        config.root_data matches Some(data) ==> {
            &&& r.package_json == data.package_json
            &&& r.maybe_import_map == data.import_map
            &&& r.maybe_vendor_dir == data.vendor_dir
            &&& data.config_file matches Some(file) ==> {
                &&& file.jsx_import_source matches Ok(source) ==> r.maybe_jsx_import_source_config
                    == source
                &&& file.jsx_import_source is Err ==> r.maybe_jsx_import_source_config is None
                &&& r.bare_node_builtins_enabled <==> exists|i: int|
                    0 <= i < file.unstable@.len() && (#[trigger] file.unstable@[i])@
                        == "bare-node-builtins"@
            }
            &&& data.config_file is None ==> r.maybe_jsx_import_source_config is None
                && !r.bare_node_builtins_enabled
        },
        config.root_data is None ==> r.package_json is None && r.maybe_import_map is None
            && r.maybe_vendor_dir is None && r.maybe_jsx_import_source_config is None
            && !r.bare_node_builtins_enabled,
{
}

/// Without a resolver of npm packages, nothing is in an npm package and there are no required packages to
/// set. One that does not manage its packages has none to set either.
pub proof fn nothing_is_asked_without_a_resolver(
    resolver: &LspResolver,
    in_package: bool,
    is_in_package: bool,
    set: Result<(), AnyError>,
    done: Result<(), AnyError>,
    managed: Option<NpmResolver>,
)
    requires
        call_ensures(LspResolver::in_npm_package, (resolver, in_package), is_in_package),
        call_ensures(LspResolver::set_npm_package_reqs, (resolver, set), done),
        call_ensures(LspResolver::maybe_managed_npm_resolver, (resolver,), managed),
    ensures
        resolver.npm_resolver is None ==> !is_in_package && done is Ok && managed is None,
        resolver.npm_resolver matches Some(npm) ==> {
            &&& is_in_package == in_package
            &&& npm.managed ==> done == set && managed == Some(npm)
            &&& !npm.managed ==> done is Ok && managed is None
        },
{
}

/// Without a resolver of Node modules nothing is resolved, and that is no error; with one, its answer is
/// handed on.
pub proof fn node_resolver_is_asked<T>(
    resolver: &LspResolver,
    answer: Result<Option<T>, AnyError>,
    resolved: Result<Option<T>, AnyError>,
    found: Result<Option<T>, AnyError>,
    one: Result<T, AnyError>,
    by_url: Result<Option<T>, AnyError>,
    by_reference: Result<Option<T>, AnyError>,
)
    requires
        call_ensures(LspResolver::node_resolve::<T>, (resolver, answer), resolved),
        call_ensures(LspResolver::get_closest_package_json::<T>, (resolver, answer), found),
        call_ensures(LspResolver::url_to_node_resolution::<T>, (resolver, one), by_url),
        call_ensures(LspResolver::resolve_npm_req_reference::<T>, (resolver, one), by_reference),
    ensures
        resolver.node_resolver is None ==> resolved == Ok::<Option<T>, AnyError>(None) && found
            == resolved && by_url == resolved && by_reference == resolved,
        resolver.node_resolver is Some ==> resolved == answer && found == answer && by_url
            == by_reference && match one {
            Ok(value) => by_url == Ok::<Option<T>, AnyError>(Some(value)),
            Err(e) => by_url == Err::<Option<T>, AnyError>(e),
        },
{
}

/// The hash of a configuration is that of what is to be hashed of it: where the hash is a function of what is
/// hashed, two configurations of which the same is hashed have the same hash.
pub proof fn hash_is_that_of_the_pieces<F: FnOnce(Vec<HashPiece>) -> u64>(
    config: &Config,
    global_cache_path: &Option<String>,
    hash: F,
    value: spec_fn(Seq<HashPiece>) -> u64,
    pieces: Vec<HashPiece>,
    r: LspNpmConfigHash,
)
    requires
        forall|p: Vec<HashPiece>, h: u64|
            #![trigger call_ensures(hash, (p,), h)]
            call_ensures(hash, (p,), h) ==> h == value(p@),
        call_ensures(config_pieces, (config, global_cache_path), pieces),
        call_ensures(LspNpmConfigHash::new::<F>, (config, global_cache_path, hash), r),
    ensures
        r.0 == value(pieces@),
{
}

} // verus!
