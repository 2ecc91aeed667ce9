//! Pieces of a JavaScript runtime and of its tools: upgrading the executable, the dependencies and
//! imports of modules, WebSockets and HTTP, extensions, the resolvers of the language server, and the
//! commands of integration tests. What they compute and decide is here; files, processes and the
//! network are the business of the program around them.

pub mod boundaries;
pub mod builders;
pub mod env_vars;
pub mod extensions;
pub mod http_headers;
pub mod http_next;
pub mod import_map;
pub mod import_map_lookup;
pub mod lsp_resolver;
pub mod npm_global;
pub mod package_version;
pub mod paths;
pub mod semver;
pub mod shared;
pub mod source_module;
pub mod text;
pub mod text_changes;
pub mod time;
pub mod unfurl;
pub mod update_check;
pub mod upgrade;
pub mod upgrade_steps;
pub mod url;
pub mod websocket;
pub mod websocket_create;
