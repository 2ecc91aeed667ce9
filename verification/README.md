# deno_tools

Pieces of a JavaScript runtime and of its tools, verified with Verus.

- `src/` is the library. What it computes and decides is stated in contracts and proved. Calls into
  other crates stand behind small functions whose doc comments say what is believed of them.
- `tests/` runs the library with those crates.
- `app/` is the program around the library: files, processes, the network, the clock and the log.

| Module | Subject |
| --- | --- |
| `update_check`, `upgrade`, `upgrade_steps` | looking for new releases and installing them |
| `import_map`, `package_version`, `source_module`, `text_changes`, `unfurl`, `import_map_lookup` | the dependencies of modules, and rewriting their imports |
| `websocket`, `websocket_create` | opening WebSockets, and their frames and events |
| `http_headers`, `http_next` | headers, and requests that wait for their responses |
| `extensions` | extensions of the runtime |
| `lsp_resolver`, `npm_global` | the resolvers of the language server and of npm packages |
| `builders`, `env_vars` | the commands of integration tests |
| `shared`, `text`, `boundaries`, `paths`, `time`, `semver`, `url` | what the others share |

Where a process outside the library has to act in turn with it, a module gives one step at a time:
`upgrade_steps::upgrade`, `websocket_create::op_ws_create` and
`npm_global::GlobalNpmPackageResolver::cache_packages` name the next action, and `step` takes what
came of it.
