[package]
name = "deno_tools"
version = "0.1.0"
edition = "2021"
publish = false

[dependencies]
anyhow = "1"
backtrace = "0.3"
bytes = "1"
chrono = "=0.4.45"
deno_ast = "=0.53.3"
deno_graph = "0.111"
deno_semver = "0.10"
fastwebsockets = { version = "=0.10.0", features = ["upgrade"] }
http = "=1.5.0"
http-body-util = "0.1"
hyper = { version = "1", features = ["full"] }
hyper-util = { version = "0.1", features = ["tokio"] }
import_map = "=0.25.0"
log = "0.4"
nix = { version = "0.29", features = ["user"] }
os_pipe = "1"
serde_json = { version = "=1.0.154", features = ["preserve_order"] }
slab = "=0.4.12"
tempfile = "3"
tokio = { version = "1", features = ["full"] }
tokio-rustls = "0.26"
url = "=2.5.8"
