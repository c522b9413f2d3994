[package]
name = "edge_runtime"
version = "0.1.0"
edition = "2021"
publish = false

[dependencies]
anyhow = "1"
deno_ast = { version = "=0.29.5", features = ["transpiling"] }
deno_core = "0.189"
deno_npm = "=0.43.0"
import_map = "=0.15.0"
log = "0.4"
serde = "=1.0.219"
serde_json = "=1.0.143"
tokio = { version = "1", features = ["sync", "time", "net", "rt", "macros"] }
url = "=2.5.8"
urlencoding = "=2.1.3"
