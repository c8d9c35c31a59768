[package]
name = "rust_docs_mcp"
version = "0.1.0"
edition = "2021"
publish = false

[dependencies]
anyhow = "1"
dunce = "1"
futures = "0.3"
indoc = "2"
ra_ap_cfg = "=0.0.289"
ra_ap_hir = "=0.0.289"
ra_ap_ide = "=0.0.289"
ra_ap_ide_db = "=0.0.289"
ra_ap_load-cargo = "=0.0.289"
ra_ap_paths = "=0.0.289"
ra_ap_project_model = "=0.0.289"
ra_ap_syntax = "=0.0.289"
ra_ap_vfs = "=0.0.289"
rmcp = { version = "0.1", features = ["server", "transport-io"] }
rustdoc-types = "*"
schemars = "0.8"
serde = { version = "1", features = ["derive"] }
serde_json = "1"
tokio = { version = "1", features = ["rt-multi-thread", "macros", "sync", "process", "fs", "io-std"] }
toml = "0.8"
tracing = "0.1"
