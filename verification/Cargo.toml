[package]
name = "sway_lsp_core"
version = "0.1.0"
edition = "2021"
publish = false

[dependencies]
filecheck = "0.5"
forc-pkg = "0.16"
forc-util = "0.16"
regex = "1"
serde_json = "1"
sway-core = "0.16"
sway-ir = "0.16"
sway-types = "0.16"
thiserror = "1"
tower-lsp = "0.17"
tracing = "0.1"
