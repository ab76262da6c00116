[package]
name = "bh_agent"
version = "0.1.0"
edition = "2021"
publish = false

[dependencies]
anyhow = "1"
bimap = "0.6"
log = "0.4"
nix = { version = "0.27", features = ["fs", "user"] }
pyo3 = { version = "0.20", features = ["extension-module"] }
pyo3-log = "0.9"
serde = { version = "1", features = ["derive"] }
subprocess = "0.2"
tarpc = { version = "0.34", features = ["full"] }
thiserror = "1"
tokio = { version = "1", features = ["rt", "rt-multi-thread", "net", "macros"] }
unicode_reader = "1"
