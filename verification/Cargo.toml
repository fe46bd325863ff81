[package]
name = "control_plane"
version = "0.1.0"
edition = "2021"
publish = false

[dependencies]
anyhow = "1"
bytes = "1"
chrono = "0.4"
dashmap = "6"
futures = "0.3"
log = "0.4"
pyo3 = { version = "*", features = ["abi3-py310", "extension-module"] }
pyo3-async-runtimes = { version = "*", features = ["tokio-runtime"] }
rdkafka = { version = "*", default-features = false, features = ["tokio"] }
serde = { version = "1", features = ["derive"] }
serde_json = "1"
tokio = { version = "1", features = ["full"] }
ustr = "1"
