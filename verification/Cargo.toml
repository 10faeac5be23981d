[package]
name = "switchyard-py"
version = "0.1.0"
edition = "2021"
publish = false

[dependencies]
futures = "*"
http = "1"
pyo3 = { version = "*", features = ["abi3-py310", "extension-module"] }
pyo3-async-runtimes = { version = "*", features = ["tokio-runtime"] }
serde = { version = "1", features = ["derive"] }
serde_json = "1"
tokio = { version = "1", features = ["rt-multi-thread", "sync"] }
