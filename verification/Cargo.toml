[package]
name = "cocoindex_engine"
version = "0.1.0"
edition = "2021"
publish = false

[dependencies]
anyhow = "1"
indexmap = "2"
pyo3 = { version = "0.25", features = ["abi3-py311", "extension-module"] }
pyo3-async-runtimes = { version = "0.25", features = ["tokio-runtime"] }
pythonize = "0.25"
serde = { version = "1", features = ["derive"] }
serde_json = { version = "1", features = ["preserve_order"] }
tokio = { version = "1", features = ["rt-multi-thread", "sync"] }
