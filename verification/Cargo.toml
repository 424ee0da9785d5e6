[package]
name = "rust_python_lab"
version = "0.1.0"
edition = "2021"
publish = false

[dependencies]
futures-channel = "=0.3.34"
futures-util = "=0.3.34"
pyo3 = { version = "=0.28.3", features = ["abi3-py311", "extension-module"] }
pyo3-async-runtimes = { version = "=0.28.0", features = ["tokio-runtime"] }
tokio = { version = "=1.54.1", features = ["macros", "rt", "rt-multi-thread", "sync", "time"] }
tokio-util = "=0.7.20"
