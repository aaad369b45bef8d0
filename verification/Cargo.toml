[package]
name = "tokio_bridge"
version = "0.1.0"
edition = "2021"
publish = false

[dependencies]
futures = "=0.3.34"
once_cell = "=1.21.4"
pyo3 = { version = "=0.20.3", features = ["abi3-py37"] }
tokio = { version = "=1.54.1", features = ["net", "rt", "rt-multi-thread", "time"] }
