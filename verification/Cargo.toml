[package]
name = "filter_pushdown"
version = "0.1.0"
edition = "2021"
publish = false

[dependencies]
arrow = { version = "56", features = ["pyarrow"] }
datafusion = { version = "50", default-features = false }
pyo3 = { version = "0.25", features = ["extension-module", "abi3", "abi3-py39"] }
